//! Aggregation and rendering of a run's results: summary counts derived
//! from the collected records, and the text, CSV and HTML renderings,
//! each pinned to an exact character-level specification.

use crate::engine::QueryResult;
use crate::engine::QueryStatus;
use crate::text::dec_chars;
use crate::text::replace_all;
use crate::text::replace_chars;
use crate::text::u64_to_dec;
use vstd::prelude::*;

verus! {

/// The report renderings a run can produce.
#[derive(Debug, Clone, Copy, PartialEq, Eq, Structural)]
pub enum OutputFormat {
    Text,
    Json,
    Csv,
    Html,
}

/// How many results carry the given status.
pub open spec fn count_status(rs: Seq<QueryResult>, st: QueryStatus) -> nat {
    rs.filter(|r: QueryResult| r.status == st).len()
}

/// The lowercase status label used in CSV rows.
pub open spec fn spec_status_label(st: QueryStatus) -> Seq<char> {
    match st {
        QueryStatus::Claimed => "claimed"@,
        QueryStatus::Available => "available"@,
        QueryStatus::Error => "error"@,
        QueryStatus::Illegal => "illegal"@,
        QueryStatus::Unknown => "unknown"@,
    }
}

/// The capitalized status name used in HTML rows.
pub open spec fn spec_status_text(st: QueryStatus) -> Seq<char> {
    match st {
        QueryStatus::Claimed => "Claimed"@,
        QueryStatus::Available => "Available"@,
        QueryStatus::Error => "Error"@,
        QueryStatus::Illegal => "Illegal"@,
        QueryStatus::Unknown => "Unknown"@,
    }
}

/// The CSS class an HTML row gets for its status.
pub open spec fn spec_status_class(st: QueryStatus) -> Seq<char> {
    match st {
        QueryStatus::Claimed => "claimed"@,
        QueryStatus::Available => "available"@,
        QueryStatus::Error => "error"@,
        _ => ""@,
    }
}

/// An optional number rendered in decimal, or nothing.
pub open spec fn opt_dec(o: Option<u64>) -> Seq<char> {
    match o {
        Some(v) => dec_chars(v as nat),
        None => Seq::<char>::empty(),
    }
}

/// An optional number rendered in decimal, or `N/A`.
pub open spec fn opt_dec_or_na(o: Option<u64>) -> Seq<char> {
    match o {
        Some(v) => dec_chars(v as nat),
        None => "N/A"@,
    }
}

/// One `[+] site: url` line per claimed result, in collection order.
pub open spec fn claimed_lines(rs: Seq<QueryResult>) -> Seq<char>
    decreases rs.len(),
{
    if rs.len() == 0 {
        Seq::<char>::empty()
    } else {
        claimed_lines(rs.drop_last()) + (if rs.last().status == QueryStatus::Claimed {
            "[+] "@ + rs.last().site_name@ + ": "@ + rs.last().profile_url@ + "\n"@
        } else {
            Seq::<char>::empty()
        })
    }
}

/// One `[-] site: url` line per available result, in collection order.
pub open spec fn available_lines(rs: Seq<QueryResult>) -> Seq<char>
    decreases rs.len(),
{
    if rs.len() == 0 {
        Seq::<char>::empty()
    } else {
        available_lines(rs.drop_last()) + (if rs.last().status == QueryStatus::Available {
            "[-] "@ + rs.last().site_name@ + ": "@ + rs.last().profile_url@ + "\n"@
        } else {
            Seq::<char>::empty()
        })
    }
}

/// The lowercase status label used in CSV rows.
pub fn status_label(st: QueryStatus) -> (s: &'static str)
    ensures
        s@ == spec_status_label(st),
{
    match st {
        QueryStatus::Claimed => "claimed",
        QueryStatus::Available => "available",
        QueryStatus::Error => "error",
        QueryStatus::Illegal => "illegal",
        QueryStatus::Unknown => "unknown",
    }
}

/// The capitalized status name used in HTML rows.
pub fn status_text(st: QueryStatus) -> (s: &'static str)
    ensures
        s@ == spec_status_text(st),
{
    match st {
        QueryStatus::Claimed => "Claimed",
        QueryStatus::Available => "Available",
        QueryStatus::Error => "Error",
        QueryStatus::Illegal => "Illegal",
        QueryStatus::Unknown => "Unknown",
    }
}

/// The CSS class an HTML row gets for its status.
pub fn status_class(st: QueryStatus) -> (s: &'static str)
    ensures
        s@ == spec_status_class(st),
{
    match st {
        QueryStatus::Claimed => "claimed",
        QueryStatus::Available => "available",
        QueryStatus::Error => "error",
        _ => "",
    }
}

/// One CSV row for one result.
pub open spec fn csv_line(r: QueryResult) -> Seq<char> {
    r.site_name@ + ","@ + r.site_url@ + ","@ + r.profile_url@ + ","@ + spec_status_label(r.status)
        + ","@ + (match r.http_status {
        Some(v) => dec_chars(v as nat),
        None => Seq::<char>::empty(),
    }) + ","@ + opt_dec(r.response_time_ms) + "\n"@
}

/// The CSV rows of all results, in collection order.
pub open spec fn csv_lines(rs: Seq<QueryResult>) -> Seq<char>
    decreases rs.len(),
{
    if rs.len() == 0 {
        Seq::<char>::empty()
    } else {
        csv_lines(rs.drop_last()) + csv_line(rs.last())
    }
}

/// One HTML table row for one result.
pub open spec fn html_row(r: QueryResult) -> Seq<char> {
    "                <tr>\n                    <td>"@ + r.site_name@
        + "</td>\n                    <td><a href=\""@ + r.profile_url@
        + "\" class=\"site-link\" target=\"_blank\">"@ + r.profile_url@
        + "</a></td>\n                    <td class=\""@ + spec_status_class(r.status) + "\">"@
        + spec_status_text(r.status) + "</td>\n                    <td>"@ + (match r.http_status {
        Some(v) => dec_chars(v as nat),
        None => "N/A"@,
    }) + "</td>\n                    <td>"@ + opt_dec_or_na(r.response_time_ms)
        + " ms</td>\n                </tr>\n"@
}

/// The HTML rows of all results, in collection order.
pub open spec fn html_rows(rs: Seq<QueryResult>) -> Seq<char>
    decreases rs.len(),
{
    if rs.len() == 0 {
        Seq::<char>::empty()
    } else {
        html_rows(rs.drop_last()) + html_row(rs.last())
    }
}

/// Everything of the HTML document above the table rows, with the
/// summary placeholders still in place.
pub open spec fn spec_html_head() -> Seq<char> {
    r#"<!DOCTYPE html>
<html>
<head>
    <meta charset="UTF-8">
    <title>Watson Search Report</title>
    <style>
        body { font-family: Arial, sans-serif; margin: 20px; background: #f5f5f5; }
        .container { max-width: 900px; margin: 0 auto; background: white; padding: 20px; border-radius: 8px; box-shadow: 0 2px 4px rgba(0,0,0,0.1); }
        h1 { color: #333; border-bottom: 2px solid #007bff; padding-bottom: 10px; }
        .stats { display: flex; gap: 20px; margin: 20px 0; }
        .stat { padding: 15px 25px; background: #f8f9fa; border-radius: 5px; text-align: center; }
        .stat-value { font-size: 24px; font-weight: bold; color: #007bff; }
        .stat-label { color: #666; font-size: 12px; }
        table { width: 100%; border-collapse: collapse; margin-top: 20px; }
        th, td { padding: 12px; text-align: left; border-bottom: 1px solid #ddd; }
        th { background: #007bff; color: white; }
        .claimed { color: #28a745; font-weight: bold; }
        .available { color: #dc3545; }
        .error { color: #ffc107; }
        .site-link { color: #007bff; text-decoration: none; }
        .site-link:hover { text-decoration: underline; }
    </style>
</head>
<body>
    <div class="container">
        <h1>Watson Search Report</h1>
        <p><strong>Username:</strong> #USERNAME#</p>
        <div class="stats">
            <div class="stat">
                <div class="stat-value">#TOTAL#</div>
                <div class="stat-label">Total Sites</div>
            </div>
            <div class="stat">
                <div class="stat-value">#CLAIMED#</div>
                <div class="stat-label">Found</div>
            </div>
            <div class="stat">
                <div class="stat-value">#AVAILABLE#</div>
                <div class="stat-label">Available</div>
            </div>
            <div class="stat">
                <div class="stat-value">#ERRORS#</div>
                <div class="stat-label">Errors</div>
            </div>
        </div>
        <table>
            <thead>
                <tr>
                    <th>Site</th>
                    <th>Profile URL</th>
                    <th>Status</th>
                    <th>HTTP Status</th>
                    <th>Response Time</th>
                </tr>
            </thead>
            <tbody>
"#@
}

/// Everything of the HTML document below the table rows.
pub open spec fn spec_html_tail() -> Seq<char> {
    r#"            </tbody>
        </table>
    </div>
</body>
</html>
"#@
}

/// The whole plain-text report.
pub open spec fn spec_text_report(rep: SearchReport) -> Seq<char> {
    "\n=== Watson Search Results for '"@ + rep.username@ + "' ===\n"@ + "Total sites checked: "@
        + dec_chars(rep.total_sites as nat) + "\n"@ + "Found on: "@ + dec_chars(
        rep.claimed_count as nat,
    ) + " sites\n"@ + "Available on: "@ + dec_chars(rep.available_count as nat) + " sites\n"@
        + "Errors: "@ + dec_chars(rep.error_count as nat) + "\n"@ + (if rep.tor_used {
        "Using Tor: Yes\n"@
    } else {
        Seq::<char>::empty()
    }) + "\n--- Found Accounts ---\n"@ + claimed_lines(rep.results@)
        + "\n--- Available Accounts ---\n"@ + available_lines(rep.results@)
}

/// The whole CSV report: the header line, then one row per result.
pub open spec fn spec_csv_report(rep: SearchReport) -> Seq<char> {
    "site_name,site_url,profile_url,status,http_status,response_time_ms\n"@ + csv_lines(
        rep.results@,
    )
}

/// The whole HTML report: chrome, rows, and the five summary
/// placeholders substituted.
pub open spec fn spec_html_report(rep: SearchReport) -> Seq<char> {
    replace_chars(
        replace_chars(
            replace_chars(
                replace_chars(
                    replace_chars(
                        spec_html_head() + html_rows(rep.results@) + spec_html_tail(),
                        "#USERNAME#"@,
                        rep.username@,
                    ),
                    "#TOTAL#"@,
                    dec_chars(rep.total_sites as nat),
                ),
                "#CLAIMED#"@,
                dec_chars(rep.claimed_count as nat),
            ),
            "#AVAILABLE#"@,
            dec_chars(rep.available_count as nat),
        ),
        "#ERRORS#"@,
        dec_chars(rep.error_count as nat),
    )
}

/// The aggregated outcome of one run: every collected result plus the
/// derived summary counts.
#[derive(Debug)]
pub struct SearchReport {
    pub username: String,
    pub total_sites: usize,
    pub claimed_count: usize,
    pub available_count: usize,
    pub error_count: usize,
    pub results: Vec<QueryResult>,
    pub tor_used: bool,
}

impl SearchReport {
    /// Collects the results of one run and derives the summary counts.
    pub fn new(username: String, results: Vec<QueryResult>, tor_used: bool) -> (rep: Self)
        ensures
            rep.username == username,
            rep.total_sites == results@.len(),
            rep.claimed_count == count_status(results@, QueryStatus::Claimed),
            rep.available_count == count_status(results@, QueryStatus::Available),
            rep.error_count == count_status(results@, QueryStatus::Error),
            rep.results == results,
            rep.tor_used == tor_used,
    {
        let n = results.len();
        let mut claimed: usize = 0;
        let mut available: usize = 0;
        let mut errors: usize = 0;
        let mut i: usize = 0;
        proof {
            reveal_with_fuel(Seq::filter, 1);
            assert(results@.subrange(0, 0) =~= Seq::<QueryResult>::empty());
        }
        while i < n
            invariant
                n == results@.len(),
                i <= n,
                claimed == count_status(results@.subrange(0, i as int), QueryStatus::Claimed),
                available == count_status(results@.subrange(0, i as int), QueryStatus::Available),
                errors == count_status(results@.subrange(0, i as int), QueryStatus::Error),
                claimed <= i,
                available <= i,
                errors <= i,
            decreases n - i,
        {
            let ghost prefix = results@.subrange(0, i as int);
            let ghost e = results@[i as int];
            proof {
                broadcast use vstd::prelude::Seq::lemma_filter_len_push;

                assert(results@.subrange(0, i + 1) =~= prefix.push(e));
                assert(count_status(prefix.push(e), QueryStatus::Claimed) == count_status(
                    prefix,
                    QueryStatus::Claimed,
                ) + (if e.status == QueryStatus::Claimed {
                    1int
                } else {
                    0
                }));
                assert(count_status(prefix.push(e), QueryStatus::Available) == count_status(
                    prefix,
                    QueryStatus::Available,
                ) + (if e.status == QueryStatus::Available {
                    1int
                } else {
                    0
                }));
                assert(count_status(prefix.push(e), QueryStatus::Error) == count_status(
                    prefix,
                    QueryStatus::Error,
                ) + (if e.status == QueryStatus::Error {
                    1int
                } else {
                    0
                }));
            }
            let r = &results[i];
            if r.status == QueryStatus::Claimed {
                claimed = claimed + 1;
            } else if r.status == QueryStatus::Available {
                available = available + 1;
            } else if r.status == QueryStatus::Error {
                errors = errors + 1;
            }
            i = i + 1;
        }
        proof {
            assert(results@.subrange(0, n as int) =~= results@);
        }
        SearchReport {
            username,
            total_sites: n,
            claimed_count: claimed,
            available_count: available,
            error_count: errors,
            results,
            tor_used,
        }
    }

    /// Renders the plain-text report.
    pub fn to_text(&self) -> (res: String)
        ensures
            res@ == spec_text_report(*self),
    {
        let mut out = String::new();
        out.append("\n=== Watson Search Results for '");
        out.append(self.username.as_str());
        out.append("' ===\n");
        out.append("Total sites checked: ");
        let d_total = u64_to_dec(self.total_sites as u64);
        out.append(d_total.as_str());
        out.append("\n");
        out.append("Found on: ");
        let d_claimed = u64_to_dec(self.claimed_count as u64);
        out.append(d_claimed.as_str());
        out.append(" sites\n");
        out.append("Available on: ");
        let d_available = u64_to_dec(self.available_count as u64);
        out.append(d_available.as_str());
        out.append(" sites\n");
        out.append("Errors: ");
        let d_errors = u64_to_dec(self.error_count as u64);
        out.append(d_errors.as_str());
        out.append("\n");
        if self.tor_used {
            out.append("Using Tor: Yes\n");
        }
        out.append("\n--- Found Accounts ---\n");
        let ghost head = out@;
        let n = self.results.len();
        let mut k: usize = 0;
        proof {
            assert(self.results@.subrange(0, 0) =~= Seq::<QueryResult>::empty());
            assert(out@ =~= head + claimed_lines(self.results@.subrange(0, 0)));
        }
        while k < n
            invariant
                n == self.results@.len(),
                k <= n,
                out@ == head + claimed_lines(self.results@.subrange(0, k as int)),
            decreases n - k,
        {
            let r = &self.results[k];
            if r.is_claimed() {
                out.append("[+] ");
                out.append(r.site_name.as_str());
                out.append(": ");
                out.append(r.profile_url.as_str());
                out.append("\n");
            }
            proof {
                assert(self.results@.subrange(0, k + 1).drop_last() =~= self.results@.subrange(
                    0,
                    k as int,
                ));
                assert(self.results@.subrange(0, k + 1).last() == self.results@[k as int]);
                assert(out@ =~= head + claimed_lines(self.results@.subrange(0, k + 1)));
            }
            k = k + 1;
        }
        proof {
            assert(self.results@.subrange(0, n as int) =~= self.results@);
        }
        out.append("\n--- Available Accounts ---\n");
        let ghost head2 = out@;
        let mut k2: usize = 0;
        proof {
            assert(self.results@.subrange(0, 0) =~= Seq::<QueryResult>::empty());
            assert(out@ =~= head2 + available_lines(self.results@.subrange(0, 0)));
        }
        while k2 < n
            invariant
                n == self.results@.len(),
                k2 <= n,
                out@ == head2 + available_lines(self.results@.subrange(0, k2 as int)),
            decreases n - k2,
        {
            let r = &self.results[k2];
            if r.status == QueryStatus::Available {
                out.append("[-] ");
                out.append(r.site_name.as_str());
                out.append(": ");
                out.append(r.profile_url.as_str());
                out.append("\n");
            }
            proof {
                assert(self.results@.subrange(0, k2 + 1).drop_last() =~= self.results@.subrange(
                    0,
                    k2 as int,
                ));
                assert(self.results@.subrange(0, k2 + 1).last() == self.results@[k2 as int]);
                assert(out@ =~= head2 + available_lines(self.results@.subrange(0, k2 + 1)));
            }
            k2 = k2 + 1;
        }
        proof {
            assert(self.results@.subrange(0, n as int) =~= self.results@);
            assert(out@ =~= spec_text_report(*self));
        }
        out
    }

    /// Renders the CSV report.
    #[verifier::rlimit(100)]
    pub fn to_csv(&self) -> (res: String)
        ensures
            res@ == spec_csv_report(*self),
    {
        let mut out = String::new();
        out.append("site_name,site_url,profile_url,status,http_status,response_time_ms\n");
        let ghost head = out@;
        let n = self.results.len();
        let mut k: usize = 0;
        proof {
            assert(self.results@.subrange(0, 0) =~= Seq::<QueryResult>::empty());
            assert(out@ =~= head + csv_lines(self.results@.subrange(0, 0)));
        }
        while k < n
            invariant
                n == self.results@.len(),
                k <= n,
                out@ == head + csv_lines(self.results@.subrange(0, k as int)),
            decreases n - k,
        {
            let r = &self.results[k];
            out.append(r.site_name.as_str());
            out.append(",");
            out.append(r.site_url.as_str());
            out.append(",");
            out.append(r.profile_url.as_str());
            out.append(",");
            out.append(status_label(r.status));
            out.append(",");
            match r.http_status {
                Some(v) => {
                    let d = u64_to_dec(v as u64);
                    out.append(d.as_str());
                },
                None => {},
            }
            out.append(",");
            match r.response_time_ms {
                Some(v) => {
                    let d = u64_to_dec(v);
                    out.append(d.as_str());
                },
                None => {},
            }
            out.append("\n");
            proof {
                assert(self.results@.subrange(0, k + 1).drop_last() =~= self.results@.subrange(
                    0,
                    k as int,
                ));
                assert(self.results@.subrange(0, k + 1).last() == self.results@[k as int]);
                assert(out@ =~= head + csv_lines(self.results@.subrange(0, k + 1)));
            }
            k = k + 1;
        }
        proof {
            assert(self.results@.subrange(0, n as int) =~= self.results@);
            assert(out@ =~= spec_csv_report(*self));
        }
        out
    }

    /// Renders the HTML report.
    #[verifier::rlimit(100)]
    pub fn to_html(&self) -> (res: String)
        ensures
            res@ == spec_html_report(*self),
    {
        let mut out = String::new();
        out.append(
            r#"<!DOCTYPE html>
<html>
<head>
    <meta charset="UTF-8">
    <title>Watson Search Report</title>
    <style>
        body { font-family: Arial, sans-serif; margin: 20px; background: #f5f5f5; }
        .container { max-width: 900px; margin: 0 auto; background: white; padding: 20px; border-radius: 8px; box-shadow: 0 2px 4px rgba(0,0,0,0.1); }
        h1 { color: #333; border-bottom: 2px solid #007bff; padding-bottom: 10px; }
        .stats { display: flex; gap: 20px; margin: 20px 0; }
        .stat { padding: 15px 25px; background: #f8f9fa; border-radius: 5px; text-align: center; }
        .stat-value { font-size: 24px; font-weight: bold; color: #007bff; }
        .stat-label { color: #666; font-size: 12px; }
        table { width: 100%; border-collapse: collapse; margin-top: 20px; }
        th, td { padding: 12px; text-align: left; border-bottom: 1px solid #ddd; }
        th { background: #007bff; color: white; }
        .claimed { color: #28a745; font-weight: bold; }
        .available { color: #dc3545; }
        .error { color: #ffc107; }
        .site-link { color: #007bff; text-decoration: none; }
        .site-link:hover { text-decoration: underline; }
    </style>
</head>
<body>
    <div class="container">
        <h1>Watson Search Report</h1>
        <p><strong>Username:</strong> #USERNAME#</p>
        <div class="stats">
            <div class="stat">
                <div class="stat-value">#TOTAL#</div>
                <div class="stat-label">Total Sites</div>
            </div>
            <div class="stat">
                <div class="stat-value">#CLAIMED#</div>
                <div class="stat-label">Found</div>
            </div>
            <div class="stat">
                <div class="stat-value">#AVAILABLE#</div>
                <div class="stat-label">Available</div>
            </div>
            <div class="stat">
                <div class="stat-value">#ERRORS#</div>
                <div class="stat-label">Errors</div>
            </div>
        </div>
        <table>
            <thead>
                <tr>
                    <th>Site</th>
                    <th>Profile URL</th>
                    <th>Status</th>
                    <th>HTTP Status</th>
                    <th>Response Time</th>
                </tr>
            </thead>
            <tbody>
"#,
        );
        let ghost head = out@;
        proof {
            assert(head =~= spec_html_head());
        }
        let n = self.results.len();
        let mut k: usize = 0;
        proof {
            assert(self.results@.subrange(0, 0) =~= Seq::<QueryResult>::empty());
            assert(out@ =~= head + html_rows(self.results@.subrange(0, 0)));
        }
        while k < n
            invariant
                n == self.results@.len(),
                k <= n,
                out@ == head + html_rows(self.results@.subrange(0, k as int)),
            decreases n - k,
        {
            let r = &self.results[k];
            let hs: String = match r.http_status {
                Some(v) => u64_to_dec(v as u64),
                None => "N/A".to_owned(),
            };
            let tm: String = match r.response_time_ms {
                Some(v) => u64_to_dec(v),
                None => "N/A".to_owned(),
            };
            let mut line = String::new();
            line.append("                <tr>\n                    <td>");
            line.append(r.site_name.as_str());
            line.append("</td>\n                    <td><a href=\"");
            line.append(r.profile_url.as_str());
            line.append("\" class=\"site-link\" target=\"_blank\">");
            line.append(r.profile_url.as_str());
            line.append("</a></td>\n                    <td class=\"");
            line.append(status_class(r.status));
            line.append("\">");
            line.append(status_text(r.status));
            line.append("</td>\n                    <td>");
            line.append(hs.as_str());
            line.append("</td>\n                    <td>");
            line.append(tm.as_str());
            line.append(" ms</td>\n                </tr>\n");
            proof {
                assert(line@ =~= html_row(self.results@[k as int]));
            }
            out.append(line.as_str());
            proof {
                assert(self.results@.subrange(0, k + 1).drop_last() =~= self.results@.subrange(
                    0,
                    k as int,
                ));
                assert(self.results@.subrange(0, k + 1).last() == self.results@[k as int]);
                assert(out@ =~= head + html_rows(self.results@.subrange(0, k + 1)));
            }
            k = k + 1;
        }
        proof {
            assert(self.results@.subrange(0, n as int) =~= self.results@);
        }
        out.append(
            r#"            </tbody>
        </table>
    </div>
</body>
</html>
"#,
        );
        proof {
            assert(out@ =~= spec_html_head() + html_rows(self.results@) + spec_html_tail());
        }
        let s1 = replace_all(out.as_str(), "#USERNAME#", self.username.as_str());
        let d_total = u64_to_dec(self.total_sites as u64);
        let s2 = replace_all(s1.as_str(), "#TOTAL#", d_total.as_str());
        let d_claimed = u64_to_dec(self.claimed_count as u64);
        let s3 = replace_all(s2.as_str(), "#CLAIMED#", d_claimed.as_str());
        let d_available = u64_to_dec(self.available_count as u64);
        let s4 = replace_all(s3.as_str(), "#AVAILABLE#", d_available.as_str());
        let d_errors = u64_to_dec(self.error_count as u64);
        let s5 = replace_all(s4.as_str(), "#ERRORS#", d_errors.as_str());
        s5
    }
}

} // verus!

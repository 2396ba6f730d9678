use watson::engine::{QueryResult, QueryStatus};
use watson::output::{SearchReport, status_class, status_label, status_text};

fn record(site: &str, status: QueryStatus) -> QueryResult {
    let mut r = QueryResult::new(
        "alice",
        site,
        "https://example.com",
        &format!("https://example.com/{}", "alice"),
        status,
    );
    r.http_status = Some(200);
    r.response_time_ms = Some(42);
    r
}

#[test]
fn report_counts_each_status() {
    let results = vec![
        record("A", QueryStatus::Claimed),
        record("B", QueryStatus::Available),
        record("C", QueryStatus::Claimed),
        record("D", QueryStatus::Error),
        record("E", QueryStatus::Illegal),
    ];
    let report = SearchReport::new("alice".to_string(), results, true);
    assert_eq!(report.total_sites, 5);
    assert_eq!(report.claimed_count, 2);
    assert_eq!(report.available_count, 1);
    assert_eq!(report.error_count, 1);
    assert!(report.tor_used);
}

#[test]
fn text_report_exact_rendering() {
    let results = vec![
        record("FoundSite", QueryStatus::Claimed),
        record("FreeSite", QueryStatus::Available),
    ];
    let report = SearchReport::new("alice".to_string(), results, false);
    let expected = "\n=== Watson Search Results for 'alice' ===\n\
                    Total sites checked: 2\n\
                    Found on: 1 sites\n\
                    Available on: 1 sites\n\
                    Errors: 0\n\
                    \n--- Found Accounts ---\n\
                    [+] FoundSite: https://example.com/alice\n\
                    \n--- Available Accounts ---\n\
                    [-] FreeSite: https://example.com/alice\n";
    assert_eq!(report.to_text(), expected);
}

#[test]
fn text_report_mentions_tor_when_used() {
    let report = SearchReport::new("bob".to_string(), vec![], true);
    let text = report.to_text();
    assert!(text.contains("Using Tor: Yes\n"));
    assert!(text.contains("Total sites checked: 0\n"));
}

#[test]
fn csv_report_exact_rendering() {
    let mut with_gaps = record("GapSite", QueryStatus::Error);
    with_gaps.http_status = None;
    with_gaps.response_time_ms = None;
    let results = vec![record("FoundSite", QueryStatus::Claimed), with_gaps];
    let report = SearchReport::new("alice".to_string(), results, false);
    let expected = "site_name,site_url,profile_url,status,http_status,response_time_ms\n\
                    FoundSite,https://example.com,https://example.com/alice,claimed,200,42\n\
                    GapSite,https://example.com,https://example.com/alice,error,,\n";
    assert_eq!(report.to_csv(), expected);
}

#[test]
fn html_report_substitutes_summary_and_rows() {
    let results = vec![record("FoundSite", QueryStatus::Claimed)];
    let report = SearchReport::new("alice".to_string(), results, false);
    let html = report.to_html();
    assert!(html.starts_with("<!DOCTYPE html>"));
    assert!(html.ends_with("</html>\n"));
    // The placeholders are gone, the values are in.
    assert!(!html.contains("#USERNAME#"));
    assert!(!html.contains("#TOTAL#"));
    assert!(html.contains("<strong>Username:</strong> alice"));
    assert!(html.contains("<td>FoundSite</td>"));
    assert!(html.contains("class=\"claimed\">Claimed</td>"));
    assert!(html.contains("<td>200</td>"));
    assert!(html.contains("<td>42 ms</td>"));
}

#[test]
fn html_report_renders_na_for_missing_fields() {
    let mut r = record("GapSite", QueryStatus::Error);
    r.http_status = None;
    r.response_time_ms = None;
    let report = SearchReport::new("alice".to_string(), vec![r], false);
    let html = report.to_html();
    assert!(html.contains("<td>N/A</td>"));
    assert!(html.contains("<td>N/A ms</td>"));
}

#[test]
fn status_strings_match_their_status() {
    assert_eq!(status_label(QueryStatus::Claimed), "claimed");
    assert_eq!(status_label(QueryStatus::Illegal), "illegal");
    assert_eq!(status_text(QueryStatus::Available), "Available");
    assert_eq!(status_class(QueryStatus::Error), "error");
    assert_eq!(status_class(QueryStatus::Unknown), "");
}

#[test]
fn query_result_constructors() {
    let c = QueryResult::claimed("alice", "S", "https://s", "https://s/alice");
    assert!(c.is_claimed());
    assert_eq!(c.status, QueryStatus::Claimed);
    let a = QueryResult::available("alice", "S", "https://s", "https://s/alice");
    assert!(!a.is_claimed());
    assert_eq!(a.status, QueryStatus::Available);
    let e = QueryResult::error("alice", "S", "https://s", "https://s/alice", "timeout");
    assert_eq!(e.status, QueryStatus::Error);
    assert_eq!(e.error_message.as_deref(), Some("timeout"));
    let i = QueryResult::illegal("alice", "S", "https://s");
    assert_eq!(i.status, QueryStatus::Illegal);
    assert_eq!(i.profile_url, "");
    assert_eq!(i.http_status, None);
}

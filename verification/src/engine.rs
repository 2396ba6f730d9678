//! The probing engine: per-site probe planning, detection-strategy
//! evaluation, and the bounded-fan-out driver that checks one identifier
//! against a whole catalog.

use crate::data::ErrorMessages;
use crate::data::ErrorType;
use crate::data::SiteInfo;
use crate::data::SitesData;
use crate::gate::ConcurrencyGate;
use crate::pattern::regex_is_match;
use crate::pattern::regex_match;
use crate::pattern::regex_parses;
use crate::text::contains_substring;
use crate::text::has_substring;
use crate::text::replace_all;
use crate::text::replace_chars;
use crate::text::str_eq;
use vstd::prelude::*;

verus! {

/// Outcome of checking one identifier against one site.
#[derive(Debug, Clone, Copy, PartialEq, Eq, Structural)]
pub enum QueryStatus {
    Claimed,
    Available,
    Error,
    Illegal,
    Unknown,
}

/// The record produced by one completed detection task; created once,
/// never mutated afterwards.
#[derive(Debug, Clone)]
pub struct QueryResult {
    pub username: String,
    pub site_name: String,
    pub site_url: String,
    pub profile_url: String,
    pub status: QueryStatus,
    pub http_status: Option<u16>,
    pub error_message: Option<String>,
    pub response_time_ms: Option<u64>,
}

impl QueryResult {
    pub fn new(
        username: &str,
        site_name: &str,
        site_url: &str,
        profile_url: &str,
        status: QueryStatus,
    ) -> (r: Self)
        ensures
            r.username@ == username@,
            r.site_name@ == site_name@,
            r.site_url@ == site_url@,
            r.profile_url@ == profile_url@,
            r.status == status,
            r.http_status is None,
            r.error_message is None,
            r.response_time_ms is None,
    {
        QueryResult {
            username: username.to_owned(),
            site_name: site_name.to_owned(),
            site_url: site_url.to_owned(),
            profile_url: profile_url.to_owned(),
            status,
            http_status: None,
            error_message: None,
            response_time_ms: None,
        }
    }

    pub fn claimed(username: &str, site_name: &str, site_url: &str, profile_url: &str) -> (r: Self)
        ensures
            r.username@ == username@,
            r.site_name@ == site_name@,
            r.site_url@ == site_url@,
            r.profile_url@ == profile_url@,
            r.status == QueryStatus::Claimed,
            r.http_status is None,
            r.error_message is None,
            r.response_time_ms is None,
    {
        Self::new(username, site_name, site_url, profile_url, QueryStatus::Claimed)
    }

    pub fn available(username: &str, site_name: &str, site_url: &str, profile_url: &str) -> (r: Self)
        ensures
            r.username@ == username@,
            r.site_name@ == site_name@,
            r.site_url@ == site_url@,
            r.profile_url@ == profile_url@,
            r.status == QueryStatus::Available,
            r.http_status is None,
            r.error_message is None,
            r.response_time_ms is None,
    {
        Self::new(username, site_name, site_url, profile_url, QueryStatus::Available)
    }

    pub fn error(
        username: &str,
        site_name: &str,
        site_url: &str,
        profile_url: &str,
        error: &str,
    ) -> (r: Self)
        ensures
            r.username@ == username@,
            r.site_name@ == site_name@,
            r.site_url@ == site_url@,
            r.profile_url@ == profile_url@,
            r.status == QueryStatus::Error,
            r.http_status is None,
            r.error_message matches Some(m) && m@ == error@,
            r.response_time_ms is None,
    {
        let mut result = Self::new(username, site_name, site_url, profile_url, QueryStatus::Error);
        result.error_message = Some(error.to_owned());
        result
    }

    pub fn illegal(username: &str, site_name: &str, site_url: &str) -> (r: Self)
        ensures
            r.username@ == username@,
            r.site_name@ == site_name@,
            r.site_url@ == site_url@,
            r.profile_url@ == Seq::<char>::empty(),
            r.status == QueryStatus::Illegal,
            r.http_status is None,
            r.error_message is None,
            r.response_time_ms is None,
    {
        proof {
            reveal_strlit("");
            assert(""@ =~= Seq::<char>::empty());
        }
        Self::new(username, site_name, site_url, "", QueryStatus::Illegal)
    }

    pub fn is_claimed(&self) -> (r: bool)
        ensures
            r == (self.status == QueryStatus::Claimed),
    {
        self.status == QueryStatus::Claimed
    }
}

/// What one probe exchange yielded: the final status code, the final URL
/// after redirects, and the body text where it could be read.
#[derive(Debug, Clone)]
pub struct ProbeResponse {
    pub status: u16,
    pub final_url: String,
    pub body: Option<String>,
}

/// The HTTP method a probe uses.
#[derive(Debug, Clone, Copy, PartialEq, Eq, Structural)]
pub enum RequestMethod {
    Get,
    Head,
    Post,
    Put,
}

/// The view of an optional string.
pub open spec fn opt_str_view(o: Option<String>) -> Option<Seq<char>> {
    match o {
        Some(s) => Some(s@),
        None => None,
    }
}

/// How many markers the site configures.
pub open spec fn marker_count(m: ErrorMessages) -> nat {
    match m {
        ErrorMessages::Single(_) => 1,
        ErrorMessages::Multiple(v) => v@.len(),
    }
}

/// Whether some configured marker occurs in the body text.
pub open spec fn marker_signals(m: ErrorMessages, text: Seq<char>) -> bool {
    match m {
        ErrorMessages::Single(s) => has_substring(text, s@),
        ErrorMessages::Multiple(v) => exists|k: int|
            0 <= k < v@.len() && has_substring(text, v@[k]@),
    }
}

/// The method the probe uses: an explicit `POST`, `PUT` or `HEAD` is
/// honored (`HEAD` only where the status code alone decides); with no
/// method configured, `HEAD` is used under the `StatusCode` strategy and
/// `GET` otherwise; anything else falls back to `GET`.
pub open spec fn chosen_method(site: SiteInfo) -> RequestMethod {
    if site.request_method matches Some(m) && m@ == "POST"@ {
        RequestMethod::Post
    } else if site.request_method matches Some(m) && m@ == "PUT"@ {
        RequestMethod::Put
    } else if site.request_method is None || (site.request_method matches Some(m) && m@
        == "HEAD"@) {
        if site.error_type == ErrorType::StatusCode {
            RequestMethod::Head
        } else {
            RequestMethod::Get
        }
    } else {
        RequestMethod::Get
    }
}

/// The body sent with the probe: the configured payload for `POST` and
/// `PUT`, nothing otherwise.
pub open spec fn planned_payload(site: SiteInfo) -> Option<Seq<char>> {
    if chosen_method(site) == RequestMethod::Post || chosen_method(site) == RequestMethod::Put {
        opt_str_view(site.request_payload)
    } else {
        None
    }
}

/// Selects the probe method for `site`.
pub fn select_method(site: &SiteInfo) -> (m: RequestMethod)
    ensures
        m == chosen_method(*site),
{
    match &site.request_method {
        Some(s) => {
            if str_eq(s.as_str(), "POST") {
                RequestMethod::Post
            } else if str_eq(s.as_str(), "PUT") {
                RequestMethod::Put
            } else if str_eq(s.as_str(), "HEAD") {
                if site.error_type == ErrorType::StatusCode {
                    RequestMethod::Head
                } else {
                    RequestMethod::Get
                }
            } else {
                RequestMethod::Get
            }
        },
        None => {
            if site.error_type == ErrorType::StatusCode {
                RequestMethod::Head
            } else {
                RequestMethod::Get
            }
        },
    }
}

/// The site's detection rule, applied to one response: whether the
/// identifier counts as claimed.
///
/// - `StatusCode`: claimed iff the status is 200.
/// - `Message`: claimed iff no configured marker occurs in the body; with
///   no marker configured, or no readable body, the status decides.
/// - `Redirect`: claimed iff the final status is neither 404 nor 403.
/// - `ResponseUrl`: claimed iff the final URL differs from the configured
///   miss URL; with none configured, the status decides.
pub open spec fn response_claimed(site: SiteInfo, resp: ProbeResponse) -> bool {
    match site.error_type {
        ErrorType::StatusCode => resp.status == 200,
        ErrorType::Message => match (resp.body, site.error_msg) {
            (Some(text), Some(m)) => if marker_count(m) == 0 {
                resp.status == 200
            } else {
                !marker_signals(m, text@)
            },
            _ => resp.status == 200,
        },
        ErrorType::Redirect => resp.status != 404 && resp.status != 403,
        ErrorType::ResponseUrl => match site.error_url {
            Some(u) => resp.final_url@ != u@,
            None => resp.status == 200,
        },
    }
}

/// Applies the site's detection rule to one response.
pub fn response_indicates_claimed(site: &SiteInfo, resp: &ProbeResponse) -> (r: bool)
    ensures
        r == response_claimed(*site, *resp),
{
    match site.error_type {
        ErrorType::StatusCode => resp.status == 200,
        ErrorType::Message => {
            match (&resp.body, &site.error_msg) {
                (Some(text), Some(m)) => {
                    match m {
                        ErrorMessages::Single(s) => !contains_substring(
                            text.as_str(),
                            s.as_str(),
                        ),
                        ErrorMessages::Multiple(v) => {
                            if v.len() == 0 {
                                resp.status == 200
                            } else {
                                let mut any = false;
                                let mut k: usize = 0;
                                while k < v.len()
                                    invariant
                                        k <= v@.len(),
                                        any == exists|a: int|
                                            0 <= a < k && has_substring(text@, v@[a]@),
                                    decreases v@.len() - k,
                                {
                                    if contains_substring(text.as_str(), v[k].as_str()) {
                                        any = true;
                                    }
                                    k = k + 1;
                                }
                                !any
                            }
                        },
                    }
                },
                _ => resp.status == 200,
            }
        },
        ErrorType::Redirect => resp.status != 404 && resp.status != 403,
        ErrorType::ResponseUrl => {
            match &site.error_url {
                Some(u) => !str_eq(resp.final_url.as_str(), u.as_str()),
                None => resp.status == 200,
            }
        },
    }
}

/// Whether the site's pattern rejects the identifier before any request:
/// a pattern is configured, it compiles, and the identifier does not
/// match it. A pattern that does not compile is a defective catalog entry;
/// the identifier is then treated as valid and probing proceeds.
pub open spec fn identifier_rejected(site: SiteInfo, username: Seq<char>) -> bool {
    site.regex_check matches Some(p) && regex_parses(p@) && !regex_match(p@, username)
}

/// Pre-flight validation of the identifier against the site's pattern.
pub fn identifier_is_rejected(site: &SiteInfo, username: &str) -> (r: bool)
    ensures
        r == identifier_rejected(*site, username@),
{
    match &site.regex_check {
        Some(p) => {
            match regex_is_match(p.as_str(), username) {
                Some(b) => !b,
                None => false,
            }
        },
        None => false,
    }
}

/// The identifier placeholder in URL templates.
pub open spec fn url_placeholder() -> Seq<char> {
    "{}"@
}

/// The reported profile URL: the identifier substituted into the profile
/// URL template.
pub open spec fn resolved_profile_url(site: SiteInfo, username: Seq<char>) -> Seq<char> {
    replace_chars(site.url@, url_placeholder(), username)
}

/// The probe URL: the identifier substituted into the probe URL template,
/// or into the profile URL template when no distinct probe template is
/// configured.
pub open spec fn resolved_probe_url(site: SiteInfo, username: Seq<char>) -> Seq<char> {
    match site.url_probe {
        Some(p) => replace_chars(p@, url_placeholder(), username),
        None => resolved_profile_url(site, username),
    }
}

/// The two synchronous decision points that precede the network exchange:
/// either the identifier is rejected outright, or a request is planned.
#[derive(Debug, Clone)]
pub enum ProbePlan {
    Rejected(QueryResult),
    Request { url: String, profile_url: String, method: RequestMethod, payload: Option<String> },
}

/// Validates the identifier and, if it passes, resolves the probe and
/// profile URLs, the method and the payload. No request is issued here.
pub fn prepare_probe(username: &str, site_name: &str, site: &SiteInfo) -> (plan: ProbePlan)
    ensures
        plan is Rejected <==> identifier_rejected(*site, username@),
        plan matches ProbePlan::Rejected(q) ==> {
            &&& q.username@ == username@
            &&& q.site_name@ == site_name@
            &&& q.site_url@ == site.url_main@
            &&& q.profile_url@ == Seq::<char>::empty()
            &&& q.status == QueryStatus::Illegal
            &&& q.http_status is None
            &&& q.error_message is None
            &&& q.response_time_ms is None
        },
        plan matches ProbePlan::Request { url, profile_url, method, payload } ==> {
            &&& url@ == resolved_probe_url(*site, username@)
            &&& profile_url@ == resolved_profile_url(*site, username@)
            &&& method == chosen_method(*site)
            &&& opt_str_view(payload) == planned_payload(*site)
        },
{
    if identifier_is_rejected(site, username) {
        return ProbePlan::Rejected(
            QueryResult::illegal(username, site_name, site.url_main.as_str()),
        );
    }
    let profile_url = replace_all(site.url.as_str(), "{}", username);
    let url = match &site.url_probe {
        Some(p) => replace_all(p.as_str(), "{}", username),
        None => profile_url.clone(),
    };
    let method = select_method(site);
    let payload = match method {
        RequestMethod::Post | RequestMethod::Put => match &site.request_payload {
            Some(p) => Some(p.clone()),
            None => None,
        },
        _ => None,
    };
    ProbePlan::Request { url, profile_url, method, payload }
}

/// Classifies one probe outcome into a result record. A response is read
/// under the site's detection rule; a transport fault becomes an `Error`
/// carrying the fault description. The elapsed time is recorded either
/// way.
pub fn interpret_response(
    username: &str,
    site_name: &str,
    site: &SiteInfo,
    profile_url: &str,
    outcome: Result<ProbeResponse, String>,
    elapsed_ms: u64,
) -> (r: QueryResult)
    ensures
        r.username@ == username@,
        r.site_name@ == site_name@,
        r.site_url@ == site.url_main@,
        r.profile_url@ == profile_url@,
        r.response_time_ms == Some(elapsed_ms),
        outcome matches Ok(resp) ==> {
            &&& r.status == (if response_claimed(*site, resp) {
                QueryStatus::Claimed
            } else {
                QueryStatus::Available
            })
            &&& r.http_status == Some(resp.status)
            &&& r.error_message is None
        },
        outcome matches Err(e) ==> {
            &&& r.status == QueryStatus::Error
            &&& r.http_status is None
            &&& r.error_message matches Some(m) && m@ == e@
        },
{
    match outcome {
        Ok(resp) => {
            let claimed = response_indicates_claimed(site, &resp);
            let mut q = if claimed {
                QueryResult::claimed(username, site_name, site.url_main.as_str(), profile_url)
            } else {
                QueryResult::available(username, site_name, site.url_main.as_str(), profile_url)
            };
            q.http_status = Some(resp.status);
            q.response_time_ms = Some(elapsed_ms);
            q
        },
        Err(e) => {
            let mut q = QueryResult::error(
                username,
                site_name,
                site.url_main.as_str(),
                profile_url,
                e.as_str(),
            );
            q.response_time_ms = Some(elapsed_ms);
            q
        },
    }
}

/// The probe interface the engine drives: one request per call, yielding
/// the final status, the final URL and the body text, or a transport
/// fault. The run's network client implements it outside the library;
/// tests implement it with fakes.
pub trait HttpProbe {
    fn get(&mut self, url: &str) -> Result<ProbeResponse, String>;

    fn head(&mut self, url: &str) -> Result<ProbeResponse, String>;

    fn post(&mut self, url: &str, body: Option<&str>) -> Result<ProbeResponse, String>;

    fn put(&mut self, url: &str, body: Option<&str>) -> Result<ProbeResponse, String>;
}

/// Relies on std::time::SystemTime::now and duration_since: milliseconds
/// since the Unix epoch, as u64. The value depends on the machine's
/// clock; nothing is promised of it.
#[verifier::external_body]
pub(crate) fn now_millis() -> u64 {
    match std::time::SystemTime::now().duration_since(std::time::UNIX_EPOCH) {
        Ok(d) => d.as_millis() as u64,
        Err(_) => 0,
    }
}

/// What `check_site` guarantees of its result, for any probe outcome:
/// identity fields are filled in; the status is `Illegal` exactly when
/// validation rejects the identifier; otherwise the probe URL was
/// resolved, the exchange was timed, and the status is `Claimed`,
/// `Available` or `Error`, with the error text and HTTP status filled in
/// accordingly.
pub open spec fn site_checked(
    r: QueryResult,
    username: Seq<char>,
    site_name: Seq<char>,
    site: SiteInfo,
) -> bool {
    &&& r.username@ == username
    &&& r.site_name@ == site_name
    &&& r.site_url@ == site.url_main@
    &&& (r.status == QueryStatus::Illegal <==> identifier_rejected(site, username))
    &&& (identifier_rejected(site, username) ==> {
        &&& r.profile_url@ == Seq::<char>::empty()
        &&& r.http_status is None
        &&& r.error_message is None
        &&& r.response_time_ms is None
    })
    &&& (!identifier_rejected(site, username) ==> {
        &&& r.profile_url@ == resolved_profile_url(site, username)
        &&& (r.status == QueryStatus::Claimed || r.status == QueryStatus::Available || r.status
            == QueryStatus::Error)
        &&& r.response_time_ms is Some
        &&& (r.status == QueryStatus::Error ==> r.http_status is None && r.error_message is Some)
        &&& (r.status != QueryStatus::Error ==> r.http_status is Some && r.error_message is None)
    })
}

/// Whether the pre-dispatch filter keeps the entry: adult-content sites
/// are dropped unless the run includes them.
pub open spec fn site_eligible(e: (String, SiteInfo), include_nsfw: bool) -> bool {
    include_nsfw || e.1.is_nsfw != Some(true)
}

/// The catalog entries the run probes, in catalog order.
pub open spec fn eligible_entries(s: Seq<(String, SiteInfo)>, include_nsfw: bool) -> Seq<
    (String, SiteInfo),
> {
    s.filter(|e: (String, SiteInfo)| site_eligible(e, include_nsfw))
}

/// Progress events the engine reports while a batch runs.
#[derive(Debug, Clone)]
pub enum ProgressUpdate {
    Started { total: usize },
    SiteChecked { site: String, url: String, found: bool },
    Completed,
}

/// The run's configuration: constructed once, read-only for every task.
#[derive(Debug, Clone)]
pub struct SearchEngine {
    pub timeout: u64,
    pub max_concurrent: usize,
    pub include_nsfw: bool,
    pub proxy: Option<String>,
    pub use_tor: bool,
}

impl SearchEngine {
    /// A fresh engine configuration; the concurrency ceiling must already
    /// have been checked against its allowed range.
    pub fn new(timeout: u64, max_concurrent: usize, include_nsfw: bool) -> (r: Self)
        requires
            1 <= max_concurrent <= 100,
        ensures
            r.timeout == timeout,
            r.max_concurrent == max_concurrent,
            r.include_nsfw == include_nsfw,
            r.proxy is None,
            !r.use_tor,
    {
        SearchEngine { timeout, max_concurrent, include_nsfw, proxy: None, use_tor: false }
    }

    /// Routes probes through the given proxy.
    pub fn with_proxy(self, proxy: String) -> (r: Self)
        ensures
            r.proxy matches Some(p) && p@ == proxy@,
            r.timeout == self.timeout,
            r.max_concurrent == self.max_concurrent,
            r.include_nsfw == self.include_nsfw,
            r.use_tor == self.use_tor,
    {
        SearchEngine { proxy: Some(proxy), ..self }
    }

    /// Routes probes through the local Tor proxy.
    pub fn with_tor(self) -> (r: Self)
        ensures
            r.use_tor,
            r.proxy matches Some(p) && p@ == "socks5://127.0.0.1:9050"@,
            r.timeout == self.timeout,
            r.max_concurrent == self.max_concurrent,
            r.include_nsfw == self.include_nsfw,
    {
        let p = "socks5://127.0.0.1:9050";
        SearchEngine { use_tor: true, proxy: Some(p.to_owned()), ..self }
    }

    /// Whether probes go through Tor.
    pub fn is_using_tor(&self) -> (r: bool)
        ensures
            r == self.use_tor,
    {
        self.use_tor
    }

    /// Checks one identifier against one site: validation, URL
    /// resolution, the probe exchange through `probe`, and the
    /// interpretation of its outcome under the site's detection rule.
    /// When validation rejects the identifier, no probe is issued.
    pub fn check_site<P: HttpProbe>(
        &self,
        probe: &mut P,
        username: &str,
        site_name: &str,
        site: &SiteInfo,
    ) -> (r: QueryResult)
        ensures
            site_checked(r, username@, site_name@, *site),
    {
        match prepare_probe(username, site_name, site) {
            ProbePlan::Rejected(q) => q,
            ProbePlan::Request { url, profile_url, method, payload } => {
                let start = now_millis();
                let body = match &payload {
                    Some(p) => Some(p.as_str()),
                    None => None,
                };
                let outcome = match method {
                    RequestMethod::Get => probe.get(url.as_str()),
                    RequestMethod::Head => probe.head(url.as_str()),
                    RequestMethod::Post => probe.post(url.as_str(), body),
                    RequestMethod::Put => probe.put(url.as_str(), body),
                };
                let end = now_millis();
                let elapsed = if end >= start {
                    end - start
                } else {
                    0
                };
                interpret_response(
                    username,
                    site_name,
                    site,
                    profile_url.as_str(),
                    outcome,
                    elapsed,
                )
            },
        }
    }

    /// Checks the identifier against every eligible catalog entry, one
    /// task per site under the concurrency gate, and collects one result
    /// per eligible site. A permit is held only for the probe exchange
    /// itself and is released before the result is recorded.
    pub fn search_username<P: HttpProbe>(
        &self,
        probe: &mut P,
        username: &str,
        sites: &SitesData,
    ) -> (results: Vec<QueryResult>)
        requires
            1 <= self.max_concurrent <= 100,
        ensures
            results@.len() == eligible_entries(sites.sites@, self.include_nsfw).len(),
            forall|k: int|
                0 <= k < results@.len() ==> {
                    let e = eligible_entries(sites.sites@, self.include_nsfw)[k];
                    site_checked(#[trigger] results@[k], username@, e.0@, e.1)
                },
    {
        broadcast use vstd::prelude::Seq::lemma_filter_push;

        let mut gate = match ConcurrencyGate::new(self.max_concurrent) {
            Some(g) => g,
            None => {
                proof {
                    assert(false);
                }
                ConcurrencyGate { limit: 1, in_flight: 0 }
            },
        };
        let mut results: Vec<QueryResult> = Vec::new();
        let n = sites.len();
        let mut i: usize = 0;
        proof {
            assert(sites.sites@.subrange(0, 0) =~= Seq::<(String, SiteInfo)>::empty());
            reveal_with_fuel(Seq::filter, 1);
            assert(eligible_entries(sites.sites@.subrange(0, 0), self.include_nsfw).len() == 0);
        }
        while i < n
            invariant
                n == sites.sites@.len(),
                i <= n,
                gate.inv(),
                gate.in_flight == 0,
                gate.limit == self.max_concurrent,
                results@.len() == eligible_entries(
                    sites.sites@.subrange(0, i as int),
                    self.include_nsfw,
                ).len(),
                forall|k: int|
                    0 <= k < results@.len() ==> {
                        let e = eligible_entries(
                            sites.sites@.subrange(0, i as int),
                            self.include_nsfw,
                        )[k];
                        site_checked(#[trigger] results@[k], username@, e.0@, e.1)
                    },
            decreases n - i,
        {
            let ghost prefix = sites.sites@.subrange(0, i as int);
            let ghost entry_v = sites.sites@[i as int];
            proof {
                assert(sites.sites@.subrange(0, i + 1) =~= prefix.push(entry_v));
            }
            let entry = &sites.sites[i];
            let keep = match entry.1.is_nsfw {
                Some(b) => self.include_nsfw || !b,
                None => true,
            };
            if keep {
                let acquired = gate.try_acquire();
                proof {
                    assert(acquired);
                }
                let r = self.check_site(probe, username, entry.0.as_str(), &entry.1);
                gate.release();
                results.push(r);
            }
            proof {
                broadcast use vstd::prelude::Seq::lemma_filter_push;

                assert(keep == site_eligible(entry_v, self.include_nsfw));
                assert(eligible_entries(prefix.push(entry_v), self.include_nsfw) == (
                if site_eligible(entry_v, self.include_nsfw) {
                    eligible_entries(prefix, self.include_nsfw).push(entry_v)
                } else {
                    eligible_entries(prefix, self.include_nsfw)
                }));
            }
            i = i + 1;
        }
        proof {
            assert(sites.sites@.subrange(0, n as int) =~= sites.sites@);
        }
        results
    }
}

} // verus!

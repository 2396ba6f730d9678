use watson::data::{ErrorType, SiteInfo};
use watson::engine::{prepare_probe, select_method, ProbePlan, RequestMethod};

fn site_with(method: Option<&str>, strategy: ErrorType) -> SiteInfo {
    SiteInfo {
        url: "https://example.com/{}".to_string(),
        url_main: "https://example.com".to_string(),
        error_type: strategy,
        error_msg: None,
        error_url: None,
        regex_check: None,
        username_claimed: None,
        request_method: method.map(|m| m.to_string()),
        request_payload: None,
        url_probe: None,
        headers: None,
        is_nsfw: None,
    }
}

#[test]
fn method_selection_follows_the_declared_rule() {
    assert_eq!(
        select_method(&site_with(None, ErrorType::StatusCode)),
        RequestMethod::Head
    );
    assert_eq!(select_method(&site_with(None, ErrorType::Message)), RequestMethod::Get);
    assert_eq!(
        select_method(&site_with(Some("POST"), ErrorType::Message)),
        RequestMethod::Post
    );
    assert_eq!(
        select_method(&site_with(Some("PUT"), ErrorType::StatusCode)),
        RequestMethod::Put
    );
    assert_eq!(
        select_method(&site_with(Some("HEAD"), ErrorType::StatusCode)),
        RequestMethod::Head
    );
    assert_eq!(
        select_method(&site_with(Some("HEAD"), ErrorType::Redirect)),
        RequestMethod::Get
    );
    assert_eq!(
        select_method(&site_with(Some("DELETE"), ErrorType::StatusCode)),
        RequestMethod::Get
    );
}

#[test]
fn plan_resolves_both_urls_and_payload() {
    let mut site = site_with(Some("POST"), ErrorType::Message);
    site.url_probe = Some("https://api.example.com/check?user={}".to_string());
    site.request_payload = Some("{\"name\": \"{}\"}".to_string());
    match prepare_probe("alice", "ApiSite", &site) {
        ProbePlan::Request { url, profile_url, method, payload } => {
            assert_eq!(url, "https://api.example.com/check?user=alice");
            assert_eq!(profile_url, "https://example.com/alice");
            assert_eq!(method, RequestMethod::Post);
            assert_eq!(payload.as_deref(), Some("{\"name\": \"{}\"}"));
        }
        ProbePlan::Rejected(_) => panic!("the identifier passes validation"),
    }
}

#[test]
fn plan_omits_payload_for_get_and_head() {
    let mut site = site_with(None, ErrorType::StatusCode);
    site.request_payload = Some("{\"ignored\": true}".to_string());
    match prepare_probe("alice", "PlainSite", &site) {
        ProbePlan::Request { method, payload, .. } => {
            assert_eq!(method, RequestMethod::Head);
            assert_eq!(payload, None);
        }
        ProbePlan::Rejected(_) => panic!("the identifier passes validation"),
    }
}

#[test]
fn plan_rejects_on_pattern_mismatch() {
    let mut site = site_with(None, ErrorType::StatusCode);
    site.regex_check = Some("^[a-z_]+$".to_string());
    match prepare_probe("Al1ce", "RegexSite", &site) {
        ProbePlan::Rejected(r) => {
            assert_eq!(r.username, "Al1ce");
            assert_eq!(r.site_name, "RegexSite");
            assert_eq!(r.site_url, "https://example.com");
        }
        ProbePlan::Request { .. } => panic!("the identifier fails the pattern"),
    }
    match prepare_probe("alice", "RegexSite", &site) {
        ProbePlan::Request { .. } => {}
        ProbePlan::Rejected(_) => panic!("the identifier matches the pattern"),
    }
}

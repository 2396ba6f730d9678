use watson::cli::{Cli, CliError, OutputFormat};
use watson::email::{check_email_service, get_email_services, EmailErrorType, EmailService};
use watson::engine::{HttpProbe, ProbeResponse, ProgressUpdate, QueryStatus};
use watson::scrape::extract_emails;
use watson::text::{contains_substring, replace_all, str_eq, u64_to_dec};
use watson::tui::{format_time, TUIState};
use watson::ua::UserAgentRotator;
use watson::variations::generate_variations;

fn base_cli() -> Cli {
    Cli {
        username: Some("alice".to_string()),
        file: None,
        variations: false,
        scrape_emails: false,
        rotate_ua: false,
        rate_limit: None,
        email: None,
        output: None,
        format: OutputFormat::Text,
        proxy: None,
        tor: false,
        timeout: 15,
        max_concurrent: 50,
        nsfw: false,
        print_all: false,
        print_found: false,
        local: false,
        site: None,
        verbose: false,
        list_sites: false,
    }
}

#[test]
fn cli_accepts_sound_parameters() {
    assert_eq!(base_cli().validate(), Ok(()));
}

#[test]
fn cli_rejects_each_bad_parameter() {
    let mut c = base_cli();
    c.timeout = 0;
    assert_eq!(c.validate(), Err(CliError::TimeoutOutOfRange));
    let mut c = base_cli();
    c.timeout = 301;
    assert_eq!(c.validate(), Err(CliError::TimeoutOutOfRange));
    let mut c = base_cli();
    c.max_concurrent = 0;
    assert_eq!(c.validate(), Err(CliError::ConcurrencyOutOfRange));
    let mut c = base_cli();
    c.max_concurrent = 101;
    assert_eq!(c.validate(), Err(CliError::ConcurrencyOutOfRange));
    let mut c = base_cli();
    c.tor = true;
    c.proxy = Some("socks5://127.0.0.1:1080".to_string());
    assert_eq!(c.validate(), Err(CliError::TorWithProxy));
    let mut c = base_cli();
    c.email = Some("alice@example.com".to_string());
    assert_eq!(c.validate(), Err(CliError::ConflictingTargets));
    let mut c = base_cli();
    c.username = None;
    assert_eq!(c.validate(), Err(CliError::MissingTarget));
    let mut c = base_cli();
    c.username = Some("".to_string());
    assert_eq!(c.validate(), Err(CliError::UsernameLength));
    let mut c = base_cli();
    c.username = Some("x".repeat(51));
    assert_eq!(c.validate(), Err(CliError::UsernameLength));
    let mut c = base_cli();
    c.username = None;
    c.email = Some("not-an-address".to_string());
    assert_eq!(c.validate(), Err(CliError::EmailFormat));
    let mut c = base_cli();
    c.username = None;
    c.email = Some("alice@example.com".to_string());
    assert_eq!(c.validate(), Ok(()));
}

#[test]
fn format_labels() {
    assert_eq!(OutputFormat::Text.label(), "text");
    assert_eq!(OutputFormat::Json.label(), "json");
    assert_eq!(OutputFormat::Csv.label(), "csv");
    assert_eq!(OutputFormat::Html.label(), "html");
}

#[test]
fn decimal_rendering_exact_values() {
    assert_eq!(u64_to_dec(0), "0");
    assert_eq!(u64_to_dec(7), "7");
    assert_eq!(u64_to_dec(10), "10");
    assert_eq!(u64_to_dec(12345), "12345");
    assert_eq!(u64_to_dec(u64::MAX), "18446744073709551615");
}

#[test]
fn time_formatting_exact_values() {
    assert_eq!(format_time(0), "0s");
    assert_eq!(format_time(59), "59s");
    assert_eq!(format_time(60), "1m 0s");
    assert_eq!(format_time(125), "2m 5s");
}

#[test]
fn substring_and_replacement_basics() {
    assert!(contains_substring("Page not found", "not found"));
    assert!(!contains_substring("Alice's profile", "not found"));
    assert!(contains_substring("abc", ""));
    assert!(str_eq("same", "same"));
    assert!(!str_eq("same", "other"));
    assert_eq!(replace_all("https://x/{}", "{}", "alice"), "https://x/alice");
    assert_eq!(replace_all("a{}b{}c", "{}", "-"), "a-b-c");
    assert_eq!(replace_all("none here", "{}", "alice"), "none here");
}

#[test]
fn variations_contain_case_folds_and_no_duplicates() {
    let vs = generate_variations("Alice");
    assert!(vs.iter().any(|v| v == "alice"));
    assert!(vs.iter().any(|v| v == "ALICE"));
    assert!(vs.iter().any(|v| v == "_Alice"));
    assert!(vs.iter().any(|v| v == "Alice123"));
    assert!(vs.iter().any(|v| v == "the_Alice"));
    for i in 0..vs.len() {
        for j in (i + 1)..vs.len() {
            assert_ne!(vs[i], vs[j]);
        }
    }
}

#[test]
fn variations_swap_separators() {
    let vs = generate_variations("a_b");
    assert!(vs.iter().any(|v| v == "a.b"));
    let vs2 = generate_variations("a-b");
    assert!(vs2.iter().any(|v| v == "a.b"));
    assert!(vs2.iter().any(|v| v == "a_b"));
}

#[test]
fn user_agent_table_and_draw() {
    let rotator = UserAgentRotator::new();
    let all = rotator.get_all();
    assert_eq!(all.len(), 20);
    for _ in 0..50 {
        let ua = rotator.get_random();
        assert!(all.iter().any(|a| *a == ua));
    }
    let defaulted = UserAgentRotator::default();
    assert_eq!(defaulted.get_all().len(), 20);
}

#[test]
fn email_extraction_lowercases_and_dedups() {
    let text = "Contact: Alice@Example.COM or alice@example.com; also Bob@Mail.org!";
    let emails = extract_emails(text);
    assert_eq!(emails, vec!["alice@example.com".to_string(), "bob@mail.org".to_string()]);
    assert!(extract_emails("no addresses here").is_empty());
}

struct OneShotProbe {
    status: u16,
    body: Option<String>,
}

impl HttpProbe for OneShotProbe {
    fn get(&mut self, url: &str) -> Result<ProbeResponse, String> {
        Ok(ProbeResponse {
            status: self.status,
            final_url: url.to_string(),
            body: self.body.clone(),
        })
    }
    fn head(&mut self, url: &str) -> Result<ProbeResponse, String> {
        self.get(url)
    }
    fn post(&mut self, url: &str, _body: Option<&str>) -> Result<ProbeResponse, String> {
        self.get(url)
    }
    fn put(&mut self, url: &str, _body: Option<&str>) -> Result<ProbeResponse, String> {
        self.get(url)
    }
}

#[test]
fn builtin_email_services_catalog() {
    let services = get_email_services();
    assert_eq!(services.len(), 3);
    assert_eq!(services[0].0, "Gravatar");
    assert_eq!(services[0].1.url, "https://en.gravatar.com/{}.json");
    assert_eq!(services[0].1.error_msg.as_deref(), Some("User not found"));
    assert_eq!(services[1].0, "DuckDuckGo");
    assert_eq!(services[2].0, "HaveIBeenPwned");
    assert_eq!(services[2].1.url_main, "https://haveibeenpwned.com");
}

#[test]
fn email_service_message_rule() {
    let service = EmailService {
        url: "https://en.gravatar.com/{}.json".to_string(),
        url_main: "https://gravatar.com".to_string(),
        error_type: EmailErrorType::Message,
        error_msg: Some("User not found".to_string()),
        request_method: None,
    };
    let mut hit = OneShotProbe { status: 200, body: Some("{\"entry\": []}".to_string()) };
    let r = check_email_service(&mut hit, "alice@example.com", "Gravatar", &service);
    assert_eq!(r.status, QueryStatus::Claimed);
    assert_eq!(r.profile_url, "https://en.gravatar.com/alice@example.com.json");
    let mut miss = OneShotProbe { status: 200, body: Some("User not found".to_string()) };
    let r2 = check_email_service(&mut miss, "alice@example.com", "Gravatar", &service);
    assert_eq!(r2.status, QueryStatus::Available);
}

#[test]
fn email_service_status_rule() {
    let service = EmailService {
        url: "https://haveibeenpwned.com/api/v3/breachedaccount/{}".to_string(),
        url_main: "https://haveibeenpwned.com".to_string(),
        error_type: EmailErrorType::StatusCode,
        error_msg: None,
        request_method: None,
    };
    let mut hit = OneShotProbe { status: 200, body: None };
    assert_eq!(
        check_email_service(&mut hit, "a@b.c", "HaveIBeenPwned", &service).status,
        QueryStatus::Claimed
    );
    let mut miss = OneShotProbe { status: 404, body: None };
    assert_eq!(
        check_email_service(&mut miss, "a@b.c", "HaveIBeenPwned", &service).status,
        QueryStatus::Available
    );
}

#[test]
fn tui_state_tracks_progress() {
    let mut state = TUIState::new(3);
    assert_eq!(state.total_sites, 3);
    assert!(state.is_running);
    state.handle_progress(ProgressUpdate::Started { total: 5 });
    assert_eq!(state.total_sites, 5);
    state.handle_progress(ProgressUpdate::SiteChecked {
        site: "A".to_string(),
        url: "https://a/alice".to_string(),
        found: true,
    });
    state.handle_progress(ProgressUpdate::SiteChecked {
        site: "B".to_string(),
        url: "https://b/alice".to_string(),
        found: false,
    });
    assert_eq!(state.completed, 2);
    assert_eq!(state.found_results, 1);
    assert_eq!(state.results, vec![("A".to_string(), "https://a/alice".to_string())]);
    assert_eq!(state.current_site, "B");
    state.handle_progress(ProgressUpdate::Completed);
    assert!(!state.is_running);
    let mut s2 = TUIState::new(1);
    s2.stop();
    assert!(!s2.is_running);
}

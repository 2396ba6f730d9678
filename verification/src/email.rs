//! The built-in email-lookup services and their detection rules: a small
//! catalog of services checked when the identifier is an email address.

use crate::engine::HttpProbe;
use crate::engine::ProbeResponse;
use crate::engine::QueryResult;
use crate::engine::QueryStatus;
use crate::engine::now_millis;
use crate::engine::url_placeholder;
use crate::text::has_substring;
use crate::text::contains_substring;
use crate::text::replace_all;
use crate::text::replace_chars;
use vstd::prelude::*;

verus! {

/// How an email service signals that an address is not registered.
#[derive(Debug, Clone, Copy, PartialEq, Eq, Structural)]
pub enum EmailErrorType {
    StatusCode,
    Message,
}

/// One email-lookup service: its probe URL template, home URL, detection
/// strategy and optional "not found" marker.
#[derive(Debug, Clone)]
pub struct EmailService {
    pub url: String,
    pub url_main: String,
    pub error_type: EmailErrorType,
    pub error_msg: Option<String>,
    pub request_method: Option<String>,
}

/// The service's detection rule, applied to one response: under
/// `StatusCode` the status alone decides; under `Message` the address
/// counts as claimed iff the marker does not occur in the body, with the
/// status deciding when there is no marker or no readable body.
pub open spec fn email_response_claimed(service: EmailService, resp: ProbeResponse) -> bool {
    match service.error_type {
        EmailErrorType::StatusCode => resp.status == 200,
        EmailErrorType::Message => match (resp.body, service.error_msg) {
            (Some(text), Some(m)) => !has_substring(text@, m@),
            _ => resp.status == 200,
        },
    }
}

/// Applies the service's detection rule to one response.
pub fn email_indicates_claimed(service: &EmailService, resp: &ProbeResponse) -> (r: bool)
    ensures
        r == email_response_claimed(*service, *resp),
{
    match service.error_type {
        EmailErrorType::StatusCode => resp.status == 200,
        EmailErrorType::Message => {
            match (&resp.body, &service.error_msg) {
                (Some(text), Some(m)) => !contains_substring(text.as_str(), m.as_str()),
                _ => resp.status == 200,
            }
        },
    }
}

/// Checks one email address against one service: URL resolution, a `GET`
/// probe through `probe`, and the interpretation of its outcome. The
/// probe URL doubles as the reported profile URL.
pub fn check_email_service<P: HttpProbe>(
    probe: &mut P,
    email: &str,
    service_name: &str,
    service: &EmailService,
) -> (r: QueryResult)
    ensures
        r.username@ == email@,
        r.site_name@ == service_name@,
        r.site_url@ == service.url_main@,
        r.profile_url@ == replace_chars(service.url@, url_placeholder(), email@),
        r.response_time_ms is Some,
        r.status == QueryStatus::Claimed || r.status == QueryStatus::Available || r.status
            == QueryStatus::Error,
        r.status == QueryStatus::Error ==> r.http_status is None && r.error_message is Some,
        r.status != QueryStatus::Error ==> r.http_status is Some && r.error_message is None,
{
    let url = replace_all(service.url.as_str(), "{}", email);
    let start = now_millis();
    let outcome = probe.get(url.as_str());
    let end = now_millis();
    let elapsed = if end >= start {
        end - start
    } else {
        0
    };
    match outcome {
        Ok(resp) => {
            let claimed = email_indicates_claimed(service, &resp);
            let mut q = if claimed {
                QueryResult::claimed(email, service_name, service.url_main.as_str(), url.as_str())
            } else {
                QueryResult::available(
                    email,
                    service_name,
                    service.url_main.as_str(),
                    url.as_str(),
                )
            };
            q.http_status = Some(resp.status);
            q.response_time_ms = Some(elapsed);
            q
        },
        Err(e) => {
            let mut q = QueryResult::error(
                email,
                service_name,
                service.url_main.as_str(),
                url.as_str(),
                e.as_str(),
            );
            q.response_time_ms = Some(elapsed);
            q
        },
    }
}

/// The built-in email services, in a fixed order.
pub fn get_email_services() -> (r: Vec<(String, EmailService)>)
    ensures
        r@.len() == 3,
        r@[0].0@ == "Gravatar"@,
        r@[0].1.url@ == "https://en.gravatar.com/{}.json"@,
        r@[0].1.url_main@ == "https://gravatar.com"@,
        r@[0].1.error_type == EmailErrorType::Message,
        r@[0].1.error_msg matches Some(m) && m@ == "User not found"@,
        r@[0].1.request_method is None,
        r@[1].0@ == "DuckDuckGo"@,
        r@[1].1.url@ == "https://duckduckgo.com/?q={}&format=json"@,
        r@[1].1.url_main@ == "https://duckduckgo.com"@,
        r@[1].1.error_type == EmailErrorType::StatusCode,
        r@[1].1.error_msg is None,
        r@[1].1.request_method is None,
        r@[2].0@ == "HaveIBeenPwned"@,
        r@[2].1.url@ == "https://haveibeenpwned.com/api/v3/breachedaccount/{}"@,
        r@[2].1.url_main@ == "https://haveibeenpwned.com"@,
        r@[2].1.error_type == EmailErrorType::StatusCode,
        r@[2].1.error_msg is None,
        r@[2].1.request_method is None,
{
    let mut services: Vec<(String, EmailService)> = Vec::new();
    services.push(
        (
            "Gravatar".to_owned(),
            EmailService {
                url: "https://en.gravatar.com/{}.json".to_owned(),
                url_main: "https://gravatar.com".to_owned(),
                error_type: EmailErrorType::Message,
                error_msg: Some("User not found".to_owned()),
                request_method: None,
            },
        ),
    );
    services.push(
        (
            "DuckDuckGo".to_owned(),
            EmailService {
                url: "https://duckduckgo.com/?q={}&format=json".to_owned(),
                url_main: "https://duckduckgo.com".to_owned(),
                error_type: EmailErrorType::StatusCode,
                error_msg: None,
                request_method: None,
            },
        ),
    );
    services.push(
        (
            "HaveIBeenPwned".to_owned(),
            EmailService {
                url: "https://haveibeenpwned.com/api/v3/breachedaccount/{}".to_owned(),
                url_main: "https://haveibeenpwned.com".to_owned(),
                error_type: EmailErrorType::StatusCode,
                error_msg: None,
                request_method: None,
            },
        ),
    );
    services
}

} // verus!

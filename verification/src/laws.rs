//! The detection rules and aggregation guarantees, stated once as
//! theorems over the engine's specifications.

use crate::data::ErrorMessages;
use crate::data::ErrorType;
use crate::data::SiteInfo;
use crate::engine::ProbeResponse;
use crate::engine::QueryResult;
use crate::engine::QueryStatus;
use crate::engine::marker_count;
use crate::engine::marker_signals;
use crate::engine::response_claimed;
use crate::output::count_status;
use vstd::prelude::*;

verus! {

/// Under the `Message` strategy with at least one marker configured and a
/// readable body, the body alone decides: a body containing some marker
/// means the identifier is available, a body containing none means it is
/// claimed, whatever the status code.
pub proof fn lemma_message_strategy(
    site: SiteInfo,
    resp: ProbeResponse,
    m: ErrorMessages,
    text: String,
)
    requires
        site.error_type == ErrorType::Message,
        site.error_msg == Some(m),
        resp.body == Some(text),
        marker_count(m) > 0,
    ensures
        response_claimed(site, resp) <==> !marker_signals(m, text@),
{
}

/// Under the `Message` strategy with no marker configured, or no readable
/// body, the status alone decides: claimed iff 200.
pub proof fn lemma_message_fallback(site: SiteInfo, resp: ProbeResponse)
    requires
        site.error_type == ErrorType::Message,
        resp.body is None || site.error_msg is None || (site.error_msg matches Some(m)
            && marker_count(m) == 0),
    ensures
        response_claimed(site, resp) <==> resp.status == 200,
{
}

/// Under the `StatusCode` strategy the status alone decides: claimed iff
/// 200, irrespective of body content or final URL.
pub proof fn lemma_status_code_strategy(site: SiteInfo, resp: ProbeResponse)
    requires
        site.error_type == ErrorType::StatusCode,
    ensures
        response_claimed(site, resp) <==> resp.status == 200,
{
}

/// A batch whose results are all faults is counted in full: when every
/// collected result carries the `Error` status, the derived error count
/// equals the batch size, and nothing is counted claimed or available.
pub proof fn lemma_all_errors_counted(results: Seq<QueryResult>)
    requires
        forall|i: int| 0 <= i < results.len() ==> results[i].status == QueryStatus::Error,
    ensures
        count_status(results, QueryStatus::Error) == results.len(),
        count_status(results, QueryStatus::Claimed) == 0,
        count_status(results, QueryStatus::Available) == 0,
    decreases results.len(),
{
    reveal(Seq::filter);
    if results.len() > 0 {
        lemma_all_errors_counted(results.drop_last());
    }
}

} // verus!

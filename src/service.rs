use vstd::prelude::*;

use crate::classifier::{classify, is_classification_of, ClassificationResult};
use crate::counter::{next_count, saturating_next, SharedCounter};

verus! {

/// The liveness answer.
#[derive(Clone, Copy, Debug, PartialEq, Eq, Structural)]
pub struct HealthResponse {
    pub ok: bool,
}

/// The number of requests handled so far.
#[derive(Clone, Copy, Debug, PartialEq, Eq, Structural)]
pub struct StatsResponse {
    pub requests_total: u64,
}

/// Counts the request and classifies its text.
pub fn on_classify_request(counter: &SharedCounter, raw_text: &str) -> (r: ClassificationResult)
    ensures
        is_classification_of(raw_text@, r),
{
    counter.increment();
    classify(raw_text)
}

/// Counts the request and answers that the service is alive.
pub fn on_health_request(counter: &SharedCounter) -> (r: HealthResponse)
    ensures
        r.ok,
{
    counter.increment();
    HealthResponse { ok: true }
}

/// The statistics reported by a request whose own increment found the count `prev`:
/// the count with that request included.
pub fn stats_after(prev: u64) -> (r: StatsResponse)
    ensures
        r.requests_total == next_count(prev),
{
    StatsResponse { requests_total: saturating_next(prev) }
}

/// Counts the request, then reports the count with this request included. Whatever
/// other handlers do meanwhile, the count reported is at least one.
pub fn on_stats_request(counter: &SharedCounter) -> (r: StatsResponse)
    ensures
        r.requests_total >= 1,
{
    let prev = counter.increment();
    stats_after(prev)
}

} // verus!

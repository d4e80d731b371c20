//! The liveness decision: a cached "generation succeeded recently" flag
//! amortizes a synthetic generation probe.

use vstd::prelude::*;

verus! {

/// What a health check does next.
#[derive(Clone, Copy, Debug)]
pub enum HealthAction {
    /// A generation succeeded in the window: report healthy without
    /// probing.
    AssumeHealthy,
    /// Run a synthetic one-entry prefill probe and report its outcome.
    Probe,
}

/// Decides a health check from the shared recent-success flag, and returns
/// the flag's next value: the flag is cleared when it is consumed.
pub fn health_plan(recent_success: bool) -> (r: (HealthAction, bool))
    ensures
        recent_success ==> r.0 is AssumeHealthy,
        !recent_success ==> r.0 is Probe,
        r.1 == false,
{
    if recent_success {
        (HealthAction::AssumeHealthy, false)
    } else {
        (HealthAction::Probe, false)
    }
}

/// The synthetic request a health probe sends: a sentinel id outside the
/// monotonic request-id space, a short fixed input, and a single token to
/// generate. The resulting batch is cleared from the shards' cache right
/// after the probe.
#[derive(Clone, Debug)]
pub struct ProbeRequest {
    pub request_id: u64,
    pub batch_id: u64,
    pub inputs: String,
    pub max_new_tokens: u32,
}

/// Builds the synthetic probe request.
pub fn probe_request() -> (p: ProbeRequest)
    ensures
        p.request_id == u64::MAX,
        p.batch_id == u64::MAX,
        p.inputs@ == "liveness"@,
        p.max_new_tokens == 1,
{
    ProbeRequest {
        request_id: u64::MAX,
        batch_id: u64::MAX,
        inputs: "liveness".to_owned(),
        max_new_tokens: 1,
    }
}

} // verus!

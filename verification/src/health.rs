//! Liveness of the worker's service, derived from a single network probe.
//!
//! The shell issues one HTTP GET against a fixed loopback endpoint with a
//! fixed timeout and collapses every outcome to a single boolean: healthy
//! exactly when a response arrived in time with a success status. Every
//! failure mode — connection refused, timeout elapsed, non-success status —
//! is reported as unhealthy, never as an error.

use vstd::prelude::*;

verus! {

/// Seconds the probe waits for a response before giving up.
pub const HEALTH_TIMEOUT_SECS: u64 = 2;

/// The fixed loopback endpoint the probe addresses.
pub fn health_endpoint() -> (r: &'static str)
    ensures
        r@ == "http://localhost:8000/health"@,
{
    "http://localhost:8000/health"
}

/// Outcome of one probe, as seen at the transport level.
#[derive(Clone, Copy, Debug, PartialEq, Eq, Structural)]
pub enum ProbeOutcome {
    /// A response arrived within the timeout, carrying this HTTP status code.
    Response { status: u16 },
    /// No response arrived: the connection was refused, the timeout elapsed,
    /// or the transport failed in some other way.
    NoResponse,
}

/// An HTTP status code that counts as success.
pub open spec fn spec_is_success_status(status: u16) -> bool {
    200 <= status < 300
}

/// A probe reports healthy exactly when a response arrived with a success
/// status.
pub open spec fn spec_healthy(outcome: ProbeOutcome) -> bool {
    match outcome {
        ProbeOutcome::Response { status } => spec_is_success_status(status),
        ProbeOutcome::NoResponse => false,
    }
}

/// Collapse a probe's outcome to the health boolean the UI layer sees.
pub fn healthy_from_probe(outcome: &ProbeOutcome) -> (r: bool)
    ensures
        r == spec_healthy(*outcome),
{
    match outcome {
        ProbeOutcome::Response { status } => 200 <= *status && *status < 300,
        ProbeOutcome::NoResponse => false,
    }
}

/// The probe is healthy only for an in-time response with a success status;
/// in particular every failed probe — no response of any kind, or a response
/// outside the success range — reads as unhealthy, never as an error.
pub proof fn lemma_healthy_iff_success(outcome: ProbeOutcome)
    ensures
        spec_healthy(outcome) <==> (outcome matches ProbeOutcome::Response { status }
            && spec_is_success_status(status)),
        outcome is NoResponse ==> !spec_healthy(outcome),
{
}

} // verus!

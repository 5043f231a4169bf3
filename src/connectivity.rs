use vstd::prelude::*;

verus! {

/// The endpoint the connectivity probe sends one HTTPS GET to.
pub const PROBE_URL: &'static str = "https://httpbin.org/status/200";

/// How the single probe request ended.
#[derive(Debug, Clone, Copy, PartialEq, Eq, Structural)]
pub enum ProbeOutcome {
    /// No response arrived: a transport error or a timeout.
    Unreachable,
    /// A response arrived with this HTTP status code.
    Responded(u16),
}

/// The success class of HTTP status codes, 200 through 299.
pub open spec fn is_success_status(code: u16) -> bool {
    200 <= code && code < 300
}

/// True when the probe ended in a response with a success status.
pub open spec fn probe_succeeded(outcome: ProbeOutcome) -> bool {
    match outcome {
        ProbeOutcome::Unreachable => false,
        ProbeOutcome::Responded(code) => is_success_status(code),
    }
}

/// Whether the machine counts as online, given how the probe ended.
///
/// Online only on a success status; a transport failure and any other
/// status both read as offline, with no distinction between them.
pub fn is_online(outcome: ProbeOutcome) -> (r: bool)
    ensures
        r == probe_succeeded(outcome),
        outcome == ProbeOutcome::Unreachable ==> !r,
        outcome == ProbeOutcome::Responded(200) ==> r,
{
    match outcome {
        ProbeOutcome::Unreachable => false,
        ProbeOutcome::Responded(code) => 200 <= code && code < 300,
    }
}

} // verus!

//! Decision logic of the connectivity poller: how one probe's HTTP status is
//! classified and how many probes a time budget allows. Issuing the probe and
//! sleeping between probes is I/O and stays with the caller.

use vstd::prelude::*;

verus! {

/// Total time budget of the connectivity polling loop, in milliseconds.
pub const CONNECTIVITY_TIMEOUT_MS: u64 = 5000;

/// Pause between two connectivity probes, in milliseconds.
pub const CONNECTIVITY_POLL_MS: u64 = 500;

/// The HTTP status that signals unrestricted internet access.
pub const CONNECTED_STATUS: u16 = 204;

/// The outcome of one connectivity probe: the well-known endpoint answered
/// with the no-content status, answered with any other status, or the request
/// failed in transport.
#[derive(Clone, Copy, PartialEq, Eq, Structural, Debug)]
pub enum ProbeOutcome {
    Connected,
    NotConnected,
    ProbeError,
}

/// Classification of a probe's result: `status` is the HTTP status received,
/// or `None` when the request itself failed.
pub open spec fn spec_classify_probe(status: Option<u16>) -> ProbeOutcome {
    match status {
        Some(s) => if s == CONNECTED_STATUS {
            ProbeOutcome::Connected
        } else {
            ProbeOutcome::NotConnected
        },
        None => ProbeOutcome::ProbeError,
    }
}

/// Classifies one probe's result. Exactly a no-content status counts as
/// connected; any other status, and any transport failure, does not.
pub fn classify_probe(status: Option<u16>) -> (r: ProbeOutcome)
    ensures
        r == spec_classify_probe(status),
{
    match status {
        Some(s) => if s == CONNECTED_STATUS {
            ProbeOutcome::Connected
        } else {
            ProbeOutcome::NotConnected
        },
        None => ProbeOutcome::ProbeError,
    }
}

/// Whether a probe outcome ends the polling loop with success.
pub fn probe_is_connected(outcome: &ProbeOutcome) -> (r: bool)
    ensures
        r == (*outcome is Connected),
{
    match outcome {
        ProbeOutcome::Connected => true,
        ProbeOutcome::NotConnected => false,
        ProbeOutcome::ProbeError => false,
    }
}

/// The number of probes a time budget allows: one per poll interval.
pub fn max_probe_count(budget_ms: u64, interval_ms: u64) -> (r: u64)
    requires
        interval_ms > 0,
    ensures
        r == budget_ms / interval_ms,
{
    budget_ms / interval_ms
}

/// The well-known connectivity-check endpoint probed by the poller.
pub fn connectivity_check_url() -> (r: &'static str)
    ensures
        r@ == "http://connectivitycheck.gstatic.com/generate_204"@,
{
    "http://connectivitycheck.gstatic.com/generate_204"
}

} // verus!

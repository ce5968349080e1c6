//! Classification of a single probe's outcome.

use vstd::prelude::*;

verus! {

/// What one probe against the target came to.
///
/// Every outcome is plain data: a failed probe is counted by the worker loop
/// and never aborts a run.
#[derive(Clone, Copy, Debug, PartialEq, Eq, Structural)]
pub enum ProbeOutcome {
    /// A response arrived and its status lay in the success range.
    Success,
    /// A response arrived with a status outside the success range.
    FailedResponse,
    /// No response arrived: a connection, timeout, DNS or TLS fault.
    TransportError,
}

impl ProbeOutcome {
    /// Whether this outcome counts against the success tally.
    pub open spec fn is_unsuccessful(self) -> bool {
        self !== ProbeOutcome::Success
    }

    /// What an outcome adds to a worker's unsuccessful count: one for any
    /// failure, nothing for a success.
    pub open spec fn failure_weight(self) -> int {
        if self.is_unsuccessful() {
            1
        } else {
            0
        }
    }
}

/// The success range of an HTTP status code: `200..=299`.
pub open spec fn status_is_success(status: u16) -> bool {
    200 <= status <= 299
}

/// The classification of a status code, as a value.
pub open spec fn classify_status_spec(status: u16) -> ProbeOutcome {
    if status_is_success(status) {
        ProbeOutcome::Success
    } else {
        ProbeOutcome::FailedResponse
    }
}

/// Classify a probe for which a response arrived, by its status code.
pub fn classify_status(status: u16) -> (r: ProbeOutcome)
    ensures
        r == classify_status_spec(status),
{
    if 200 <= status && status <= 299 {
        ProbeOutcome::Success
    } else {
        ProbeOutcome::FailedResponse
    }
}

/// Classify a probe from the transport's answer: a status code where a
/// response arrived, nothing where the connection itself failed.
pub fn classify_probe(status: Option<u16>) -> (r: ProbeOutcome)
    ensures
        match status {
            Some(s) => r == classify_status_spec(s),
            None => r == ProbeOutcome::TransportError,
        },
{
    match status {
        Some(s) => classify_status(s),
        None => ProbeOutcome::TransportError,
    }
}

} // verus!

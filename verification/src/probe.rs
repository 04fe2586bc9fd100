//! Reducing the outcome of one probe to a status.
//!
//! A probe is an HTTP GET with a client-side timeout. Whoever performs it hands
//! over the status code of the response, or `None` when no response came
//! (timeout, DNS, refused connection, TLS): a failed probe is data, not an
//! error.

use crate::status::SystemStatus;
use vstd::prelude::*;

verus! {

/// The code that stands for a probe without a response.
pub const PROBE_FAILED: u16 = 999;

/// The timeout of one probe, in seconds.
pub const PROBE_TIMEOUT_SECS: u64 = 10;

/// The code of a probe: the response's status code, or [`PROBE_FAILED`].
pub open spec fn code_of(response: Option<u16>) -> u16 {
    match response {
        Some(code) => code,
        None => PROBE_FAILED,
    }
}

/// A code from 200 up to, but not including, 400 means that the target is up.
pub open spec fn code_is_up(code: u16) -> bool {
    200 <= code < 400
}

/// The status that a code stands for: green when up, red otherwise.
pub open spec fn status_of_code(code: u16) -> SystemStatus {
    if code_is_up(code) {
        SystemStatus::Green
    } else {
        SystemStatus::Red
    }
}

/// The code of a probe, with [`PROBE_FAILED`] for a probe that got no response.
pub fn probe_code(response: Option<u16>) -> (code: u16)
    ensures
        code == code_of(response),
{
    match response {
        Some(code) => code,
        None => PROBE_FAILED,
    }
}

/// Whether a code means that the target is up.
pub fn is_up(code: u16) -> (up: bool)
    ensures
        up == code_is_up(code),
{
    code >= 200 && code < 400
}

/// The status that a code stands for.
pub fn classify(code: u16) -> (status: SystemStatus)
    ensures
        status == status_of_code(code),
{
    if is_up(code) {
        SystemStatus::Green
    } else {
        SystemStatus::Red
    }
}

/// The status that the outcome of a probe stands for.
pub fn classify_probe(response: Option<u16>) -> (status: SystemStatus)
    ensures
        status == status_of_code(code_of(response)),
{
    classify(probe_code(response))
}

/// Classification knows two results: green for exactly the codes from 200 to
/// 399, red for every other code. It never yields yellow.
pub proof fn lemma_classification_is_binary(code: u16)
    ensures
        status_of_code(code) == SystemStatus::Green <==> 200 <= code <= 399,
        status_of_code(code) == SystemStatus::Red <==> code < 200 || code >= 400,
        status_of_code(code) != SystemStatus::Yellow,
{
}

/// A probe that got no response counts as down.
pub proof fn lemma_failed_probe_is_down()
    ensures
        status_of_code(code_of(None)) == SystemStatus::Red,
{
}

} // verus!

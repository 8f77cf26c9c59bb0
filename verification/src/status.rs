//! Probe outcomes, endpoint statuses, and the classification between them.

use vstd::prelude::*;

use crate::text::decimal_of;
use crate::text::u16_to_decimal;

verus! {

/// Health status of one endpoint, as determined by a single probe.
#[derive(Clone, Copy, Debug, PartialEq, Eq, Structural)]
pub enum Status {
    /// The probe succeeded: the endpoint is reachable and healthy.
    Active,
    /// The probe completed but reported failure (e.g. a non-success response).
    Inactive,
    /// The probe could not be completed or its result could not be interpreted.
    Unknown,
}

/// Raw result of a single probe of one endpoint.
pub enum ProbeOutcome {
    /// The probe completed and indicates the endpoint is healthy.
    Success,
    /// The probe completed but indicates failure; the string gives the reason.
    Failure(String),
    /// The probe could not be carried out; the string gives the reason.
    Error(String),
}

/// The status that a probe outcome maps to.
pub open spec fn classify_spec(outcome: ProbeOutcome) -> Status {
    match outcome {
        ProbeOutcome::Success => Status::Active,
        ProbeOutcome::Failure(_) => Status::Inactive,
        ProbeOutcome::Error(_) => Status::Unknown,
    }
}

/// Maps a probe outcome to the endpoint status it denotes: success means
/// `Active`, a completed-but-failed probe means `Inactive`, and a probe that
/// could not run or be interpreted means `Unknown`.
pub fn classify(outcome: &ProbeOutcome) -> (status: Status)
    ensures
        status == classify_spec(*outcome),
{
    match outcome {
        ProbeOutcome::Success => Status::Active,
        ProbeOutcome::Failure(_) => Status::Inactive,
        ProbeOutcome::Error(_) => Status::Unknown,
    }
}

/// True when an HTTP status code lies in the success range.
pub open spec fn success_code(code: u16) -> bool {
    200 <= code < 300
}

/// Interprets the result of one HTTP GET probe: the response status code on
/// a completed request, or the transport error text when the request could
/// not complete. A success-range code means `Success`; any other code means
/// `Failure` carrying the code in decimal; a transport error means `Error`
/// carrying its text.
pub fn http_probe_outcome(response: &Result<u16, String>) -> (r: ProbeOutcome)
    ensures
        match *response {
            Ok(code) => if success_code(code) {
                r == ProbeOutcome::Success
            } else {
                r matches ProbeOutcome::Failure(m) && m@ == decimal_of(code as nat)
            },
            Err(e) => r matches ProbeOutcome::Error(m) && m@ == e@,
        },
{
    match response {
        Ok(code) => if 200 <= *code && *code < 300 {
            ProbeOutcome::Success
        } else {
            ProbeOutcome::Failure(u16_to_decimal(*code))
        },
        Err(e) => ProbeOutcome::Error(e.clone()),
    }
}

/// The status word shown in the result table.
pub open spec fn status_text(status: Status) -> Seq<char> {
    match status {
        Status::Active => "Active"@,
        Status::Inactive => "Inactive"@,
        Status::Unknown => "Unknown"@,
    }
}

/// Renders a status as its table text.
pub fn format_status(status: Status) -> (r: String)
    ensures
        r@ == status_text(status),
{
    match status {
        Status::Active => String::from_str("Active"),
        Status::Inactive => String::from_str("Inactive"),
        Status::Unknown => String::from_str("Unknown"),
    }
}

} // verus!

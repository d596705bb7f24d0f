//! Classification of the answers of the service's health endpoints.
use vstd::prelude::*;

use crate::error::{ProtocolFault, SupervisorError};

verus! {

/// Address of the structured status endpoint of the core service.
pub const STATUS_URL: &'static str = "http://127.0.0.1:8000/status";

/// Address of the lightweight liveness endpoint of the core service.
pub const LIVENESS_URL: &'static str = "http://127.0.0.1:8000/";

/// Timeout of one health request, in seconds.
pub const REQUEST_TIMEOUT_SECS: u64 = 5;

/// What one GET request to a health endpoint came to.
#[derive(Debug, Clone, PartialEq, Eq)]
pub enum HttpOutcome {
    /// No HTTP answer: connection refused, DNS failure or timeout.
    Transport(String),
    /// An HTTP answer with its status code and its full body.
    Answered { code: u16, body: Vec<u8> },
}

#[verifier::external_type_specification]
#[verifier::external_body]
pub struct ExJsonValue(serde_json::Value);

#[verifier::external_type_specification]
#[verifier::external_body]
pub struct ExJsonError(serde_json::Error);

/// A status code in the success class 200..=299.
pub open spec fn is_success_code(code: u16) -> bool {
    200 <= code && code < 300
}

/// Whether a liveness request came back with a success answer.
pub open spec fn is_live(outcome: HttpOutcome) -> bool {
    match outcome {
        HttpOutcome::Transport(_) => false,
        HttpOutcome::Answered { code, .. } => is_success_code(code),
    }
}

/// Whether `body` is one well-formed JSON document.
pub uninterp spec fn json_decodes(body: Seq<u8>) -> bool;

/// Relies on serde_json::from_slice: it returns `Ok` exactly when the bytes
/// hold one JSON value (surrounded by whitespace at most); the outcome depends
/// on the bytes alone.
#[verifier::external_body]
fn decode_json(body: &[u8]) -> (r: Result<serde_json::Value, serde_json::Error>)
    ensures
        r.is_ok() == json_decodes(body@),
{
    serde_json::from_slice::<serde_json::Value>(body)
}

/// Relies on serde_json::Error's `Display` impl, for a message that describes
/// the decode failure.
#[verifier::external_body]
fn json_error_text(e: &serde_json::Error) -> String {
    e.to_string()
}

/// Whether `code` is in the success class 200..=299.
pub fn is_success(code: u16) -> (r: bool)
    ensures
        r == is_success_code(code),
{
    200 <= code && code < 300
}

/// Liveness check: the service is reachable when it answered with a success
/// status code; the body is not looked at.
pub fn liveness(outcome: &HttpOutcome) -> (r: bool)
    ensures
        r == is_live(*outcome),
{
    match outcome {
        HttpOutcome::Transport(_) => false,
        HttpOutcome::Answered { code, .. } => is_success(*code),
    }
}

/// Full status check: forwards the decoded payload of a success answer, and
/// reports every other answer as a typed error.
pub fn classify_status(outcome: HttpOutcome) -> (r: Result<serde_json::Value, SupervisorError>)
    ensures
        match outcome {
            HttpOutcome::Transport(m) => r == Err::<serde_json::Value, SupervisorError>(
                SupervisorError::TransportError(m),
            ),
            HttpOutcome::Answered { code, body } => {
                if !is_success_code(code) {
                    r == Err::<serde_json::Value, SupervisorError>(
                        SupervisorError::ProtocolError(ProtocolFault::Status(code)),
                    )
                } else if json_decodes(body@) {
                    r.is_ok()
                } else {
                    r matches Err(SupervisorError::ProtocolError(ProtocolFault::Decode(_)))
                }
            },
        },
{
    match outcome {
        HttpOutcome::Transport(m) => Err(SupervisorError::TransportError(m)),
        HttpOutcome::Answered { code, body } => {
            if !is_success(code) {
                Err(SupervisorError::ProtocolError(ProtocolFault::Status(code)))
            } else {
                match decode_json(body.as_slice()) {
                    Ok(v) => Ok(v),
                    Err(e) => Err(
                        SupervisorError::ProtocolError(ProtocolFault::Decode(json_error_text(&e))),
                    ),
                }
            }
        },
    }
}

} // verus!

//! The handler conventions shared by every endpoint: classify the outcome of
//! one upstream call, require the parameters the endpoint declares, and turn
//! the classified result into an HTTP status with either the envelope itself
//! or the JSON error body.

use vstd::prelude::*;
use crate::error::{error_body_of, status_of, AppError};

verus! {

/// What one upstream call came back with, as the transport reports it: a
/// response with its status and, when the status allowed decoding and the
/// body matched the expected shape, the decoded value; or a deadline hit; or
/// a transport failure.
pub enum UpstreamOutcome<T> {
    Completed { status: u16, body: Option<T> },
    TimedOut,
    TransportFailed,
}

/// HTTP statuses that count as success.
pub open spec fn is_success_status(status: u16) -> bool {
    200 <= status < 300
}

/// The classification of one upstream outcome: a deadline hit is a timeout, a
/// transport failure and a non-success status are an unavailable upstream, an
/// undecodable body behind a success status is a decode failure, and a decoded
/// body behind a success status is the call's value.
pub open spec fn interpretation_of<T>(o: UpstreamOutcome<T>) -> Result<T, AppError> {
    match o {
        UpstreamOutcome::TimedOut => Result::Err(AppError::RemoteTimeout),
        UpstreamOutcome::TransportFailed => Result::Err(AppError::RemoteUnavailable),
        UpstreamOutcome::Completed { status, body } => {
            if !is_success_status(status) {
                Result::Err(AppError::RemoteUnavailable)
            } else {
                match body {
                    Option::Some(v) => Result::Ok(v),
                    Option::None => Result::Err(AppError::DecodeFailure),
                }
            }
        },
    }
}

/// Classifies one upstream outcome.
pub fn interpret_outcome<T>(o: UpstreamOutcome<T>) -> (r: Result<T, AppError>)
    ensures
        r == interpretation_of(o),
{
    match o {
        UpstreamOutcome::TimedOut => Err(AppError::RemoteTimeout),
        UpstreamOutcome::TransportFailed => Err(AppError::RemoteUnavailable),
        UpstreamOutcome::Completed { status, body } => {
            if status < 200 || status >= 300 {
                Err(AppError::RemoteUnavailable)
            } else {
                match body {
                    Some(v) => Ok(v),
                    None => Err(AppError::DecodeFailure),
                }
            }
        },
    }
}

/// The HTTP status a handler answers with: 200 around a success, the error's
/// own status otherwise.
pub open spec fn response_status_of<T>(r: Result<T, AppError>) -> u16 {
    match r {
        Result::Ok(_) => 200,
        Result::Err(e) => status_of(e),
    }
}

/// Turns a classified result into the HTTP status and either the value to
/// serialize verbatim or the JSON error body.
pub fn render_response<T>(r: Result<T, AppError>) -> (out: (u16, Result<T, String>))
    ensures
        out.0 == response_status_of(r),
        r matches Ok(v) ==> (out.1 matches Ok(w) && w == v),
        r matches Err(e) ==> (out.1 matches Err(b) && b@ == error_body_of(e)),
{
    match r {
        Ok(v) => (200, Ok(v)),
        Err(e) => {
            let (status, body) = e.into_response();
            (status, Err(body))
        },
    }
}

/// Requires the search keyword: its absence is a client error and never
/// reaches the upstream.
pub fn require_keyword(keyword: Option<String>) -> (r: Result<String, AppError>)
    ensures
        keyword matches Some(k) ==> r == Result::<String, AppError>::Ok(k),
        keyword is None ==> (r matches Err(e) && e matches AppError::BadRequest(m) && m@
            == "keyword is required"@),
{
    match keyword {
        Some(k) => Ok(k),
        None => Err(AppError::BadRequest("keyword is required".to_owned())),
    }
}

/// When the upstream completes with a success status and a well-formed
/// payload, the handler answers 200 with exactly that envelope, whatever the
/// operation's payload type.
pub proof fn lemma_success_envelope_passthrough<T>(status: u16, env: T)
    requires
        is_success_status(status),
    ensures
        ({
            let r = interpretation_of(
                UpstreamOutcome::Completed { status, body: Option::Some(env) },
            );
            &&& r == Result::<T, AppError>::Ok(env)
            &&& response_status_of(r) == 200
        }),
{
}

/// When the upstream answers with a status outside the success range, the
/// handler answers 502 with the fixed bad-gateway body, whatever the operation
/// and whatever body came along with the status.
pub proof fn lemma_non_success_status_is_bad_gateway<T>(status: u16, body: Option<T>)
    requires
        !is_success_status(status),
    ensures
        ({
            let r = interpretation_of(UpstreamOutcome::Completed { status, body });
            &&& r == Result::<T, AppError>::Err(AppError::RemoteUnavailable)
            &&& response_status_of(r) == 502
            &&& error_body_of(AppError::RemoteUnavailable)
                == "{\"error\":\"remote service unavailable\",\"code\":502}"@
        }),
{
    crate::error::lemma_bad_gateway_body();
}

} // verus!

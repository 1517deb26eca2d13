//! The error taxonomy of the proxy and its mapping to an HTTP status and a
//! fixed-shape JSON error body `{"error": <message>, "code": <status>}`.

use vstd::prelude::*;
use crate::json::{append_json_escaped, json_escaped, lemma_json_escaped_plain};
use crate::text::{decimal_of, push_decimal_u16};

verus! {

/// Every failure the proxy reports, classified.
#[derive(Debug, Clone)]
pub enum AppError {
    /// The upstream call exceeded its deadline.
    RemoteTimeout,
    /// The upstream transport failed or the upstream answered with a status
    /// outside the success range.
    RemoteUnavailable,
    /// The upstream body did not match the expected shape.
    DecodeFailure,
    /// A required inbound parameter was missing or invalid.
    BadRequest(String),
    /// An identifier known locally to be invalid.
    NotFound,
    /// An unclassified failure.
    Internal(String),
    /// Invalid startup configuration; fatal at startup, never a per-request
    /// condition.
    Config(String),
}

/// The HTTP status each error kind is reported with.
pub open spec fn status_of(e: AppError) -> u16 {
    match e {
        AppError::RemoteTimeout => 408,
        AppError::RemoteUnavailable => 502,
        AppError::DecodeFailure => 502,
        AppError::BadRequest(_) => 400,
        AppError::NotFound => 404,
        AppError::Internal(_) => 500,
        AppError::Config(_) => 500,
    }
}

/// The message placed in the error body. Details carried by the internal and
/// configuration variants stay out of the body.
pub open spec fn message_of(e: AppError) -> Seq<char> {
    match e {
        AppError::RemoteTimeout => "request timed out"@,
        AppError::RemoteUnavailable => "remote service unavailable"@,
        AppError::DecodeFailure => "invalid upstream response"@,
        AppError::BadRequest(m) => m@,
        AppError::NotFound => "resource not found"@,
        AppError::Internal(_) => "internal server error"@,
        AppError::Config(_) => "configuration error"@,
    }
}

/// The JSON error body: `{"error": <escaped message>, "code": <status>}`.
pub open spec fn error_body_of(e: AppError) -> Seq<char> {
    "{\"error\":\""@ + json_escaped(message_of(e)) + "\",\"code\":"@ + decimal_of(
        status_of(e) as nat,
    ) + "}"@
}

impl AppError {
    /// The HTTP status this error is reported with.
    pub fn status_code(&self) -> (r: u16)
        ensures
            r == status_of(*self),
    {
        match self {
            AppError::RemoteTimeout => 408,
            AppError::RemoteUnavailable => 502,
            AppError::DecodeFailure => 502,
            AppError::BadRequest(_) => 400,
            AppError::NotFound => 404,
            AppError::Internal(_) => 500,
            AppError::Config(_) => 500,
        }
    }

    /// The message placed in the error body.
    pub fn message(&self) -> (r: String)
        ensures
            r@ == message_of(*self),
    {
        match self {
            AppError::RemoteTimeout => "request timed out".to_owned(),
            AppError::RemoteUnavailable => "remote service unavailable".to_owned(),
            AppError::DecodeFailure => "invalid upstream response".to_owned(),
            AppError::BadRequest(m) => m.clone(),
            AppError::NotFound => "resource not found".to_owned(),
            AppError::Internal(_) => "internal server error".to_owned(),
            AppError::Config(_) => "configuration error".to_owned(),
        }
    }

    /// The JSON error body for this error.
    pub fn body(&self) -> (r: String)
        ensures
            r@ == error_body_of(*self),
    {
        let mut out = "{\"error\":\"".to_owned();
        let msg = self.message();
        append_json_escaped(&mut out, msg.as_str());
        out.append("\",\"code\":");
        push_decimal_u16(&mut out, self.status_code());
        out.append("}");
        assert(out@ =~= error_body_of(*self));
        out
    }

    /// The HTTP status and JSON body this error turns into.
    pub fn into_response(self) -> (r: (u16, String))
        ensures
            r.0 == status_of(self),
            r.1@ == error_body_of(self),
    {
        let status = self.status_code();
        let body = self.body();
        (status, body)
    }
}

/// The body reported for an unavailable upstream, written out.
pub proof fn lemma_bad_gateway_body()
    ensures
        error_body_of(AppError::RemoteUnavailable)
            == "{\"error\":\"remote service unavailable\",\"code\":502}"@,
{
    reveal_strlit("{\"error\":\"");
    reveal_strlit("remote service unavailable");
    reveal_strlit("\",\"code\":");
    reveal_strlit("}");
    reveal_strlit("{\"error\":\"remote service unavailable\",\"code\":502}");
    let msg = "remote service unavailable"@;
    lemma_json_escaped_plain(msg);
    assert(decimal_of(502nat) =~= seq!['5', '0', '2']) by {
        reveal_with_fuel(crate::text::decimal_of, 4);
    }
    assert(error_body_of(AppError::RemoteUnavailable)
        =~= "{\"error\":\"remote service unavailable\",\"code\":502}"@);
}

} // verus!

//! Uniform translation of request-scoped failures into JSON error bodies.
//!
//! Every failure the proxy can hit while handling one request is one of four
//! kinds, each mapped to a fixed status code and rendered as the fixed JSON
//! shape `{"error":{"message":..,"type":"proxy_error","code":..,"details":..}}`.

use vstd::prelude::*;
use vstd::string::StringSliceAdditionalSpecFns;
use crate::bytes::{str_to_bytes, push_str_bytes};
use crate::jsontext::{spec_json_string, push_json_string};

verus! {

/// The four request-scoped failure kinds.
#[derive(Debug)]
pub enum ProxyErrorKind {
    /// The inbound body could not be decoded while rewriting was required.
    BadRequest,
    /// The credential cannot be encoded into an outbound header.
    ConfigurationError,
    /// The upstream call failed before any response arrived.
    UpstreamUnreachable,
    /// The upstream body could not be read after the headers arrived.
    UpstreamReadFailure,
}

/// One failure: its kind, a fixed human-readable message, and a details
/// string carrying the underlying cause.
#[derive(Debug)]
pub struct ProxyError {
    pub kind: ProxyErrorKind,
    pub message: Vec<u8>,
    pub details: Vec<u8>,
}

/// The mathematical value of a failure.
pub struct SpecProxyError {
    pub kind: ProxyErrorKind,
    pub message: Seq<u8>,
    pub details: Seq<u8>,
}

impl View for ProxyError {
    type V = SpecProxyError;

    open spec fn view(&self) -> SpecProxyError {
        SpecProxyError { kind: self.kind, message: self.message@, details: self.details@ }
    }
}

/// The HTTP status code of each failure kind.
pub open spec fn spec_status_of(kind: ProxyErrorKind) -> u16 {
    match kind {
        ProxyErrorKind::BadRequest => 400,
        ProxyErrorKind::ConfigurationError => 500,
        ProxyErrorKind::UpstreamUnreachable => 502,
        ProxyErrorKind::UpstreamReadFailure => 502,
    }
}

/// The decimal digits of each failure kind's status code.
pub open spec fn spec_status_digits(kind: ProxyErrorKind) -> Seq<u8> {
    match kind {
        ProxyErrorKind::BadRequest => "400".spec_bytes(),
        ProxyErrorKind::ConfigurationError => "500".spec_bytes(),
        ProxyErrorKind::UpstreamUnreachable => "502".spec_bytes(),
        ProxyErrorKind::UpstreamReadFailure => "502".spec_bytes(),
    }
}

/// The fixed message text of each failure kind.
pub open spec fn spec_message_of(kind: ProxyErrorKind) -> Seq<u8> {
    match kind {
        ProxyErrorKind::BadRequest => "Could not parse request body as JSON".spec_bytes(),
        ProxyErrorKind::ConfigurationError => "Failed to create authorization header".spec_bytes(),
        ProxyErrorKind::UpstreamUnreachable => "Failed to forward request".spec_bytes(),
        ProxyErrorKind::UpstreamReadFailure => "Failed to read response".spec_bytes(),
    }
}

/// A well-formed failure carries its kind's fixed message.
pub open spec fn spec_wf_error(e: SpecProxyError) -> bool {
    e.message == spec_message_of(e.kind)
}

/// The JSON error body of one failure: a single `error` object holding
/// `message`, the fixed type token, the status code, and `details`.
pub open spec fn spec_error_body(e: SpecProxyError) -> Seq<u8> {
    "{\"error\":{\"message\":".spec_bytes() + spec_json_string(e.message)
        + ",\"type\":\"proxy_error\",\"code\":".spec_bytes() + spec_status_digits(e.kind)
        + ",\"details\":".spec_bytes() + spec_json_string(e.details) + "}}".spec_bytes()
}

impl ProxyError {
    /// Creates a failure of the given kind with its fixed message.
    pub fn new(kind: ProxyErrorKind, details: Vec<u8>) -> (r: ProxyError)
        ensures
            r@.kind == kind,
            r@.message == spec_message_of(kind),
            r@.details == details@,
            spec_wf_error(r@),
    {
        let message = match kind {
            ProxyErrorKind::BadRequest => str_to_bytes("Could not parse request body as JSON"),
            ProxyErrorKind::ConfigurationError => str_to_bytes(
                "Failed to create authorization header",
            ),
            ProxyErrorKind::UpstreamUnreachable => str_to_bytes("Failed to forward request"),
            ProxyErrorKind::UpstreamReadFailure => str_to_bytes("Failed to read response"),
        };
        ProxyError { kind, message, details }
    }

    /// Returns the HTTP status code this failure maps to.
    pub fn status_code(&self) -> (r: u16)
        ensures
            r == spec_status_of(self@.kind),
    {
        match self.kind {
            ProxyErrorKind::BadRequest => 400,
            ProxyErrorKind::ConfigurationError => 500,
            ProxyErrorKind::UpstreamUnreachable => 502,
            ProxyErrorKind::UpstreamReadFailure => 502,
        }
    }

    /// Renders the JSON error body.
    pub fn body(&self) -> (r: Vec<u8>)
        ensures
            r@ == spec_error_body(self@),
    {
        let mut out: Vec<u8> = Vec::new();
        push_str_bytes(&mut out, "{\"error\":{\"message\":");
        push_json_string(&mut out, &self.message);
        push_str_bytes(&mut out, ",\"type\":\"proxy_error\",\"code\":");
        match self.kind {
            ProxyErrorKind::BadRequest => push_str_bytes(&mut out, "400"),
            ProxyErrorKind::ConfigurationError => push_str_bytes(&mut out, "500"),
            ProxyErrorKind::UpstreamUnreachable => push_str_bytes(&mut out, "502"),
            ProxyErrorKind::UpstreamReadFailure => push_str_bytes(&mut out, "502"),
        }
        push_str_bytes(&mut out, ",\"details\":");
        push_json_string(&mut out, &self.details);
        push_str_bytes(&mut out, "}}");
        proof {
            assert(out@ =~= spec_error_body(self@));
        }
        out
    }
}

} // verus!

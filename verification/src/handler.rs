//! Orchestration of one inbound request.
//!
//! One request is handled in two verified halves around the single outbound
//! HTTP call, which the hosting transport performs: `prepare_forward` turns
//! the inbound body and headers into the outbound request (or a finished
//! error reply), and the reply builders turn the outbound call's outcome into
//! the caller's response. Within one request, header reconciliation strictly
//! precedes the outbound call, and the call strictly precedes response
//! classification.

use vstd::prelude::*;
use vstd::string::StringSliceAdditionalSpecFns;
use crate::bytes::{copy_bytes, str_to_bytes};
use crate::headers::{
    Header, spec_headers, spec_valid_header_value, spec_outbound_fixed, spec_outbound_passthrough,
    build_outbound_headers, build_outbound_passthrough,
};
use crate::payload::{obj_keys_of, spec_payload_of, spec_stream_flag, spec_rewritten_body, rewrite_request};
use crate::errors::{ProxyError, ProxyErrorKind, SpecProxyError, spec_message_of, spec_error_body};
use crate::relay::{StreamDetectionPolicy, CallerResponse, spec_body_bytes, error_reply};

verus! {

/// Which headers the outbound request carries.
pub enum HeaderPolicy {
    /// Only the fixed minimal set: `Content-Type` and `Authorization`.
    MinimalSet,
    /// Every inbound header, with `Content-Type` and `Authorization`
    /// overwritten.
    PassThrough,
}

/// The immutable per-deployment configuration, constructed once at startup.
pub struct ProxyConfig {
    /// The upstream endpoint the proxy forwards to.
    pub model_url: Vec<u8>,
    /// The bearer credential injected into every outbound request.
    pub model_key: Vec<u8>,
    /// The model identifier substituted into every payload; `None` selects
    /// the pass-through variant, which forwards the body byte-for-byte.
    pub default_model: Option<Vec<u8>>,
    /// How the relay decides between streaming and buffering.
    pub stream_policy: StreamDetectionPolicy,
    /// Which headers the outbound request carries.
    pub header_policy: HeaderPolicy,
}

/// One outbound request, ready for the transport: target URL, headers, body,
/// and the streaming flag read from the inbound payload.
#[derive(Debug)]
pub struct OutboundRequestSpec {
    pub url: Vec<u8>,
    pub headers: Vec<Header>,
    pub body: Vec<u8>,
    pub stream_requested: bool,
}

/// The inbound body cannot be decoded while rewriting is configured.
pub open spec fn spec_rejects_body(cfg: &ProxyConfig, body: Seq<u8>) -> bool {
    cfg.default_model is Some && obj_keys_of(body) is None
}

/// The reply is the JSON error reply of the given kind: its status, a lone
/// `Content-Type: application/json` header, and the fixed error body with
/// the given details.
pub open spec fn spec_is_error_reply(
    r: CallerResponse,
    kind: ProxyErrorKind,
    details: Seq<u8>,
) -> bool {
    &&& r.status == crate::errors::spec_status_of(kind)
    &&& spec_headers(r.headers@) == seq![
        (crate::headers::SpecHeader {
            name: "content-type".spec_bytes(),
            value: "application/json".spec_bytes(),
        }),
    ]
    &&& r.body is Buffered
    &&& spec_body_bytes(r.body) == spec_error_body(
        SpecProxyError { kind, message: spec_message_of(kind), details },
    )
}

/// The reply is the JSON error reply of the given kind, with some details.
pub open spec fn spec_is_error_reply_of_kind(r: CallerResponse, kind: ProxyErrorKind) -> bool {
    exists|d: Seq<u8>| spec_is_error_reply(r, kind, d)
}

/// Builds the outbound request for one inbound request, or the finished
/// error reply when a stage fails.
///
/// The stages run in a fixed order: the body is decoded and rewritten
/// first (a body that cannot be decoded while rewriting is configured gets
/// the bad-request reply), then the outbound headers are built (a credential
/// that cannot stand in a header value gets the configuration-error reply).
pub fn prepare_forward(cfg: &ProxyConfig, inbound_headers: &Vec<Header>, body: &Vec<u8>) -> (r:
    Result<OutboundRequestSpec, CallerResponse>)
    ensures
        r is Err <==> (spec_rejects_body(cfg, body@) || !spec_valid_header_value(cfg.model_key@)),
        (r is Err && spec_rejects_body(cfg, body@)) ==> spec_is_error_reply_of_kind(
            r.unwrap_err(),
            ProxyErrorKind::BadRequest,
        ),
        (r is Err && !spec_rejects_body(cfg, body@)) ==> spec_is_error_reply(
            r.unwrap_err(),
            ProxyErrorKind::ConfigurationError,
            "credential is not a valid header value".spec_bytes(),
        ),
        r is Ok ==> {
            &&& r.unwrap().url@ == cfg.model_url@
            &&& (cfg.header_policy is MinimalSet ==> spec_headers(r.unwrap().headers@)
                == spec_outbound_fixed(cfg.model_key@))
            &&& (cfg.header_policy is PassThrough ==> spec_headers(r.unwrap().headers@)
                == spec_outbound_passthrough(spec_headers(inbound_headers@), cfg.model_key@))
            &&& (cfg.default_model is Some ==> {
                &&& r.unwrap().body@ == spec_rewritten_body(body@, cfg.default_model.unwrap()@)
                &&& r.unwrap().stream_requested == spec_stream_flag(spec_payload_of(body@))
            })
            &&& (cfg.default_model is None ==> {
                &&& r.unwrap().body@ == body@
                &&& r.unwrap().stream_requested == (obj_keys_of(body@) is Some
                    && spec_stream_flag(spec_payload_of(body@)))
            })
        },
{
    let rewritten = match rewrite_request(body, &cfg.default_model) {
        Ok(rw) => rw,
        Err(e) => {
            let reply = error_reply(&e);
            proof {
                assert(spec_is_error_reply(reply, ProxyErrorKind::BadRequest, e@.details));
                assert(spec_is_error_reply_of_kind(reply, ProxyErrorKind::BadRequest));
            }
            return Err(reply);
        },
    };
    let headers = match cfg.header_policy {
        HeaderPolicy::MinimalSet => build_outbound_headers(&cfg.model_key),
        HeaderPolicy::PassThrough => build_outbound_passthrough(inbound_headers, &cfg.model_key),
    };
    let headers = match headers {
        Some(hs) => hs,
        None => {
            let e = ProxyError::new(
                ProxyErrorKind::ConfigurationError,
                str_to_bytes("credential is not a valid header value"),
            );
            return Err(error_reply(&e));
        },
    };
    Ok(OutboundRequestSpec {
        url: copy_bytes(&cfg.model_url),
        headers,
        body: rewritten.body,
        stream_requested: rewritten.stream,
    })
}

/// Builds the caller's reply when the outbound call itself fails: the
/// bad-gateway error reply carrying the transport's message.
pub fn forward_failure_reply(details: Vec<u8>) -> (r: CallerResponse)
    ensures
        spec_is_error_reply(r, ProxyErrorKind::UpstreamUnreachable, details@),
{
    let e = ProxyError::new(ProxyErrorKind::UpstreamUnreachable, details);
    error_reply(&e)
}

/// Builds the caller's reply when the upstream body cannot be read after the
/// headers arrived (buffered mode): the bad-gateway error reply carrying the
/// reader's message.
pub fn read_failure_reply(details: Vec<u8>) -> (r: CallerResponse)
    ensures
        spec_is_error_reply(r, ProxyErrorKind::UpstreamReadFailure, details@),
{
    let e = ProxyError::new(ProxyErrorKind::UpstreamReadFailure, details);
    error_reply(&e)
}

} // verus!

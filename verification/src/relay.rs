//! Classification and relay of the upstream response.
//!
//! A successful upstream response is relayed either buffered (one body) or
//! streaming (a pass-through sequence of chunks). Which of the two happens is
//! decided by the configured policy: by the inbound payload's `stream` flag,
//! or by the upstream `Content-Type` announcing an event stream.

use vstd::prelude::*;
use vstd::string::StringSliceAdditionalSpecFns;
use crate::bytes::{spec_contains, contains_bytes, str_to_bytes, copy_bytes, name_matches};
use crate::headers::{
    Header, SpecHeader, spec_headers, spec_name_is, spec_buffered_headers, spec_streaming_headers,
    copy_response_headers, streaming_response_headers,
};
use crate::errors::{ProxyError, spec_status_of, spec_error_body};

verus! {

/// How the relay decides between streaming and buffering. Each deployment
/// profile picks one policy at construction.
pub enum StreamDetectionPolicy {
    /// The inbound payload's `stream` flag decides, whatever upstream sends.
    RequestFlag,
    /// The upstream `Content-Type` decides: stream exactly when it contains
    /// `text/event-stream`.
    ResponseContentType,
}

/// The upstream response announces an event stream: some `Content-Type`
/// header's value contains `text/event-stream`.
pub open spec fn spec_upstream_is_sse(up: Seq<SpecHeader>) -> bool {
    exists|i: int|
        0 <= i < up.len() && spec_name_is((#[trigger] up[i]).name, "content-type".spec_bytes())
            && spec_contains(up[i].value, "text/event-stream".spec_bytes())
}

/// The relay streams for this policy, requested flag and upstream header set.
pub open spec fn spec_should_stream(
    policy: StreamDetectionPolicy,
    requested: bool,
    up: Seq<SpecHeader>,
) -> bool {
    match policy {
        StreamDetectionPolicy::RequestFlag => requested,
        StreamDetectionPolicy::ResponseContentType => spec_upstream_is_sse(up),
    }
}

/// Decides whether the upstream response is relayed as a stream.
pub fn should_stream(
    policy: &StreamDetectionPolicy,
    requested: bool,
    upstream: &Vec<Header>,
) -> (r: bool)
    ensures
        r == spec_should_stream(*policy, requested, spec_headers(upstream@)),
{
    match policy {
        StreamDetectionPolicy::RequestFlag => requested,
        StreamDetectionPolicy::ResponseContentType => {
            let ct = str_to_bytes("content-type");
            let sse = str_to_bytes("text/event-stream");
            let mut i: usize = 0;
            while i < upstream.len()
                invariant
                    *policy is ResponseContentType,
                    ct@ == "content-type".spec_bytes(),
                    sse@ == "text/event-stream".spec_bytes(),
                    0 <= i <= upstream@.len(),
                    forall|k: int|
                        0 <= k < i ==> !(spec_name_is(
                            (#[trigger] spec_headers(upstream@)[k]).name,
                            "content-type".spec_bytes(),
                        ) && spec_contains(
                            spec_headers(upstream@)[k].value,
                            "text/event-stream".spec_bytes(),
                        )),
                decreases upstream@.len() - i,
            {
                let h = &upstream[i];
                if name_matches(&h.name, &ct) && contains_bytes(&h.value, &sse) {
                    proof {
                        assert(spec_headers(upstream@)[i as int] == upstream@[i as int]@);
                        assert(spec_name_is(
                            (#[trigger] spec_headers(upstream@)[i as int]).name,
                            "content-type".spec_bytes(),
                        ));
                        assert(spec_contains(
                            spec_headers(upstream@)[i as int].value,
                            "text/event-stream".spec_bytes(),
                        ));
                        assert(spec_upstream_is_sse(spec_headers(upstream@)));
                    }
                    return true;
                }
                i = i + 1;
            }
            false
        },
    }
}

/// What the caller's connection carries: one buffered body, or a stream whose
/// chunks a `StreamRelay` forwards one by one.
#[derive(Debug)]
pub enum RelayBody {
    Buffered(Vec<u8>),
    Streaming,
}

/// The bytes of a buffered relay body.
pub open spec fn spec_body_bytes(b: RelayBody) -> Seq<u8> {
    match b {
        RelayBody::Buffered(v) => v@,
        RelayBody::Streaming => Seq::empty(),
    }
}

/// One response to the caller: status, headers, and the body mode.
#[derive(Debug)]
pub struct CallerResponse {
    pub status: u16,
    pub headers: Vec<Header>,
    pub body: RelayBody,
}

/// Assembles the buffered reply: the upstream status, the upstream headers
/// minus the hop-by-hop set, and the upstream body unchanged.
pub fn buffered_reply(status: u16, upstream: &Vec<Header>, body: Vec<u8>) -> (r: CallerResponse)
    ensures
        r.status == status,
        spec_headers(r.headers@) == spec_buffered_headers(spec_headers(upstream@)),
        r.body is Buffered,
        spec_body_bytes(r.body) == body@,
{
    CallerResponse { status, headers: copy_response_headers(upstream), body: RelayBody::Buffered(body) }
}

/// Assembles the head of the streaming reply: the upstream status and the
/// event-stream header set. The chunks follow through a `StreamRelay`.
pub fn streaming_reply(status: u16, upstream: &Vec<Header>) -> (r: CallerResponse)
    ensures
        r.status == status,
        spec_headers(r.headers@) == spec_streaming_headers(spec_headers(upstream@)),
        r.body is Streaming,
{
    CallerResponse {
        status,
        headers: streaming_response_headers(upstream),
        body: RelayBody::Streaming,
    }
}

/// Assembles the JSON reply for one failure: its status code, a single
/// `Content-Type: application/json` header, and the fixed error body.
pub fn error_reply(e: &ProxyError) -> (r: CallerResponse)
    ensures
        r.status == spec_status_of(e@.kind),
        spec_headers(r.headers@) == seq![
            (SpecHeader {
                name: "content-type".spec_bytes(),
                value: "application/json".spec_bytes(),
            }),
        ],
        r.body is Buffered,
        spec_body_bytes(r.body) == spec_error_body(e@),
{
    let mut headers: Vec<Header> = Vec::new();
    headers.push(
        Header { name: str_to_bytes("content-type"), value: str_to_bytes("application/json") },
    );
    let body = e.body();
    let r = CallerResponse { status: e.status_code(), headers, body: RelayBody::Buffered(body) };
    proof {
        assert(spec_headers(r.headers@) =~= seq![
            (SpecHeader {
                name: "content-type".spec_bytes(),
                value: "application/json".spec_bytes(),
            }),
        ]);
    }
    r
}

/// The pass-through chunk relay of one streaming response.
///
/// Each upstream chunk is forwarded unchanged, as soon as it arrives; the
/// ghost log records every chunk forwarded so far, in order. The stream ends
/// when upstream closes (or the caller goes away), never by the relay.
pub struct StreamRelay {
    pub forwarded: Ghost<Seq<Seq<u8>>>,
}

impl StreamRelay {
    /// Opens the relay for one streaming response; nothing is forwarded yet.
    pub fn new() -> (r: StreamRelay)
        ensures
            r.forwarded@ == Seq::<Seq<u8>>::empty(),
    {
        StreamRelay { forwarded: Ghost(Seq::empty()) }
    }

    /// Forwards one upstream chunk to the caller, unchanged.
    pub fn on_chunk(&mut self, chunk: Vec<u8>) -> (out: Vec<u8>)
        ensures
            out@ == chunk@,
            final(self).forwarded@ == old(self).forwarded@.push(chunk@),
    {
        proof {
            self.forwarded@ = self.forwarded@.push(chunk@);
        }
        chunk
    }
}

/// Relays a whole chunk sequence: exactly one output chunk per input chunk,
/// byte-identical and in the same order — none merged, none dropped.
pub fn relay_chunks(chunks: &Vec<Vec<u8>>) -> (r: Vec<Vec<u8>>)
    ensures
        r@.len() == chunks@.len(),
        forall|i: int| 0 <= i < chunks@.len() ==> (#[trigger] r@[i])@ == chunks@[i]@,
{
    let mut relay = StreamRelay::new();
    let mut out: Vec<Vec<u8>> = Vec::new();
    let mut i: usize = 0;
    while i < chunks.len()
        invariant
            0 <= i <= chunks@.len(),
            out@.len() == i,
            relay.forwarded@.len() == i,
            forall|k: int| 0 <= k < i ==> (#[trigger] out@[k])@ == chunks@[k]@,
            forall|k: int| 0 <= k < i ==> (#[trigger] relay.forwarded@[k]) == chunks@[k]@,
        decreases chunks@.len() - i,
    {
        let c = copy_bytes(&chunks[i]);
        let f = relay.on_chunk(c);
        out.push(f);
        i = i + 1;
    }
    out
}

} // verus!

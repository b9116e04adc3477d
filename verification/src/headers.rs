//! Header reconciliation between the caller-facing and the upstream-facing
//! HTTP connections.
//!
//! Headers are modeled as ordered name/value byte pairs; names compare
//! case-insensitively. Copying upstream response headers back to the caller
//! drops the hop-by-hop set (`Transfer-Encoding`, `Connection`); the
//! streaming variant additionally forces `Content-Type: text/event-stream`
//! and adds `Cache-Control: no-cache` and `Connection: keep-alive`. Outbound
//! headers always carry `Content-Type: application/json` and an injected
//! `Authorization: Bearer <credential>`, overwriting caller-supplied values.

use vstd::prelude::*;
use vstd::string::StringSliceAdditionalSpecFns;
use crate::bytes::{spec_lower, name_matches, str_to_bytes, copy_bytes, push_str_bytes, push_bytes};
use crate::spec_valid_header_byte;
use crate::valid_header_byte;

verus! {

/// One HTTP header: a name and a value, both raw bytes.
#[derive(Debug)]
pub struct Header {
    pub name: Vec<u8>,
    pub value: Vec<u8>,
}

/// The mathematical value of one header.
pub struct SpecHeader {
    pub name: Seq<u8>,
    pub value: Seq<u8>,
}

impl View for Header {
    type V = SpecHeader;

    open spec fn view(&self) -> SpecHeader {
        SpecHeader { name: self.name@, value: self.value@ }
    }
}

/// The mathematical value of a header list.
pub open spec fn spec_headers(hs: Seq<Header>) -> Seq<SpecHeader> {
    hs.map_values(|h: Header| h@)
}

/// Two header names are the same up to ASCII case.
pub open spec fn spec_name_is(name: Seq<u8>, target: Seq<u8>) -> bool {
    spec_lower(name) == spec_lower(target)
}

/// The name is one of the hop-by-hop headers that must never be copied
/// between the two connections.
pub open spec fn spec_is_hop_by_hop(name: Seq<u8>) -> bool {
    ||| spec_name_is(name, "transfer-encoding".spec_bytes())
    ||| spec_name_is(name, "connection".spec_bytes())
}

/// The header survives the copy from upstream to the caller.
pub open spec fn spec_keep_buffered(h: SpecHeader) -> bool {
    !spec_is_hop_by_hop(h.name)
}

/// The header survives the copy in streaming mode, where `Content-Type` is
/// replaced as well.
pub open spec fn spec_keep_streaming(h: SpecHeader) -> bool {
    &&& !spec_is_hop_by_hop(h.name)
    &&& !spec_name_is(h.name, "content-type".spec_bytes())
}

/// The caller-visible headers of a buffered relay: every upstream header in
/// order, minus the hop-by-hop set.
pub open spec fn spec_buffered_headers(up: Seq<SpecHeader>) -> Seq<SpecHeader> {
    up.filter(|h: SpecHeader| spec_keep_buffered(h))
}

/// The three headers that every streaming response starts with.
pub open spec fn spec_streaming_fixed() -> Seq<SpecHeader> {
    seq![
        (SpecHeader { name: "content-type".spec_bytes(), value: "text/event-stream".spec_bytes() }),
        (SpecHeader { name: "cache-control".spec_bytes(), value: "no-cache".spec_bytes() }),
        (SpecHeader { name: "connection".spec_bytes(), value: "keep-alive".spec_bytes() }),
    ]
}

/// The caller-visible headers of a streaming relay: the fixed set, then every
/// upstream header in order minus hop-by-hop and `Content-Type`.
pub open spec fn spec_streaming_headers(up: Seq<SpecHeader>) -> Seq<SpecHeader> {
    spec_streaming_fixed() + up.filter(|h: SpecHeader| spec_keep_streaming(h))
}

/// Every byte of the sequence may stand in an HTTP header value.
pub open spec fn spec_valid_header_value(s: Seq<u8>) -> bool {
    forall|i: int| 0 <= i < s.len() ==> spec_valid_header_byte(#[trigger] s[i])
}

/// The Authorization value injected for a credential.
pub open spec fn spec_bearer_value(credential: Seq<u8>) -> Seq<u8> {
    "Bearer ".spec_bytes() + credential
}

/// The fixed outbound header set for a credential.
pub open spec fn spec_outbound_fixed(credential: Seq<u8>) -> Seq<SpecHeader> {
    seq![
        (SpecHeader { name: "content-type".spec_bytes(), value: "application/json".spec_bytes() }),
        (SpecHeader { name: "authorization".spec_bytes(), value: spec_bearer_value(credential) }),
    ]
}

/// The header is one the outbound builder overwrites.
pub open spec fn spec_overwritten_outbound(h: SpecHeader) -> bool {
    ||| spec_name_is(h.name, "content-type".spec_bytes())
    ||| spec_name_is(h.name, "authorization".spec_bytes())
}

/// The outbound header set of the pass-through policy: every inbound header
/// except the two overwritten ones, then the fixed set.
pub open spec fn spec_outbound_passthrough(inbound: Seq<SpecHeader>, credential: Seq<u8>) -> Seq<
    SpecHeader,
> {
    inbound.filter(|h: SpecHeader| !spec_overwritten_outbound(h)) + spec_outbound_fixed(credential)
}

/// Law: the buffered copy keeps exactly the upstream headers outside the
/// hop-by-hop set — every copied header is one of upstream's and is not
/// hop-by-hop, and every non-hop-by-hop upstream header is copied.
pub proof fn lemma_buffered_headers_exact(up: Seq<SpecHeader>)
    ensures
        forall|i: int|
            0 <= i < spec_buffered_headers(up).len() ==> !spec_is_hop_by_hop(
                (#[trigger] spec_buffered_headers(up)[i]).name,
            ) && up.contains(spec_buffered_headers(up)[i]),
        forall|i: int|
            0 <= i < up.len() && !spec_is_hop_by_hop((#[trigger] up[i]).name)
                ==> spec_buffered_headers(up).contains(up[i]),
{
    broadcast use vstd::seq_lib::group_filter_ensures;

    assert forall|i: int| 0 <= i < spec_buffered_headers(up).len() implies !spec_is_hop_by_hop(
        (#[trigger] spec_buffered_headers(up)[i]).name,
    ) && up.contains(spec_buffered_headers(up)[i]) by {
        let pred = |h: SpecHeader| spec_keep_buffered(h);
        assert(pred(up.filter(pred)[i]));
        assert(up.filter(pred).contains(up.filter(pred)[i]));
        up.lemma_filter_contains_rev(pred, up.filter(pred)[i]);
    }
}

/// Appending one element to a sequence filters to the filtered sequence,
/// extended with the element exactly when it satisfies the predicate.
pub proof fn lemma_filter_push<A>(s: Seq<A>, x: A, pred: spec_fn(A) -> bool)
    ensures
        pred(x) ==> s.push(x).filter(pred) == s.filter(pred).push(x),
        !pred(x) ==> s.push(x).filter(pred) == s.filter(pred),
{
    reveal(Seq::filter);
    assert(s.push(x).drop_last() =~= s);
    assert(s.push(x).last() == x);
}

/// Decides whether a header name is hop-by-hop.
pub fn is_hop_by_hop(name: &Vec<u8>) -> (r: bool)
    ensures
        r == spec_is_hop_by_hop(name@),
{
    let te = str_to_bytes("transfer-encoding");
    let conn = str_to_bytes("connection");
    name_matches(name, &te) || name_matches(name, &conn)
}

/// Decides whether a header name equals `target` up to ASCII case, where
/// `target` is given as a string literal.
fn name_is_lit(name: &Vec<u8>, target: &str) -> (r: bool)
    ensures
        r == spec_name_is(name@, target.spec_bytes()),
{
    let t = str_to_bytes(target);
    name_matches(name, &t)
}

/// Returns a copy of one header.
pub fn copy_header(h: &Header) -> (r: Header)
    ensures
        r@ == h@,
{
    Header { name: copy_bytes(&h.name), value: copy_bytes(&h.value) }
}

/// Copies the upstream response headers for a buffered reply: every header
/// in order except the hop-by-hop set.
pub fn copy_response_headers(upstream: &Vec<Header>) -> (r: Vec<Header>)
    ensures
        spec_headers(r@) == spec_buffered_headers(spec_headers(upstream@)),
{
    let mut out: Vec<Header> = Vec::new();
    let mut i: usize = 0;
    proof {
        assert(spec_headers(upstream@.subrange(0, 0)) =~= Seq::<SpecHeader>::empty());
        reveal(Seq::filter);
    }
    while i < upstream.len()
        invariant
            0 <= i <= upstream@.len(),
            spec_headers(out@) =~= spec_buffered_headers(
                spec_headers(upstream@.subrange(0, i as int)),
            ),
        decreases upstream@.len() - i,
    {
        let h = &upstream[i];
        let ghost pre = spec_headers(upstream@.subrange(0, i as int));
        if !is_hop_by_hop(&h.name) {
            let c = copy_header(h);
            out.push(c);
        }
        proof {
            assert(spec_headers(upstream@.subrange(0, i + 1 as int)) =~= pre.push(
                upstream@[i as int]@,
            ));
            lemma_filter_push(pre, upstream@[i as int]@, |x: SpecHeader| spec_keep_buffered(x));
            assert(spec_headers(out@) =~= spec_buffered_headers(
                spec_headers(upstream@.subrange(0, i + 1 as int)),
            ));
        }
        i = i + 1;
    }
    proof {
        assert(upstream@.subrange(0, upstream@.len() as int) =~= upstream@);
    }
    out
}

/// Builds the caller-visible headers of a streaming reply: the fixed
/// event-stream set, then every upstream header in order except hop-by-hop
/// and `Content-Type`.
pub fn streaming_response_headers(upstream: &Vec<Header>) -> (r: Vec<Header>)
    ensures
        spec_headers(r@) == spec_streaming_headers(spec_headers(upstream@)),
{
    let mut out: Vec<Header> = Vec::new();
    out.push(Header { name: str_to_bytes("content-type"), value: str_to_bytes("text/event-stream") });
    out.push(Header { name: str_to_bytes("cache-control"), value: str_to_bytes("no-cache") });
    out.push(Header { name: str_to_bytes("connection"), value: str_to_bytes("keep-alive") });
    proof {
        assert(spec_headers(out@) =~= spec_streaming_fixed());
        assert(spec_headers(upstream@.subrange(0, 0)) =~= Seq::<SpecHeader>::empty());
        reveal(Seq::filter);
        assert(spec_headers(out@) =~= spec_streaming_fixed() + spec_headers(
            upstream@.subrange(0, 0),
        ).filter(|x: SpecHeader| spec_keep_streaming(x)));
    }
    let mut i: usize = 0;
    while i < upstream.len()
        invariant
            0 <= i <= upstream@.len(),
            spec_headers(out@) =~= spec_streaming_fixed() + spec_headers(
                upstream@.subrange(0, i as int),
            ).filter(|x: SpecHeader| spec_keep_streaming(x)),
        decreases upstream@.len() - i,
    {
        let h = &upstream[i];
        let ghost pre = spec_headers(upstream@.subrange(0, i as int));
        let ghost out0 = out@;
        if !is_hop_by_hop(&h.name) && !name_is_lit(&h.name, "content-type") {
            let c = copy_header(h);
            out.push(c);
            proof {
                assert(spec_headers(out@) =~= spec_headers(out0).push(upstream@[i as int]@));
            }
        }
        proof {
            let x = upstream@[i as int]@;
            let keep = |y: SpecHeader| spec_keep_streaming(y);
            assert(spec_headers(upstream@.subrange(0, i + 1 as int)) =~= pre.push(x));
            lemma_filter_push(pre, x, keep);
            if keep(x) {
                assert(spec_headers(out@) =~= (spec_streaming_fixed() + pre.filter(keep)).push(x));
                assert((spec_streaming_fixed() + pre.filter(keep)).push(x) =~= spec_streaming_fixed()
                    + pre.filter(keep).push(x));
            }
            assert(spec_headers(out@) =~= spec_streaming_fixed() + spec_headers(
                upstream@.subrange(0, i + 1 as int),
            ).filter(keep));
        }
        i = i + 1;
    }
    proof {
        assert(upstream@.subrange(0, upstream@.len() as int) =~= upstream@);
    }
    out
}

/// Decides whether every byte of `s` may stand in an HTTP header value.
pub fn is_valid_header_value(s: &Vec<u8>) -> (r: bool)
    ensures
        r == spec_valid_header_value(s@),
{
    let mut i: usize = 0;
    while i < s.len()
        invariant
            0 <= i <= s@.len(),
            forall|k: int| 0 <= k < i ==> spec_valid_header_byte(#[trigger] s@[k]),
        decreases s@.len() - i,
    {
        if !valid_header_byte(s[i]) {
            return false;
        }
        i = i + 1;
    }
    true
}

/// Builds the minimal outbound header set: `Content-Type: application/json`
/// and `Authorization: Bearer <credential>`. Returns `None` exactly when the
/// credential holds a byte that cannot stand in a header value.
pub fn build_outbound_headers(credential: &Vec<u8>) -> (r: Option<Vec<Header>>)
    ensures
        r is Some <==> spec_valid_header_value(credential@),
        r is Some ==> spec_headers(r.unwrap()@) == spec_outbound_fixed(credential@),
{
    if !is_valid_header_value(credential) {
        return None;
    }
    let mut auth: Vec<u8> = Vec::new();
    push_str_bytes(&mut auth, "Bearer ");
    push_bytes(&mut auth, credential);
    let mut out: Vec<Header> = Vec::new();
    out.push(Header { name: str_to_bytes("content-type"), value: str_to_bytes("application/json") });
    out.push(Header { name: str_to_bytes("authorization"), value: auth });
    proof {
        assert(spec_headers(out@) =~= spec_outbound_fixed(credential@));
    }
    Some(out)
}

/// Builds the outbound header set of the pass-through policy: every inbound
/// header except `Content-Type` and `Authorization`, then the fixed set.
/// Returns `None` exactly when the credential cannot stand in a header value.
pub fn build_outbound_passthrough(inbound: &Vec<Header>, credential: &Vec<u8>) -> (r: Option<
    Vec<Header>,
>)
    ensures
        r is Some <==> spec_valid_header_value(credential@),
        r is Some ==> spec_headers(r.unwrap()@) == spec_outbound_passthrough(
            spec_headers(inbound@),
            credential@,
        ),
{
    if !is_valid_header_value(credential) {
        return None;
    }
    let mut out: Vec<Header> = Vec::new();
    proof {
        assert(spec_headers(out@) =~= spec_headers(inbound@.subrange(0, 0)).filter(
            |x: SpecHeader| !spec_overwritten_outbound(x),
        ));
        reveal(Seq::filter);
    }
    let mut i: usize = 0;
    while i < inbound.len()
        invariant
            0 <= i <= inbound@.len(),
            spec_headers(out@) =~= spec_headers(inbound@.subrange(0, i as int)).filter(
                |x: SpecHeader| !spec_overwritten_outbound(x),
            ),
        decreases inbound@.len() - i,
    {
        let h = &inbound[i];
        let ghost pre = spec_headers(inbound@.subrange(0, i as int));
        if !name_is_lit(&h.name, "content-type") && !name_is_lit(&h.name, "authorization") {
            let c = copy_header(h);
            out.push(c);
        }
        proof {
            assert(spec_headers(inbound@.subrange(0, i + 1 as int)) =~= pre.push(
                inbound@[i as int]@,
            ));
            lemma_filter_push(pre, inbound@[i as int]@, |x: SpecHeader| !spec_overwritten_outbound(x));
            assert(spec_headers(out@) =~= spec_headers(inbound@.subrange(0, i + 1 as int)).filter(
                |x: SpecHeader| !spec_overwritten_outbound(x),
            ));
        }
        i = i + 1;
    }
    let mut auth: Vec<u8> = Vec::new();
    push_str_bytes(&mut auth, "Bearer ");
    push_bytes(&mut auth, credential);
    out.push(Header { name: str_to_bytes("content-type"), value: str_to_bytes("application/json") });
    out.push(Header { name: str_to_bytes("authorization"), value: auth });
    proof {
        assert(inbound@.subrange(0, inbound@.len() as int) =~= inbound@);
        assert(spec_headers(out@) =~= spec_outbound_passthrough(
            spec_headers(inbound@),
            credential@,
        ));
    }
    Some(out)
}

} // verus!

//! Decoding and rewriting of the chat-completion request payload.
//!
//! A request body is modeled by its top-level JSON object: an ordered list of
//! entries, each a key (the raw string) and a value (the value's compact JSON
//! text). Decoding and value serialization are done by serde_json behind
//! trusted wrappers; everything after — reading the streaming flag, replacing
//! the `model` field, and re-serializing the object — is verified.

use vstd::prelude::*;
use vstd::string::StringSliceAdditionalSpecFns;
use crate::bytes::{bytes_eq, copy_bytes, str_to_bytes};
use crate::jsontext::{spec_json_string, push_json_string};
use crate::bytes::push_bytes;
use crate::errors::{ProxyError, ProxyErrorKind};

verus! {

#[verifier::external_type_specification]
#[verifier::external_body]
pub struct ExValue(serde_json::Value);

/// The compact JSON text that serializing a decoded value yields. The text
/// is a function of the value alone.
pub uninterp spec fn text_of(v: serde_json::Value) -> Seq<u8>;

/// The keys of the top-level object of a JSON document, in the decoded map's
/// order (sorted, duplicates collapsed); `None` when the bytes are not one
/// JSON document with a top-level object.
pub uninterp spec fn obj_keys_of(b: Seq<u8>) -> Option<Seq<Seq<u8>>>;

/// The compact JSON text of the value at `key` in the document's top-level
/// object.
pub uninterp spec fn obj_val_of(b: Seq<u8>, key: Seq<u8>) -> Seq<u8>;

/// Relies on serde_json::from_slice, decoding into serde_json::Map: it
/// succeeds exactly when the bytes are one JSON document whose top level is
/// an object, and yields the object's entries in the map's order, the last
/// value winning for a repeated key. On failure it yields the decoder's
/// message.
#[verifier::external_body]
fn parse_object(bytes: &Vec<u8>) -> (r: Result<Vec<(Vec<u8>, serde_json::Value)>, Vec<u8>>)
    ensures
        r is Ok <==> obj_keys_of(bytes@) is Some,
        r is Ok ==> {
            let keys = obj_keys_of(bytes@).unwrap();
            &&& r.unwrap()@.len() == keys.len()
            &&& forall|i: int|
                0 <= i < keys.len() ==> (#[trigger] r.unwrap()@[i]).0@ == keys[i]
            &&& forall|i: int|
                0 <= i < keys.len() ==> text_of((#[trigger] r.unwrap()@[i]).1) == obj_val_of(
                    bytes@,
                    keys[i],
                )
        },
{
    match serde_json::from_slice::<serde_json::Map<String, serde_json::Value>>(bytes.as_slice()) {
        Ok(m) => Ok(m.into_iter().map(|(k, v)| (k.into_bytes(), v)).collect()),
        Err(e) => Err(e.to_string().into_bytes()),
    }
}

/// Relies on serde_json::to_string: serializing a decoded value yields its
/// compact JSON text and does not fail, since every key of a decoded map is
/// a string.
#[verifier::external_body]
fn value_text(v: &serde_json::Value) -> (r: Vec<u8>)
    ensures
        r@ == text_of(*v),
{
    match serde_json::to_string(v) {
        Ok(s) => s.into_bytes(),
        Err(_) => Vec::new(),
    }
}

/// One top-level entry of the payload object: the key's raw bytes and the
/// value's compact JSON text.
#[derive(Debug)]
pub struct JsonEntry {
    pub key: Vec<u8>,
    pub value: Vec<u8>,
}

/// The mathematical value of one entry.
pub struct SpecJsonEntry {
    pub key: Seq<u8>,
    pub value: Seq<u8>,
}

impl View for JsonEntry {
    type V = SpecJsonEntry;

    open spec fn view(&self) -> SpecJsonEntry {
        SpecJsonEntry { key: self.key@, value: self.value@ }
    }
}

/// A decoded request payload: the ordered entries of its top-level object.
#[derive(Debug)]
pub struct ChatPayload {
    pub entries: Vec<JsonEntry>,
}

impl View for ChatPayload {
    type V = Seq<SpecJsonEntry>;

    open spec fn view(&self) -> Seq<SpecJsonEntry> {
        self.entries@.map_values(|e: JsonEntry| e@)
    }
}

/// The payload that decoding a JSON document yields: one entry per key of
/// the top-level object, in order.
pub open spec fn spec_payload_of(b: Seq<u8>) -> Seq<SpecJsonEntry>
    recommends
        obj_keys_of(b) is Some,
{
    let keys = obj_keys_of(b).unwrap();
    Seq::new(keys.len(), |i: int| SpecJsonEntry { key: keys[i], value: obj_val_of(b, keys[i]) })
}

/// Decodes a request body into its payload; the error carries the decoder's
/// message. Decoding fails exactly when the bytes are not one JSON document
/// with a top-level object.
pub fn decode_payload(bytes: &Vec<u8>) -> (r: Result<ChatPayload, Vec<u8>>)
    ensures
        r is Ok <==> obj_keys_of(bytes@) is Some,
        r is Ok ==> r.unwrap()@ == spec_payload_of(bytes@),
{
    let pairs = match parse_object(bytes) {
        Ok(p) => p,
        Err(e) => {
            return Err(e);
        },
    };
    let mut entries: Vec<JsonEntry> = Vec::new();
    let mut i: usize = 0;
    while i < pairs.len()
        invariant
            obj_keys_of(bytes@) is Some,
            pairs@.len() == obj_keys_of(bytes@).unwrap().len(),
            forall|k: int|
                0 <= k < pairs@.len() ==> (#[trigger] pairs@[k]).0@ == obj_keys_of(
                    bytes@,
                ).unwrap()[k],
            forall|k: int|
                0 <= k < pairs@.len() ==> text_of((#[trigger] pairs@[k]).1) == obj_val_of(
                    bytes@,
                    obj_keys_of(bytes@).unwrap()[k],
                ),
            0 <= i <= pairs@.len(),
            entries@.map_values(|e: JsonEntry| e@) =~= spec_payload_of(bytes@).subrange(
                0,
                i as int,
            ),
        decreases pairs@.len() - i,
    {
        let ghost pre = entries@;
        let pair = &pairs[i];
        let k = copy_bytes(&pair.0);
        let t = value_text(&pair.1);
        entries.push(JsonEntry { key: k, value: t });
        proof {
            let e_new = SpecJsonEntry {
                key: obj_keys_of(bytes@).unwrap()[i as int],
                value: obj_val_of(bytes@, obj_keys_of(bytes@).unwrap()[i as int]),
            };
            assert(k@ == obj_keys_of(bytes@).unwrap()[i as int]);
            assert(t@ == obj_val_of(bytes@, obj_keys_of(bytes@).unwrap()[i as int]));
            assert(entries@ =~= pre.push(JsonEntry { key: k, value: t }));
            assert(entries@.map_values(|e: JsonEntry| e@) =~= pre.map_values(
                |e: JsonEntry| e@,
            ).push(e_new));
            assert(spec_payload_of(bytes@)[i as int] == e_new);
            assert(entries@.map_values(|e: JsonEntry| e@) =~= spec_payload_of(bytes@).subrange(
                0,
                i + 1 as int,
            ));
        }
        i = i + 1;
    }
    proof {
        assert(spec_payload_of(bytes@).subrange(0, spec_payload_of(bytes@).len() as int)
            =~= spec_payload_of(bytes@));
    }
    Ok(ChatPayload { entries })
}

/// The key whose value the rewriter replaces.
pub open spec fn spec_model_key() -> Seq<u8> {
    "model".spec_bytes()
}

/// The key that carries the streaming flag.
pub open spec fn spec_stream_key() -> Seq<u8> {
    "stream".spec_bytes()
}

/// The payload requests streaming: its top-level object holds a `stream`
/// entry whose value is the JSON boolean true. A missing `stream` key or a
/// value of any other JSON type (whose text is never `true`) counts as false.
pub open spec fn spec_stream_flag(es: Seq<SpecJsonEntry>) -> bool {
    exists|i: int|
        0 <= i < es.len() && (#[trigger] es[i]).key == spec_stream_key() && es[i].value
            == "true".spec_bytes()
}

impl ChatPayload {
    /// Reads the streaming flag of the payload.
    pub fn stream_flag(&self) -> (r: bool)
        ensures
            r == spec_stream_flag(self@),
    {
        let skey = str_to_bytes("stream");
        let strue = str_to_bytes("true");
        let mut i: usize = 0;
        while i < self.entries.len()
            invariant
                skey@ == spec_stream_key(),
                strue@ == "true".spec_bytes(),
                0 <= i <= self.entries@.len(),
                forall|k: int|
                    0 <= k < i ==> !((#[trigger] self@[k]).key == spec_stream_key() && self@[k].value
                        == "true".spec_bytes()),
            decreases self.entries@.len() - i,
        {
            let e = &self.entries[i];
            if bytes_eq(&e.key, &skey) && bytes_eq(&e.value, &strue) {
                proof {
                    assert((#[trigger] self@[i as int]).key == spec_stream_key() && self@[
                        i as int
                    ].value == "true".spec_bytes());
                }
                return true;
            }
            i = i + 1;
        }
        false
    }
}

/// One entry after the rewrite: a `model` entry takes the configured value,
/// any other entry is unchanged.
pub open spec fn spec_rewrite_entry(e: SpecJsonEntry, model: Seq<u8>) -> SpecJsonEntry {
    if e.key == spec_model_key() {
        SpecJsonEntry { key: e.key, value: spec_json_string(model) }
    } else {
        e
    }
}

/// The payload after the model rewrite: every `model` entry's value becomes
/// the JSON string of the configured identifier; when no `model` key exists,
/// one is appended. No other entry changes and no entry moves.
pub open spec fn spec_rewrite(es: Seq<SpecJsonEntry>, model: Seq<u8>) -> Seq<SpecJsonEntry> {
    let mapped = es.map_values(|e: SpecJsonEntry| spec_rewrite_entry(e, model));
    if exists|i: int| 0 <= i < es.len() && (#[trigger] es[i]).key == spec_model_key() {
        mapped
    } else {
        mapped.push(SpecJsonEntry { key: spec_model_key(), value: spec_json_string(model) })
    }
}

impl ChatPayload {
    /// Replaces the payload's declared model with the configured identifier,
    /// creating the entry when it is absent.
    pub fn rewrite_model(&self, model: &Vec<u8>) -> (r: ChatPayload)
        ensures
            r@ == spec_rewrite(self@, model@),
    {
        let mut entries: Vec<JsonEntry> = Vec::new();
        let mut found = false;
        let mkey = str_to_bytes("model");
        let mut i: usize = 0;
        while i < self.entries.len()
            invariant
                0 <= i <= self.entries@.len(),
                mkey@ == spec_model_key(),
                found <==> (exists|k: int|
                    0 <= k < i && (#[trigger] self@[k]).key == spec_model_key()),
                entries@.map_values(|e: JsonEntry| e@) =~= self@.subrange(0, i as int).map_values(
                    |e: SpecJsonEntry| spec_rewrite_entry(e, model@),
                ),
            decreases self.entries@.len() - i,
        {
            let e = &self.entries[i];
            let ghost pre = entries@;
            let ghost x = self@[i as int];
            proof {
                assert(x == self.entries@[i as int]@);
            }
            if bytes_eq(&e.key, &mkey) {
                let mut v: Vec<u8> = Vec::new();
                push_json_string(&mut v, model);
                entries.push(JsonEntry { key: copy_bytes(&e.key), value: v });
                found = true;
                proof {
                    assert((#[trigger] self@[i as int]).key == spec_model_key());
                }
            } else {
                entries.push(JsonEntry { key: copy_bytes(&e.key), value: copy_bytes(&e.value) });
            }
            proof {
                assert(entries@.map_values(|e: JsonEntry| e@) =~= pre.map_values(
                    |e: JsonEntry| e@,
                ).push(spec_rewrite_entry(x, model@)));
                assert(self@.subrange(0, i + 1 as int) =~= self@.subrange(0, i as int).push(x));
                assert(self@.subrange(0, i + 1 as int).map_values(
                    |e: SpecJsonEntry| spec_rewrite_entry(e, model@),
                ) =~= self@.subrange(0, i as int).map_values(
                    |e: SpecJsonEntry| spec_rewrite_entry(e, model@),
                ).push(spec_rewrite_entry(x, model@)));
                assert(entries@.map_values(|e: JsonEntry| e@) =~= self@.subrange(
                    0,
                    i + 1 as int,
                ).map_values(|e: SpecJsonEntry| spec_rewrite_entry(e, model@)));
            }
            i = i + 1;
        }
        if !found {
            let mut v: Vec<u8> = Vec::new();
            push_json_string(&mut v, model);
            entries.push(JsonEntry { key: mkey, value: v });
        }
        proof {
            assert(self@.subrange(0, self@.len() as int) =~= self@);
            assert(entries@.map_values(|e: JsonEntry| e@) =~= spec_rewrite(self@, model@));
        }
        ChatPayload { entries }
    }
}

/// Law: a payload whose top-level object lacks a `stream` key has streaming
/// flag false.
pub proof fn lemma_missing_stream_key_defaults_false(es: Seq<SpecJsonEntry>)
    requires
        forall|i: int| 0 <= i < es.len() ==> (#[trigger] es[i]).key != spec_stream_key(),
    ensures
        !spec_stream_flag(es),
{
}

/// Law: whatever the original payload held — a `model` entry with any value,
/// or none at all — the rewritten payload holds a `model` entry with the
/// configured value, every `model` entry carries that value, every other
/// entry is unchanged, and no entry is removed or moved.
pub proof fn lemma_rewrite_sets_model(es: Seq<SpecJsonEntry>, model: Seq<u8>)
    ensures
        spec_rewrite(es, model).len() >= es.len(),
        forall|i: int|
            0 <= i < es.len() ==> (#[trigger] spec_rewrite(es, model)[i]).key == es[i].key,
        forall|i: int|
            0 <= i < es.len() && es[i].key != spec_model_key() ==> (#[trigger] spec_rewrite(
                es,
                model,
            )[i]) == es[i],
        forall|i: int|
            0 <= i < spec_rewrite(es, model).len() && (#[trigger] spec_rewrite(es, model)[i]).key
                == spec_model_key() ==> spec_rewrite(es, model)[i].value == spec_json_string(model),
        exists|i: int|
            0 <= i < spec_rewrite(es, model).len() && (#[trigger] spec_rewrite(es, model)[i]).key
                == spec_model_key(),
{
    let r = spec_rewrite(es, model);
    if exists|i: int| 0 <= i < es.len() && (#[trigger] es[i]).key == spec_model_key() {
        let j = choose|i: int| 0 <= i < es.len() && (#[trigger] es[i]).key == spec_model_key();
        assert(r[j].key == spec_model_key());
    } else {
        assert(r[es.len() as int].key == spec_model_key());
    }
}

/// The compact JSON text of one object entry.
pub open spec fn spec_entry_text(e: SpecJsonEntry) -> Seq<u8> {
    spec_json_string(e.key) + seq![58u8] + e.value
}

/// The comma-separated entry list of the object's compact JSON text.
pub open spec fn spec_entries_text(es: Seq<SpecJsonEntry>) -> Seq<u8>
    decreases es.len(),
{
    if es.len() == 0 {
        Seq::empty()
    } else if es.len() == 1 {
        spec_entry_text(es[0])
    } else {
        spec_entries_text(es.drop_last()) + seq![44u8] + spec_entry_text(es.last())
    }
}

/// The compact JSON text of the whole object.
pub open spec fn spec_serialize_object(es: Seq<SpecJsonEntry>) -> Seq<u8> {
    seq![123u8] + spec_entries_text(es) + seq![125u8]
}

impl ChatPayload {
    /// Serializes the payload back to one compact JSON object.
    pub fn serialize(&self) -> (r: Vec<u8>)
        ensures
            r@ == spec_serialize_object(self@),
    {
        let mut out: Vec<u8> = Vec::new();
        out.push(123);
        let mut i: usize = 0;
        while i < self.entries.len()
            invariant
                0 <= i <= self.entries@.len(),
                out@ =~= seq![123u8] + spec_entries_text(self@.subrange(0, i as int)),
            decreases self.entries@.len() - i,
        {
            if i > 0 {
                out.push(44);
            }
            let e = &self.entries[i];
            push_json_string(&mut out, &e.key);
            out.push(58);
            push_bytes(&mut out, &e.value);
            proof {
                let pre = self@.subrange(0, i as int);
                let ext = self@.subrange(0, i + 1 as int);
                assert(ext.drop_last() =~= pre);
                assert(ext.last() == self@[i as int]);
                if i == 0 {
                    assert(spec_entries_text(ext) == spec_entry_text(self@[0]));
                }
                assert(out@ =~= seq![123u8] + spec_entries_text(ext));
            }
            i = i + 1;
        }
        out.push(125);
        proof {
            assert(self@.subrange(0, self@.len() as int) =~= self@);
            assert(out@ =~= spec_serialize_object(self@));
        }
        out
    }
}

/// A rewritten request, ready to be forwarded: the outbound body bytes and
/// the streaming flag read from the inbound payload.
#[derive(Debug)]
pub struct RewrittenRequest {
    pub body: Vec<u8>,
    pub stream: bool,
}

/// The outbound body when rewriting is configured: the decoded object with
/// its model replaced, re-serialized.
pub open spec fn spec_rewritten_body(b: Seq<u8>, model: Seq<u8>) -> Seq<u8> {
    spec_serialize_object(spec_rewrite(spec_payload_of(b), model))
}

/// Decodes the inbound body and applies the configured rewrite.
///
/// With a configured model, a body that is not one JSON object is rejected;
/// otherwise the model entry is replaced and the object re-serialized. With
/// no configured model the body passes through byte-for-byte and decoding is
/// only a peek at the streaming flag, false when the peek fails.
pub fn rewrite_request(body: &Vec<u8>, default_model: &Option<Vec<u8>>) -> (r: Result<
    RewrittenRequest,
    ProxyError,
>)
    ensures
        r is Err <==> (default_model is Some && obj_keys_of(body@) is None),
        r is Err ==> {
            &&& r.unwrap_err()@.kind == ProxyErrorKind::BadRequest
            &&& crate::errors::spec_wf_error(r.unwrap_err()@)
        },
        (r is Ok && default_model is Some) ==> {
            &&& r.unwrap().body@ == spec_rewritten_body(body@, default_model.unwrap()@)
            &&& r.unwrap().stream == spec_stream_flag(spec_payload_of(body@))
        },
        (r is Ok && default_model is None) ==> {
            &&& r.unwrap().body@ == body@
            &&& r.unwrap().stream == (obj_keys_of(body@) is Some && spec_stream_flag(
                spec_payload_of(body@),
            ))
        },
{
    match default_model {
        Some(model) => {
            match decode_payload(body) {
                Ok(payload) => {
                    let stream = payload.stream_flag();
                    let rewritten = payload.rewrite_model(model);
                    let out = rewritten.serialize();
                    Ok(RewrittenRequest { body: out, stream })
                },
                Err(details) => {
                    Err(ProxyError::new(ProxyErrorKind::BadRequest, details))
                },
            }
        },
        None => {
            let stream = match decode_payload(body) {
                Ok(payload) => payload.stream_flag(),
                Err(_) => false,
            };
            Ok(RewrittenRequest { body: copy_bytes(body), stream })
        },
    }
}

} // verus!

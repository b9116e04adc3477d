use chat_relay::errors::{ProxyError, ProxyErrorKind};
use chat_relay::handler::{HeaderPolicy, ProxyConfig, forward_failure_reply, prepare_forward, read_failure_reply};
use chat_relay::headers::{
    Header, build_outbound_headers, build_outbound_passthrough, copy_response_headers,
    streaming_response_headers,
};
use chat_relay::payload::decode_payload;
use chat_relay::relay::{RelayBody, StreamDetectionPolicy, StreamRelay, buffered_reply, relay_chunks, should_stream, streaming_reply};

fn b(s: &str) -> Vec<u8> {
    s.as_bytes().to_vec()
}

fn hdr(name: &str, value: &str) -> Header {
    Header { name: b(name), value: b(value) }
}

fn cfg(default_model: Option<&str>) -> ProxyConfig {
    ProxyConfig {
        model_url: b("http://localhost:9000/v1/chat/completions"),
        model_key: b("test-key"),
        default_model: default_model.map(b),
        stream_policy: StreamDetectionPolicy::RequestFlag,
        header_policy: HeaderPolicy::MinimalSet,
    }
}

fn body_bytes(body: &RelayBody) -> Vec<u8> {
    match body {
        RelayBody::Buffered(v) => v.clone(),
        RelayBody::Streaming => panic!("expected a buffered body"),
    }
}

#[test]
fn missing_stream_key_defaults_false() {
    let payload = decode_payload(&b("{\"model\":\"gpt-4\",\"messages\":[]}")).unwrap();
    assert!(!payload.stream_flag());
}

#[test]
fn stream_true_is_detected() {
    let payload = decode_payload(&b("{\"model\":\"x\",\"stream\":true}")).unwrap();
    assert!(payload.stream_flag());
}

#[test]
fn non_boolean_stream_counts_as_false() {
    let p1 = decode_payload(&b("{\"stream\":\"true\"}")).unwrap();
    assert!(!p1.stream_flag());
    let p2 = decode_payload(&b("{\"stream\":1}")).unwrap();
    assert!(!p2.stream_flag());
    let p3 = decode_payload(&b("{\"stream\":false}")).unwrap();
    assert!(!p3.stream_flag());
}

#[test]
fn rewrite_replaces_model_value() {
    let payload = decode_payload(&b("{\"model\":\"gpt-4\"}")).unwrap();
    let out = payload.rewrite_model(&b("local-llm")).serialize();
    assert_eq!(out, b("{\"model\":\"local-llm\"}"));
}

#[test]
fn rewrite_creates_missing_model() {
    let payload = decode_payload(&b("{\"a\":1}")).unwrap();
    let out = payload.rewrite_model(&b("local-llm")).serialize();
    assert_eq!(out, b("{\"a\":1,\"model\":\"local-llm\"}"));
}

#[test]
fn rewrite_of_empty_object() {
    let payload = decode_payload(&b("{}")).unwrap();
    let out = payload.rewrite_model(&b("m")).serialize();
    assert_eq!(out, b("{\"model\":\"m\"}"));
}

#[test]
fn decode_serializes_nested_values() {
    // The decoder must hand back each value's compact JSON text, not the
    // input bytes: whitespace disappears and strings keep their quotes.
    let payload = decode_payload(&b("{\"a\": {\"b\": [1, 2]}, \"z\": \"q\"}")).unwrap();
    let out = payload.serialize();
    assert_eq!(out, b("{\"a\":{\"b\":[1,2]},\"z\":\"q\"}"));
}

#[test]
fn decode_rejects_non_object_json() {
    assert!(decode_payload(&b("[1,2,3]")).is_err());
    assert!(decode_payload(&b("\"hello\"")).is_err());
    assert!(decode_payload(&b("not json at all")).is_err());
}

#[test]
fn non_json_body_gets_bad_request_shape() {
    let reply = prepare_forward(&cfg(Some("local-llm")), &Vec::new(), &b("not json")).unwrap_err();
    assert_eq!(reply.status, 400);
    assert_eq!(reply.headers.len(), 1);
    assert_eq!(reply.headers[0].name, b("content-type"));
    assert_eq!(reply.headers[0].value, b("application/json"));
    let body = body_bytes(&reply.body);
    let v: serde_json::Value = serde_json::from_slice(&body).unwrap();
    let err = v.get("error").unwrap();
    assert_eq!(err.get("type").unwrap().as_str().unwrap(), "proxy_error");
    assert_eq!(err.get("code").unwrap().as_i64().unwrap(), 400);
    assert_eq!(
        err.get("message").unwrap().as_str().unwrap(),
        "Could not parse request body as JSON"
    );
    assert!(err.get("details").unwrap().is_string());
}

#[test]
fn buffered_reply_mirrors_status_and_headers() {
    let upstream = vec![
        hdr("content-type", "application/json"),
        hdr("x-request-id", "abc123"),
        hdr("Transfer-Encoding", "chunked"),
        hdr("Connection", "close"),
        hdr("x-ratelimit-remaining", "99"),
    ];
    let reply = buffered_reply(200, &upstream, b("{\"choices\":[]}"));
    assert_eq!(reply.status, 200);
    let names: Vec<Vec<u8>> = reply.headers.iter().map(|h| h.name.clone()).collect();
    assert_eq!(
        names,
        vec![b("content-type"), b("x-request-id"), b("x-ratelimit-remaining")]
    );
    assert_eq!(reply.headers[1].value, b("abc123"));
    assert_eq!(body_bytes(&reply.body), b("{\"choices\":[]}"));
}

#[test]
fn relay_preserves_chunks_in_order() {
    let chunks = vec![b("data: 1\n\n"), b("data: 2\n\n"), b("data: [DONE]\n\n")];
    let out = relay_chunks(&chunks);
    assert_eq!(out, chunks);
}

#[test]
fn relay_of_no_chunks_is_empty() {
    let out = relay_chunks(&Vec::<Vec<u8>>::new());
    assert!(out.is_empty());
}

#[test]
fn stream_relay_forwards_each_chunk_unchanged() {
    let mut relay = StreamRelay::new();
    assert_eq!(relay.on_chunk(b("data: 1\n\n")), b("data: 1\n\n"));
    assert_eq!(relay.on_chunk(b("")), b(""));
}

#[test]
fn full_non_streaming_exchange() {
    let body = b("{\"model\":\"gpt-4\",\"stream\":false,\"messages\":[]}");
    let spec = prepare_forward(&cfg(Some("local-llm")), &Vec::new(), &body).unwrap();
    assert!(!spec.stream_requested);
    assert_eq!(spec.url, b("http://localhost:9000/v1/chat/completions"));
    // The decoded map orders keys alphabetically; the model field holds the
    // configured value and every other field is intact.
    assert_eq!(
        spec.body,
        b("{\"messages\":[],\"model\":\"local-llm\",\"stream\":false}")
    );
    let v: serde_json::Value = serde_json::from_slice(&spec.body).unwrap();
    assert_eq!(v.get("model").unwrap().as_str().unwrap(), "local-llm");
    assert_eq!(v.get("stream").unwrap().as_bool().unwrap(), false);

    let upstream = vec![hdr("content-type", "application/json")];
    let reply = buffered_reply(200, &upstream, b("{\"choices\":[]}"));
    assert_eq!(reply.status, 200);
    assert_eq!(reply.headers[0].value, b("application/json"));
    assert_eq!(body_bytes(&reply.body), b("{\"choices\":[]}"));
}

#[test]
fn connection_refused_gives_bad_gateway() {
    let reply = forward_failure_reply(b("connection refused"));
    assert_eq!(reply.status, 502);
    assert_eq!(
        body_bytes(&reply.body),
        b("{\"error\":{\"message\":\"Failed to forward request\",\"type\":\"proxy_error\",\"code\":502,\"details\":\"connection refused\"}}")
    );
}

#[test]
fn streaming_exchange_passes_chunks_through() {
    let body = b("{\"model\":\"x\",\"stream\":true}");
    let spec = prepare_forward(&cfg(Some("local-llm")), &Vec::new(), &body).unwrap();
    assert!(spec.stream_requested);
    let upstream = vec![hdr("content-type", "application/json")];
    assert!(should_stream(&StreamDetectionPolicy::RequestFlag, spec.stream_requested, &upstream));
    let reply = streaming_reply(200, &upstream);
    assert_eq!(reply.status, 200);
    assert_eq!(reply.headers[0].name, b("content-type"));
    assert_eq!(reply.headers[0].value, b("text/event-stream"));
    assert!(matches!(reply.body, RelayBody::Streaming));
    let chunks = vec![b("data: 1\n\n"), b("data: 2\n\n"), b("data: [DONE]\n\n")];
    assert_eq!(relay_chunks(&chunks), chunks);
}

#[test]
fn streaming_headers_replace_content_type_and_hop_by_hop() {
    let upstream = vec![
        hdr("Content-Type", "application/json"),
        hdr("x-request-id", "abc"),
        hdr("transfer-encoding", "chunked"),
        hdr("connection", "close"),
    ];
    let out = streaming_response_headers(&upstream);
    let pairs: Vec<(Vec<u8>, Vec<u8>)> =
        out.iter().map(|h| (h.name.clone(), h.value.clone())).collect();
    assert_eq!(
        pairs,
        vec![
            (b("content-type"), b("text/event-stream")),
            (b("cache-control"), b("no-cache")),
            (b("connection"), b("keep-alive")),
            (b("x-request-id"), b("abc")),
        ]
    );
}

#[test]
fn content_type_policy_detects_event_stream() {
    let sse = vec![hdr("Content-Type", "text/event-stream; charset=utf-8")];
    let json = vec![hdr("content-type", "application/json")];
    let policy = StreamDetectionPolicy::ResponseContentType;
    assert!(should_stream(&policy, false, &sse));
    assert!(!should_stream(&policy, true, &json));
    assert!(!should_stream(&policy, true, &Vec::new()));
}

#[test]
fn pass_through_body_survives_unparsed() {
    let body = b("this is not json");
    let spec = prepare_forward(&cfg(None), &Vec::new(), &body).unwrap();
    assert_eq!(spec.body, body);
    assert!(!spec.stream_requested);
}

#[test]
fn pass_through_still_peeks_stream_flag() {
    let body = b("{\"model\":\"x\",\"stream\":true}");
    let spec = prepare_forward(&cfg(None), &Vec::new(), &body).unwrap();
    assert_eq!(spec.body, body);
    assert!(spec.stream_requested);
}

#[test]
fn minimal_outbound_headers_carry_bearer_credential() {
    let headers = build_outbound_headers(&b("sk-123")).unwrap();
    assert_eq!(headers.len(), 2);
    assert_eq!(headers[0].name, b("content-type"));
    assert_eq!(headers[0].value, b("application/json"));
    assert_eq!(headers[1].name, b("authorization"));
    assert_eq!(headers[1].value, b("Bearer sk-123"));
}

#[test]
fn pass_through_headers_overwrite_authorization() {
    let inbound = vec![
        hdr("x-custom", "kept"),
        hdr("Authorization", "Bearer caller-key"),
        hdr("Content-Type", "text/plain"),
    ];
    let out = build_outbound_passthrough(&inbound, &b("sk-123")).unwrap();
    let pairs: Vec<(Vec<u8>, Vec<u8>)> =
        out.iter().map(|h| (h.name.clone(), h.value.clone())).collect();
    assert_eq!(
        pairs,
        vec![
            (b("x-custom"), b("kept")),
            (b("content-type"), b("application/json")),
            (b("authorization"), b("Bearer sk-123")),
        ]
    );
}

#[test]
fn invalid_credential_is_a_configuration_error() {
    let mut bad = cfg(Some("m"));
    bad.model_key = b("line\nbreak");
    let reply = prepare_forward(&bad, &Vec::new(), &b("{}")).unwrap_err();
    assert_eq!(reply.status, 500);
    let body = body_bytes(&reply.body);
    let v: serde_json::Value = serde_json::from_slice(&body).unwrap();
    assert_eq!(
        v.get("error").unwrap().get("message").unwrap().as_str().unwrap(),
        "Failed to create authorization header"
    );
}

#[test]
fn credential_with_space_is_accepted() {
    assert!(build_outbound_headers(&b("two words")).is_some());
    assert!(build_outbound_headers(&vec![0x7f]).is_none());
}

#[test]
fn read_failure_maps_to_bad_gateway() {
    let reply = read_failure_reply(b("connection reset"));
    assert_eq!(reply.status, 502);
    let body = body_bytes(&reply.body);
    let v: serde_json::Value = serde_json::from_slice(&body).unwrap();
    let err = v.get("error").unwrap();
    assert_eq!(err.get("message").unwrap().as_str().unwrap(), "Failed to read response");
    assert_eq!(err.get("code").unwrap().as_i64().unwrap(), 502);
}

#[test]
fn error_details_are_json_escaped() {
    let reply = read_failure_reply(b("a\"b\\c\nd\u{1}"));
    let body = body_bytes(&reply.body);
    let text = String::from_utf8(body.clone()).unwrap();
    assert!(text.contains("a\\\"b\\\\c\\nd\\u0001"));
    // The body must still be valid JSON carrying the original details.
    let v: serde_json::Value = serde_json::from_slice(&body).unwrap();
    assert_eq!(
        v.get("error").unwrap().get("details").unwrap().as_str().unwrap(),
        "a\"b\\c\nd\u{1}"
    );
}

#[test]
fn proxy_error_carries_fixed_messages() {
    let e = ProxyError::new(ProxyErrorKind::BadRequest, b("why"));
    assert_eq!(e.status_code(), 400);
    assert_eq!(e.message, b("Could not parse request body as JSON"));
    let e = ProxyError::new(ProxyErrorKind::ConfigurationError, Vec::new());
    assert_eq!(e.status_code(), 500);
}

#[test]
fn response_header_copy_is_case_insensitive() {
    let upstream = vec![hdr("TRANSFER-ENCODING", "chunked"), hdr("X-Keep", "1")];
    let out = copy_response_headers(&upstream);
    assert_eq!(out.len(), 1);
    assert_eq!(out[0].name, b("X-Keep"));
}

#[test]
fn rewritten_body_interoperates_with_decoder() {
    // A model identifier with JSON-special characters must round-trip through
    // the verified escaping and an independent JSON decoder.
    let payload = decode_payload(&b("{\"messages\":[]}")).unwrap();
    let out = payload.rewrite_model(&b("odd\"name\\v1")).serialize();
    let v: serde_json::Value = serde_json::from_slice(&out).unwrap();
    assert_eq!(v.get("model").unwrap().as_str().unwrap(), "odd\"name\\v1");
}

#[test]
fn rewrite_replaces_non_string_model_value() {
    let payload = decode_payload(&b("{\"model\":123,\"stream\":false}")).unwrap();
    let out = payload.rewrite_model(&b("m")).serialize();
    assert_eq!(out, b("{\"model\":\"m\",\"stream\":false}"));
}

#[test]
fn control_bytes_get_unicode_escapes() {
    let reply = read_failure_reply(vec![0x1f, 0x00]);
    let body = body_bytes(&reply.body);
    let text = String::from_utf8(body).unwrap();
    assert!(text.contains("\\u001f\\u0000"));
}

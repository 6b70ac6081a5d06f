use quantum_sdk::chat::{
    raw_kind_of, ChatMessage, ChatResponse, Citation, ContentBlock, RawKind, RawStreamEvent,
    StreamDelta, StreamEvent,
};
use quantum_sdk::client::ResponseMeta;
use quantum_sdk::sse::{body_data, sse_data, ByteLines, LineEvent, SseData, TextLines};

fn response(blocks: Vec<ContentBlock>, stop: &str) -> ChatResponse {
    ChatResponse {
        id: "r1".into(),
        model: String::new(),
        content: blocks,
        usage: None,
        stop_reason: stop.into(),
        citations: Vec::new(),
        phase: String::new(),
        cached: None,
        cost_ticks: 0,
        request_id: String::new(),
    }
}

fn block(kind: &str, text: Option<&str>) -> ContentBlock {
    ContentBlock {
        block_type: kind.into(),
        text: text.map(String::from),
        ..Default::default()
    }
}

#[test]
fn message_constructors_set_role_and_content() {
    let m = ChatMessage::user("hi");
    assert_eq!(m.role, "user");
    assert_eq!(m.content.as_deref(), Some("hi"));
    assert!(m.tool_call_id.is_none());
    let t = ChatMessage::tool_error("call_1", "boom");
    assert_eq!(t.role, "tool");
    assert_eq!(t.tool_call_id.as_deref(), Some("call_1"));
    assert_eq!(t.is_error, Some(true));
    assert_eq!(ChatMessage::tool_result("c", "ok").is_error, None);
    assert_eq!(ChatMessage::system("s").role, "system");
    assert_eq!(ChatMessage::assistant("a").role, "assistant");
}

#[test]
fn text_joins_only_text_blocks_and_thinking_only_thinking() {
    let r = response(
        vec![
            block("thinking", Some("hmm ")),
            block("text", Some("Hello")),
            block("tool_use", None),
            block("text", Some(", world")),
            block("thinking", Some("done")),
        ],
        "tool_use",
    );
    assert_eq!(r.text(), "Hello, world");
    assert_eq!(r.thinking(), "hmm done");
    let calls = r.tool_calls();
    assert_eq!(calls.len(), 1);
    assert_eq!(calls[0].block_type, "tool_use");
    assert!(r.is_tool_use());
    assert!(!r.is_refusal());
    assert!(!r.is_max_tokens());
    assert!(response(Vec::new(), "max_tokens").is_max_tokens());
    assert!(response(Vec::new(), "refusal").is_refusal());
}

#[test]
fn headers_backfill_a_chat_response() {
    let mut r = response(Vec::new(), "end_turn");
    let meta = ResponseMeta {
        cost_ticks: 12,
        balance_after: 0,
        request_id: "req_h".into(),
        model: "m_h".into(),
    };
    r.backfill(&meta);
    assert_eq!(r.cost_ticks, 12);
    assert_eq!(r.request_id, "req_h");
    assert_eq!(r.model, "m_h");
    r.cost_ticks = 5;
    r.request_id = "req_b".into();
    r.backfill(&meta);
    assert_eq!(r.cost_ticks, 5);
    assert_eq!(r.request_id, "req_b");
    assert_eq!(r.id, "r1");
}

fn raw(kind: &str) -> RawStreamEvent {
    RawStreamEvent {
        event_type: kind.into(),
        ..Default::default()
    }
}


#[test]
fn deltas_tool_events_and_usage_read_their_fields() {
    let ev = StreamEvent::from_raw(RawStreamEvent {
        delta: Some(StreamDelta { text: "he".into() }),
        ..raw("content_delta")
    });
    assert_eq!(ev.delta.map(|d| d.text).as_deref(), Some("he"));

    let ev = StreamEvent::from_raw(RawStreamEvent {
        id: Some("t1".into()),
        name: Some("search".into()),
        thought_signature: Some("sig".into()),
        ..raw("tool_use")
    });
    let tu = ev.tool_use.expect("tool_use");
    assert_eq!(tu.id, "t1");
    assert_eq!(tu.name, "search");
    assert!(tu.input.is_empty());
    assert_eq!(ev.thought_signature.as_deref(), Some("sig"));

    let ev = StreamEvent::from_raw(RawStreamEvent {
        id: Some("t2".into()),
        partial_json: Some("{\"q\":".into()),
        ..raw("tool_use_input_delta")
    });
    let d = ev.tool_use_input_delta.expect("input delta");
    assert_eq!(d.partial_json, "{\"q\":");

    let ev = StreamEvent::from_raw(RawStreamEvent {
        input_tokens: Some(10),
        reasoning_tokens: Some(3),
        ..raw("usage")
    });
    let u = ev.usage.expect("usage");
    assert_eq!(u.input_tokens, 10);
    assert_eq!(u.output_tokens, 0);
    assert_eq!(u.reasoning_tokens, Some(3));
    assert_eq!(u.cached_tokens, None);
}



#[test]
fn other_types_read_nothing() {
    let ev = StreamEvent::from_raw(RawStreamEvent {
        message: Some("ignored".into()),
        delta: Some(StreamDelta { text: "x".into() }),
        ..raw("heartbeat")
    });
    assert_eq!(ev.event_type, "heartbeat");
    assert!(ev.error.is_none());
    assert!(ev.delta.is_none());
    assert!(!ev.done);
    assert_eq!(raw_kind_of("thinking_delta"), RawKind::Delta);
    assert_eq!(raw_kind_of("rate_limit"), RawKind::Failure);
    assert_eq!(raw_kind_of("Usage"), RawKind::Other);
}

#[test]
fn done_and_parse_failures_are_synthesised() {
    let done = StreamEvent::done_event();
    assert_eq!(done.event_type, "done");
    assert!(done.done);
    let err = serde_json::from_str::<serde_json::Value>("{").unwrap_err();
    let ev = StreamEvent::parse_failure(&err);
    assert_eq!(ev.event_type, "error");
    assert!(ev.error.as_deref().unwrap().starts_with("parse SSE: "));
}

#[test]
fn sse_lines_are_classified() {
    assert_eq!(sse_data("event: x"), SseData::Other);
    assert_eq!(sse_data("data:nospace"), SseData::Other);
    assert_eq!(sse_data("data: [DONE]"), SseData::Done);
    assert_eq!(sse_data("data: {\"a\":1}"), SseData::Payload("{\"a\":1}".into()));
    assert_eq!(sse_data("data: "), SseData::Payload(String::new()));
}

#[test]
fn byte_lines_keep_split_characters_whole() {
    let mut lines = ByteLines::new();
    let text = "data: caf\u{e9}\r\nnext";
    let bytes = text.as_bytes();
    lines.feed(&bytes[..10]);
    assert_eq!(lines.next_line(), None);
    lines.feed(&bytes[10..]);
    assert_eq!(lines.next_line().as_deref(), Some("data: caf\u{e9}"));
    assert_eq!(lines.next_line(), None);
    assert_eq!(lines.finish().as_deref(), Some("next"));
    assert_eq!(lines.finish(), None);
}

#[test]
fn text_lines_end_with_the_rest_then_the_end() {
    let mut lines = TextLines::new();
    lines.feed(b"a\r\r\nb");
    match lines.next() {
        LineEvent::Line(l) => assert_eq!(l, "a"),
        _ => panic!("expected a line"),
    }
    assert!(matches!(lines.next(), LineEvent::NeedInput));
    lines.end();
    match lines.next() {
        LineEvent::Line(l) => assert_eq!(l, "b"),
        _ => panic!("expected the rest"),
    }
    assert!(matches!(lines.next(), LineEvent::End));
    assert!(matches!(lines.next(), LineEvent::End));
}

#[test]
fn a_failed_stream_carries_its_message_whatever_the_type_from_decoded_payloads() {
    for kind in ["error", "invalid_request", "rate_limit"] {
        let ev = StreamEvent::from_raw(RawStreamEvent {
            message: Some("quota exhausted".into()),
            ..raw(kind)
        });
        assert_eq!(ev.event_type, kind);
        assert!(ev.is_error());
        assert_eq!(ev.error.as_deref(), Some("quota exhausted"));
    }
    assert_eq!(StreamEvent::from_raw(raw("error")).error.as_deref(), Some(""));
}

#[test]
fn citations_and_session_events_from_decoded_payloads() {
    let ev = StreamEvent::from_raw(RawStreamEvent {
        citations: Some(vec![Citation {
            title: "T".into(),
            url: "https://x".into(),
            text: "snippet".into(),
            index: 0,
        }]),
        ..raw("citations")
    });
    assert_eq!(ev.citations.len(), 1);
    assert_eq!(ev.citations[0].url, "https://x");

    let ev = StreamEvent::from_raw(RawStreamEvent {
        session_id: Some("s1".into()),
        compacted: Some(true),
        ..raw("session")
    });
    let s = ev.session.expect("session");
    assert_eq!(s.session_id, "s1");
    assert!(s.compacted);
}

#[test]
fn thought_signature_stream_event_from_decoded_payloads() {
    let ev = StreamEvent::from_raw(RawStreamEvent {
        thought_signature: Some("abc".into()),
        ..raw("thought_signature")
    });
    assert_eq!(ev.thought_signature.as_deref(), Some("abc"));
    assert!(ev.tool_use.is_none());
}

fn text_of(v: &serde_json::Value, key: &str) -> Option<String> {
    v.get(key).and_then(|x| x.as_str()).map(String::from)
}

fn int_of(v: &serde_json::Value, key: &str) -> Option<i64> {
    v.get(key).and_then(|x| x.as_i64())
}

/// Decodes a chat stream payload the way the gateway's JSON reads.
fn decode(payload: &str) -> Result<RawStreamEvent, serde_json::Error> {
    let v: serde_json::Value = serde_json::from_str(payload)?;
    Ok(RawStreamEvent {
        event_type: text_of(&v, "type").unwrap_or_default(),
        delta: v.get("delta").map(|d| StreamDelta { text: text_of(d, "text").unwrap_or_default() }),
        id: text_of(&v, "id"),
        name: text_of(&v, "name"),
        input: v.get("input").and_then(|i| i.as_object()).map(|m| m.clone().into_iter().collect()),
        partial_json: text_of(&v, "partial_json"),
        input_tokens: int_of(&v, "input_tokens"),
        output_tokens: int_of(&v, "output_tokens"),
        reasoning_tokens: int_of(&v, "reasoning_tokens"),
        cost_ticks: int_of(&v, "cost_ticks"),
        cached_tokens: int_of(&v, "cached_tokens"),
        cache_write_tokens: int_of(&v, "cache_write_tokens"),
        audio_tokens: int_of(&v, "audio_tokens"),
        cached_audio_tokens: int_of(&v, "cached_audio_tokens"),
        message: text_of(&v, "message"),
        citations: v.get("citations").and_then(|c| c.as_array()).map(|items| {
            items
                .iter()
                .map(|c| Citation {
                    title: text_of(c, "title").unwrap_or_default(),
                    url: text_of(c, "url").unwrap_or_default(),
                    text: text_of(c, "text").unwrap_or_default(),
                    index: int_of(c, "index").unwrap_or_default() as i32,
                })
                .collect()
        }),
        thought_signature: text_of(&v, "thought_signature"),
        session_id: text_of(&v, "session_id"),
        compacted: v.get("compacted").and_then(|x| x.as_bool()),
    })
}

/// The events of a chat stream body, read as the client reads it.
fn parse_sse(body: &str) -> Vec<StreamEvent> {
    body_data(&vec![body.as_bytes().to_vec()])
        .into_iter()
        .filter_map(|item| match item {
            SseData::Other => None,
            SseData::Done => Some(StreamEvent::done_event()),
            SseData::Payload(p) => Some(StreamEvent::for_payload(decode(&p))),
        })
        .collect()
}

#[test]
fn a_failed_stream_carries_its_message_whatever_the_type() {
    let events = parse_sse("data: {\"type\":\"invalid_request\",\"message\":\"stream failed: bad model\"}\n\ndata: {\"type\":\"rate_limit\",\"message\":\"stream failed: 429\"}\n\ndata: {\"type\":\"error\",\"message\":\"request timeout\"}\n\ndata: [DONE]\n\n");
    assert_eq!(events.len(), 4);
    for (ev, expected) in events.iter().zip([
        ("invalid_request", "stream failed: bad model"),
        ("rate_limit", "stream failed: 429"),
        ("error", "request timeout"),
    ]) {
        assert_eq!(ev.event_type, expected.0);
        assert!(ev.is_error());
        assert_eq!(ev.error.as_deref(), Some(expected.1));
    }
    assert!(events[3].done);
}

#[test]
fn citations_and_session_events_are_parsed() {
    let events = parse_sse("data: {\"type\":\"session\",\"session_id\":\"sess_1\",\"compacted\":true}\n\ndata: {\"type\":\"citations\",\"citations\":[{\"title\":\"Rust\",\"url\":\"https://rust-lang.org\",\"text\":\"snippet\",\"index\":1}]}\n\n: ping\n\ndata: {\"type\":\"content_delta\",\"delta\":{\"text\":\"hi\"}}\n\ndata: {\"type\":\"usage\",\"input_tokens\":3,\"output_tokens\":1,\"reasoning_tokens\":7,\"cost_ticks\":42}\n\ndata: [DONE]\n\n");
    let session = events[0].session.as_ref().expect("session event");
    assert_eq!(session.session_id, "sess_1");
    assert!(session.compacted);
    assert_eq!(events[1].event_type, "citations");
    assert_eq!(events[1].citations.len(), 1);
    assert_eq!(events[1].citations[0].url, "https://rust-lang.org");
    assert_eq!(events[1].citations[0].index, 1);
    assert_eq!(events[2].delta.as_ref().unwrap().text, "hi");
    let usage = events[3].usage.as_ref().unwrap();
    assert_eq!(usage.output_tokens, 1);
    assert_eq!(usage.reasoning_tokens, Some(7));
    assert_eq!(usage.cached_tokens, None);
    assert!(events[4].done);
}

#[test]
fn thought_signature_stream_event_is_parsed() {
    let body = "data: {\"type\":\"content_delta\",\"delta\":{\"text\":\"hi\"}}\n\ndata: {\"type\":\"thought_signature\",\"thought_signature\":\"c2ln\"}\n\ndata: [DONE]\n\n";
    let events = parse_sse(body);
    let sig = events
        .iter()
        .find(|e| e.event_type == "thought_signature")
        .expect("thought_signature event");
    assert_eq!(sig.thought_signature.as_deref(), Some("c2ln"));
    assert!(events[0].thought_signature.is_none());
}

#[test]
fn rechunking_or_crlf_leaves_the_data_unchanged() {
    let body = "data: {\"type\":\"content_delta\",\"delta\":{\"text\":\"h\u{e9}\"}}\n\n: ping\ndata: [DONE]\n";
    let whole = body_data(&vec![body.as_bytes().to_vec()]);
    let bytes = body.as_bytes();
    for cut in 1..bytes.len() {
        let split = body_data(&vec![bytes[..cut].to_vec(), bytes[cut..].to_vec()]);
        assert_eq!(split, whole);
    }
    let crlf = body.replace('\n', "\r\n");
    assert_eq!(body_data(&vec![crlf.as_bytes().to_vec()]), whole);
    assert_eq!(whole.len(), 2);
    assert_eq!(whole[1], SseData::Done);
}

#[test]
fn a_payload_that_does_not_decode_is_an_error_and_reading_goes_on() {
    let events = parse_sse("data: {oops\n\ndata: {\"type\":\"content_delta\",\"delta\":{\"text\":\"x\"}}\n\ndata: [DONE]\n\n");
    assert_eq!(events.len(), 3);
    assert_eq!(events[0].event_type, "error");
    assert!(events[0].error.as_deref().unwrap().starts_with("parse SSE: "));
    assert_eq!(events[1].delta.as_ref().unwrap().text, "x");
    assert!(events[2].done);
}

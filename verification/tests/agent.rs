use quantum_sdk::agent::{
    AgentContentPart, AgentMessage, AgentResponse, AgentStreamEvent, AgentToolUse,
};
use quantum_sdk::client::ResponseMeta;

#[test]
fn agent_message_constructors() {
    let u = AgentMessage::user("hi");
    assert_eq!(u.role, "user");
    assert_eq!(u.content, "hi");
    assert!(u.tool_use.is_empty() && u.tool_call_id.is_empty() && !u.is_error);
    assert_eq!(AgentMessage::system("s").role, "system");
    let t = AgentMessage::tool_result("call_1", "out", true);
    assert_eq!(t.role, "tool");
    assert_eq!(t.tool_call_id, "call_1");
    assert_eq!(t.content, "out");
    assert!(t.is_error);
}

#[test]
fn a_turn_replays_as_an_assistant_message() {
    let resp = AgentResponse {
        content: vec![
            AgentContentPart { part_type: "text".into(), text: "Let me ".into() },
            AgentContentPart { part_type: "image".into(), text: "skip".into() },
            AgentContentPart { part_type: "text".into(), text: "check.".into() },
        ],
        tool_use: vec![AgentToolUse {
            id: "tu_1".into(),
            name: "read_file".into(),
            input: {
                let mut m = serde_json::Map::new();
                m.insert("path".into(), serde_json::Value::String("a.rs".into()));
                serde_json::Value::Object(m)
            },
        }],
        stop_reason: "tool_use".into(),
        ..Default::default()
    };
    assert_eq!(resp.text(), "Let me check.");
    let m = resp.to_message();
    assert_eq!(m.role, "assistant");
    assert_eq!(m.content, "Let me check.");
    assert_eq!(m.tool_use.len(), 1);
    assert_eq!(m.tool_use[0].id, "tu_1");
    assert_eq!(m.tool_use[0].input["path"], "a.rs");
}

#[test]
fn headers_backfill_an_agent_turn() {
    let mut resp = AgentResponse::default();
    let meta = ResponseMeta {
        cost_ticks: 7,
        balance_after: 0,
        request_id: "req_1".into(),
        model: String::new(),
    };
    resp.backfill(&meta);
    assert_eq!(resp.cost_ticks, 7);
    assert_eq!(resp.id, "req_1");
}

#[test]
fn stream_events_are_synthesised_for_done_and_failures() {
    let done = AgentStreamEvent::done_event();
    assert_eq!(done.event_type, "done");
    assert!(done.data.is_empty());

    let ev = AgentStreamEvent::error_event("boom".into(), true);
    assert_eq!(ev.event_type, "error");
    assert_eq!(ev.data["error"], "boom");
    assert_eq!(ev.data["transport"], true);

    let err = serde_json::from_str::<serde_json::Value>("{").unwrap_err();
    let ev = AgentStreamEvent::parse_failure(&err);
    assert_eq!(ev.event_type, "error");
    assert!(ev.data["error"].as_str().unwrap().starts_with("parse SSE: "));
    assert!(!ev.data.contains_key("transport"));
}

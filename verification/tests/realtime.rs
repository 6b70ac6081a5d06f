use quantum_sdk::client::ClientBuilder;
use quantum_sdk::error::Error;
use quantum_sdk::realtime::{
    handshake_error, transport_error_event, build_session_update, direct_target, elevenlabs_path, event_for_message, parse_event,
    realtime_path, refused_upgrade_error, ElevenLabsProxyConfig, RealtimeConfig, RealtimeEvent,
    RealtimeSession, SessionFormat, SocketMessage, DIRECT_REALTIME_URL,
};
use quantum_sdk::realtime::{
    audio_frame, cancel_frame, elevenlabs_audio_frame, function_result_frames, session_update_frame,
    text_frames,
};
use serde_json::Value;
use tokio_tungstenite::tungstenite::Error as WsError;

fn object(members: Vec<(&str, Value)>) -> Value {
    let mut m = serde_json::Map::new();
    for (k, v) in members {
        m.insert(k.to_string(), v);
    }
    Value::Object(m)
}

fn text(s: &str) -> Value {
    Value::String(s.to_string())
}

#[test]
fn elevenlabs_config_renders_only_the_fields_that_are_set() {
    let empty = ElevenLabsProxyConfig::default();
    assert_eq!(empty.query(), "");

    let config = ElevenLabsProxyConfig {
        voice_id: Some("21m00Tcm4TlvDq8ikWAM".into()),
        agent_id: Some("agent 7".into()),
        ..Default::default()
    };
    assert_eq!(
        config.query(),
        "?voice_id=21m00Tcm4TlvDq8ikWAM&agent_id=agent%207"
    );
}

#[test]
fn the_elevenlabs_path_carries_every_set_field_in_order() {
    let config = ElevenLabsProxyConfig {
        voice_id: Some("v".into()),
        model: Some("eleven/flash".into()),
        agent_id: Some("a".into()),
    };
    assert_eq!(
        elevenlabs_path(&config),
        "/qai/v1/realtime/elevenlabs?voice_id=v&model=eleven%2Fflash&agent_id=a"
    );
    assert_eq!(
        elevenlabs_path(&ElevenLabsProxyConfig::default()),
        "/qai/v1/realtime/elevenlabs"
    );
}

#[test]
fn default_config() {
    let config = RealtimeConfig::default();
    assert_eq!(config.voice, "Sal");
    assert_eq!(config.sample_rate, 24000);
    assert!(config.instructions.is_empty());
    assert!(config.tools.is_empty());
    assert!(config.model.is_empty());
}

#[test]
fn grok_models_get_the_xai_frame() {
    let mut config = RealtimeConfig {
        model: "grok-realtime-beta".into(),
        ..RealtimeConfig::default()
    };
    let frame: Value = serde_json::from_str(&session_update_frame(&build_session_update(&config))).unwrap();
    assert!(frame["session"]["audio"].is_object());
    assert!(frame["session"].get("modalities").is_none());

    config.model = "gpt-4o-realtime-preview".into();
    let frame: Value = serde_json::from_str(&session_update_frame(&build_session_update(&config))).unwrap();
    assert_eq!(frame["session"]["input_audio_format"], "pcm16");
}

#[test]
fn the_session_update_carries_the_config() {
    let config = RealtimeConfig {
        voice: "Eve".into(),
        instructions: "Be brief.".into(),
        sample_rate: 16000,
        tools: vec![serde_json::Value::Bool(true)],
        model: String::new(),
    };
    let u = build_session_update(&config);
    assert_eq!(u.voice, "Eve");
    assert_eq!(u.instructions, "Be brief.");
    assert_eq!(u.tools.len(), 1);
    assert!(u.model.is_none());
    assert_eq!(u.format, SessionFormat::Xai { sample_rate: 16000 });
}

#[test]
fn realtime_path_names_the_model_when_set() {
    assert_eq!(realtime_path(&RealtimeConfig::default()), "/qai/v1/realtime");
    let config = RealtimeConfig {
        model: "grok realtime".into(),
        ..RealtimeConfig::default()
    };
    assert_eq!(realtime_path(&config), "/qai/v1/realtime?model=grok%20realtime");
}

#[test]
fn session_debug_text_masks_credentials() {
    let session = RealtimeSession {
        ephemeral_token: "sk-secret".into(),
        url: "wss://api.x.ai/v1/realtime".into(),
        signed_url: String::new(),
        session_id: "vs_1".into(),
        provider: String::new(),
    };
    let text = session.debug_text();
    assert!(!text.contains("sk-secret"));
    assert!(text.contains("vs_1"));
    assert_eq!(
        text,
        "RealtimeSession { ephemeral_token: \"<redacted>\", url: \"wss://api.x.ai/v1/realtime\", signed_url: \"\", session_id: \"vs_1\", provider: \"\" }"
    );
}

#[test]
fn ws_url_prefers_the_signed_url() {
    let mut s = RealtimeSession {
        ephemeral_token: String::new(),
        url: "wss://a".into(),
        signed_url: String::new(),
        session_id: String::new(),
        provider: String::new(),
    };
    assert_eq!(s.ws_url(), "wss://a");
    s.signed_url = "wss://b?token=x".into();
    assert_eq!(s.ws_url(), "wss://b?token=x");
}

#[test]
fn parse_session_ready() {
    let event = parse_event(r#"{"type":"session.updated","session":{}}"#);
    assert!(matches!(event, RealtimeEvent::SessionReady));
}

#[test]
fn parse_audio_delta() {
    let event = parse_event(r#"{"type":"response.audio.delta","delta":"AQID"}"#);
    match event {
        RealtimeEvent::AudioDelta { delta } => assert_eq!(delta, "AQID"),
        _ => panic!("expected AudioDelta"),
    }
}

#[test]
fn parse_transcript_done() {
    let event = parse_event(
        r#"{"type":"conversation.item.input_audio_transcription.completed","transcript":"hello"}"#,
    );
    match event {
        RealtimeEvent::TranscriptDone { transcript, source } => {
            assert_eq!(transcript, "hello");
            assert_eq!(source, "input");
        }
        _ => panic!("expected TranscriptDone"),
    }
}

#[test]
fn parse_function_call() {
    let event = parse_event(
        r#"{"type":"response.function_call_arguments.done","name":"get_weather","call_id":"call_123","arguments":"{\"location\":\"London\"}"}"#,
    );
    match event {
        RealtimeEvent::FunctionCall {
            name,
            call_id,
            arguments,
        } => {
            assert_eq!(name, "get_weather");
            assert_eq!(call_id, "call_123");
            assert!(arguments.contains("London"));
        }
        _ => panic!("expected FunctionCall"),
    }
}

#[test]
fn parse_error() {
    let event = parse_event(r#"{"type":"error","error":{"message":"rate limited"}}"#);
    match event {
        RealtimeEvent::Error { message } => assert_eq!(message, "rate limited"),
        _ => panic!("expected Error"),
    }
}

#[test]
fn parse_unknown() {
    let event = parse_event(r#"{"type":"some.future.event","data":42}"#);
    assert!(matches!(event, RealtimeEvent::Unknown(_)));
}

#[test]
fn parse_speech_events() {
    assert!(matches!(
        parse_event(r#"{"type":"input_audio_buffer.speech_started"}"#),
        RealtimeEvent::SpeechStarted
    ));
    assert!(matches!(
        parse_event(r#"{"type":"input_audio_buffer.speech_stopped"}"#),
        RealtimeEvent::SpeechStopped
    ));
    assert!(matches!(
        parse_event(r#"{"type":"response.done"}"#),
        RealtimeEvent::ResponseDone
    ));
}

#[test]
fn parse_falls_back_for_errors_and_transcripts() {
    match parse_event(r#"{"type":"error","message":"top level"}"#) {
        RealtimeEvent::Error { message } => assert_eq!(message, "top level"),
        _ => panic!("expected Error"),
    }
    match parse_event(r#"{"type":"error"}"#) {
        RealtimeEvent::Error { message } => assert_eq!(message, "unknown error"),
        _ => panic!("expected Error"),
    }
    match parse_event(r#"{"type":"response.output_audio_transcript.delta","delta":"he"}"#) {
        RealtimeEvent::TranscriptDelta { delta, source } => {
            assert_eq!(delta, "he");
            assert_eq!(source, "output");
        }
        _ => panic!("expected TranscriptDelta"),
    }
    match parse_event(r#"{"type":"response.output_audio.delta"}"#) {
        RealtimeEvent::AudioDelta { delta } => assert_eq!(delta, ""),
        _ => panic!("expected AudioDelta"),
    }
}

#[test]
fn a_frame_that_is_not_json_is_kept_as_a_string() {
    match parse_event("not json") {
        RealtimeEvent::Unknown(v) => assert_eq!(v, serde_json::Value::String("not json".into())),
        _ => panic!("expected Unknown"),
    }
    match parse_event(r#"{"type":"x.y","n":1}"#) {
        RealtimeEvent::Unknown(v) => assert_eq!(v["n"], 1),
        _ => panic!("expected Unknown"),
    }
}

#[test]
fn socket_messages_become_events_or_are_skipped() {
    assert!(event_for_message(SocketMessage::Other).is_none());
    match event_for_message(SocketMessage::Close(Some((1008, "insufficient balance".into())))) {
        Some(RealtimeEvent::Closed { code, reason }) => {
            assert_eq!(code, Some(1008));
            assert_eq!(reason, "insufficient balance");
        }
        other => panic!("expected Closed, got {other:?}"),
    }
    match event_for_message(SocketMessage::Close(None)) {
        Some(RealtimeEvent::Closed { code, reason }) => {
            assert_eq!(code, None);
            assert_eq!(reason, "");
        }
        other => panic!("expected Closed, got {other:?}"),
    }
    assert!(matches!(
        event_for_message(SocketMessage::Text(r#"{"type":"response.done"}"#.into())),
        Some(RealtimeEvent::ResponseDone)
    ));
}

#[test]
fn the_gateway_socket_swaps_the_scheme_and_carries_the_key_twice() {
    let s = ClientBuilder::new("qai_k")
        .base_url("https://api.example.com/")
        .settings()
        .unwrap();
    let g = s.gateway_socket("/qai/v1/realtime").unwrap();
    assert_eq!(g.url, "wss://api.example.com//qai/v1/realtime");
    assert_eq!(g.host, "api.example.com");
    assert_eq!(g.authorization, "Bearer qai_k");
    assert_eq!(g.api_key, "qai_k");

    let s = ClientBuilder::new("k").base_url("http://localhost:8080").settings().unwrap();
    let g = s.gateway_socket("/p").unwrap();
    assert_eq!(g.url, "ws://localhost:8080/p");
    assert_eq!(g.host, "localhost:8080");

    let s = ClientBuilder::new("k").base_url("ftp://x").settings().unwrap();
    match s.gateway_socket("/p") {
        Err(Error::Api(e)) => {
            assert_eq!(e.code, "invalid_base_url");
            assert_eq!(e.message, "Cannot convert base URL to WebSocket: ftp://x");
            assert_eq!(e.status_code, 0);
        }
        other => panic!("expected invalid_base_url, got {other:?}"),
    }
}

#[test]
fn a_direct_connection_names_the_host_and_the_bearer() {
    let (host, auth) = direct_target(DIRECT_REALTIME_URL, "tok");
    assert_eq!(host, "api.x.ai");
    assert_eq!(auth, "Bearer tok");
    let (host, _) = direct_target("ws://localhost:9000", "t");
    assert_eq!(host, "localhost:9000");
}

#[test]
fn a_refused_upgrade_reads_the_gateway_error_body() {
    let body = br#"{"error":{"code":"insufficient_balance","message":"top up"}}"#.to_vec();
    match refused_upgrade_error(402, Some(body)) {
        Error::Api(e) => {
            assert_eq!(e.status_code, 402);
            assert_eq!(e.code, "insufficient_balance");
            assert_eq!(e.message, "top up");
        }
        other => panic!("unexpected {other:?}"),
    }
    match refused_upgrade_error(503, Some(b"not configured".to_vec())) {
        Error::Api(e) => {
            assert_eq!(e.code, "websocket_upgrade");
            assert_eq!(e.message, "not configured");
        }
        other => panic!("unexpected {other:?}"),
    }
    match refused_upgrade_error(401, Some(br#"{"code":"unauthenticated","message":"no key"}"#.to_vec())) {
        Error::Api(e) => {
            assert_eq!(e.code, "unauthenticated");
            assert_eq!(e.message, "no key");
        }
        other => panic!("unexpected {other:?}"),
    }
    match refused_upgrade_error(500, None) {
        Error::Api(e) => {
            assert_eq!(e.code, "websocket_upgrade");
            assert_eq!(e.message, "");
        }
        other => panic!("unexpected {other:?}"),
    }
}

#[test]
fn read_failures_and_refused_upgrades_become_errors() {
    match transport_error_event(&WsError::ConnectionClosed) {
        RealtimeEvent::TransportError { message } => {
            assert_eq!(message, WsError::ConnectionClosed.to_string());
            assert!(!message.is_empty());
        }
        other => panic!("unexpected {other:?}"),
    }
    assert!(matches!(handshake_error(WsError::ConnectionClosed), Error::WebSocket(_)));

    let resp = tokio_tungstenite::tungstenite::http::Response::builder()
        .status(402)
        .body(Some(br#"{"error":{"code":"insufficient_balance","message":"top up"}}"#.to_vec()))
        .unwrap();
    match handshake_error(WsError::Http(resp)) {
        Error::Api(e) => {
            assert_eq!(e.status_code, 402);
            assert_eq!(e.code, "insufficient_balance");
            assert_eq!(e.message, "top up");
        }
        other => panic!("unexpected {other:?}"),
    }
}

#[test]
fn text_frames_are_what_serde_json_writes_for_the_same_objects() {
    let said = "say \"hi\"\n\tand \\ bye \u{1} \u{e9}";
    let (item, response) = text_frames(said);
    let part = object(vec![("type", text("input_text")), ("text", text(said))]);
    let expected_item = object(vec![
        ("type", text("conversation.item.create")),
        (
            "item",
            object(vec![
                ("type", text("message")),
                ("role", text("user")),
                ("content", Value::Array(vec![part])),
            ]),
        ),
    ]);
    assert_eq!(item, serde_json::to_string(&expected_item).unwrap());
    let expected_response = object(vec![
        ("type", text("response.create")),
        (
            "response",
            object(vec![("modalities", Value::Array(vec![text("text"), text("audio")]))]),
        ),
    ]);
    assert_eq!(response, serde_json::to_string(&expected_response).unwrap());
}

#[test]
fn text_frame_escapes_quotes_backslashes_and_controls() {
    let (item, _) = text_frames("a\"b\\c\nd\u{1f}e\u{8}\u{c}\r\t\u{e9}");
    assert_eq!(
        item,
        "{\"item\":{\"content\":[{\"text\":\"a\\\"b\\\\c\\nd\\u001fe\\b\\f\\r\\t\u{e9}\",\"type\":\"input_text\"}],\"role\":\"user\",\"type\":\"message\"},\"type\":\"conversation.item.create\"}"
    );
}

#[test]
fn tool_result_frames_carry_the_call_and_its_output() {
    let (item, response) = function_result_frames("call_1", "{\"ok\":true}");
    assert_eq!(
        item,
        "{\"item\":{\"call_id\":\"call_1\",\"output\":\"{\\\"ok\\\":true}\",\"type\":\"function_call_output\"},\"type\":\"conversation.item.create\"}"
    );
    let expected = object(vec![
        ("type", text("conversation.item.create")),
        (
            "item",
            object(vec![
                ("type", text("function_call_output")),
                ("call_id", text("call_1")),
                ("output", text("{\"ok\":true}")),
            ]),
        ),
    ]);
    assert_eq!(item, serde_json::to_string(&expected).unwrap());
    assert_eq!(response, "{\"type\":\"response.create\"}");
}

#[test]
fn audio_cancel_and_elevenlabs_frames() {
    assert_eq!(
        audio_frame("AAEC"),
        "{\"audio\":\"AAEC\",\"type\":\"input_audio_buffer.append\"}"
    );
    assert_eq!(cancel_frame(), "{\"type\":\"response.cancel\"}");
    assert_eq!(elevenlabs_audio_frame("AAEC"), "{\"user_audio_chunk\":\"AAEC\"}");
    let expected = object(vec![("user_audio_chunk", text("AAEC"))]);
    assert_eq!(elevenlabs_audio_frame("AAEC"), serde_json::to_string(&expected).unwrap());
}

fn expected_session(config: &RealtimeConfig) -> Value {
    let mut session = serde_json::Map::new();
    session.insert("voice".into(), text(&config.voice));
    session.insert("instructions".into(), text(&config.instructions));
    session.insert("turn_detection".into(), object(vec![("type", text("server_vad"))]));
    session.insert("tools".into(), Value::Array(config.tools.clone()));
    if !config.model.is_empty() {
        session.insert("model".into(), text(&config.model));
    }
    if config.model.starts_with("gpt-") {
        session.insert("modalities".into(), Value::Array(vec![text("text"), text("audio")]));
        session.insert("input_audio_format".into(), text("pcm16"));
        session.insert("output_audio_format".into(), text("pcm16"));
        session.insert(
            "input_audio_transcription".into(),
            object(vec![("model", text("gpt-4o-mini-transcribe"))]),
        );
    } else {
        session.insert(
            "input_audio_transcription".into(),
            object(vec![("model", text("grok-2-audio"))]),
        );
        let format = || {
            object(vec![(
                "format",
                object(vec![
                    ("type", text("audio/pcm")),
                    ("rate", Value::from(config.sample_rate)),
                ]),
            )])
        };
        session.insert("audio".into(), object(vec![("input", format()), ("output", format())]));
    }
    object(vec![("type", text("session.update")), ("session", Value::Object(session))])
}

#[test]
fn session_update_frame_for_grok_is_what_serde_json_writes() {
    let mut tool = serde_json::Map::new();
    tool.insert("name".into(), text("lookup"));
    tool.insert("type".into(), text("function"));
    let config = RealtimeConfig {
        model: "grok-realtime".into(),
        instructions: "Be \"brief\".\n".into(),
        tools: vec![Value::Object(tool), Value::Bool(true)],
        ..RealtimeConfig::default()
    };
    let frame = session_update_frame(&build_session_update(&config));
    assert_eq!(frame, serde_json::to_string(&expected_session(&config)).unwrap());
    assert!(frame.contains("\"rate\":24000"));
}

#[test]
fn session_update_frame_for_gpt_is_what_serde_json_writes() {
    let config = RealtimeConfig {
        model: "gpt-realtime".into(),
        voice: "alloy".into(),
        ..RealtimeConfig::default()
    };
    let frame = session_update_frame(&build_session_update(&config));
    assert_eq!(frame, serde_json::to_string(&expected_session(&config)).unwrap());
    assert_eq!(
        frame,
        format!(
            "{{\"session\":{{\"input_audio_format\":\"pcm16\",\"input_audio_transcription\":{{\"model\":\"gpt-4o-mini-transcribe\"}},\"instructions\":{},\"modalities\":[\"text\",\"audio\"],\"model\":\"gpt-realtime\",\"output_audio_format\":\"pcm16\",\"tools\":[],\"turn_detection\":{{\"type\":\"server_vad\"}},\"voice\":\"alloy\"}},\"type\":\"session.update\"}}",
            serde_json::to_string(&config.instructions).unwrap()
        )
    );
}

#[test]
fn session_update_frame_without_a_model_names_none() {
    let config = RealtimeConfig { model: String::new(), sample_rate: 16000, ..RealtimeConfig::default() };
    let frame = session_update_frame(&build_session_update(&config));
    assert!(!frame.contains(",\"model\":"));
    assert!(frame.contains("\"rate\":16000"));
    assert_eq!(frame, serde_json::to_string(&expected_session(&config)).unwrap());
}

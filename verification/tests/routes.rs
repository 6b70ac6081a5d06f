use std::time::Duration;

use quantum_sdk::account::{usage_path, usage_summary_path, UsageQuery};
use quantum_sdk::agent_runtime::{
    delete_api_key, is_zero, runtime_agents_path, runtime_environments_path,
    runtime_session_stream_path,
};
use quantum_sdk::avatar::AvatarRealtimeTextRequest;
use quantum_sdk::documents::{document_fields, invalid_mime_error};
use quantum_sdk::error::Error;
use quantum_sdk::jobs::{is_settled, poll_timeout_error, JobStatusResponse, JobStreamEvent};
use quantum_sdk::mesh::rig_output_json;
use quantum_sdk::keys::KeyDetails;
use quantum_sdk::licenses::{license_revocations_path, licenses_mine_path};
use quantum_sdk::missions::mission_list_path;
use quantum_sdk::scanner::scanner_type_path;
use quantum_sdk::security::{security_blocklist_path, security_check_path};
use quantum_sdk::session::{with_stream, SessionChatRequest};
use quantum_sdk::video::{video_batch_status_path, VideoBatchStatusQuery};
use quantum_sdk::voices::{encode_query_value, voice_library_params, voice_library_path, VoiceLibraryQuery};

#[test]
fn library_query_params_send_q_and_the_cursor() {
    let params = voice_library_params(&VoiceLibraryQuery {
        query: Some("deep narrator".into()),
        cursor: Some("abc".into()),
        ..Default::default()
    });
    assert_eq!(params, ["q=deep%20narrator", "cursor=abc"]);
}

#[test]
fn the_voice_library_path_lists_every_set_parameter() {
    let q = VoiceLibraryQuery {
        query: Some("a&b".into()),
        page_size: Some(30),
        cursor: None,
        gender: Some("female".into()),
        language: Some("en".into()),
        use_case: Some("audio book".into()),
    };
    assert_eq!(
        voice_library_path(&q),
        "/qai/v1/voices/library?q=a%26b&page_size=30&gender=female&language=en&use_case=audio%20book"
    );
    assert_eq!(voice_library_path(&VoiceLibraryQuery::default()), "/qai/v1/voices/library");
}

#[test]
fn usage_paths_carry_only_what_is_set() {
    assert_eq!(usage_path(&UsageQuery::default()), "/qai/v1/account/usage");
    assert_eq!(
        usage_path(&UsageQuery { limit: Some(20), start_after: Some("c 1".into()) }),
        "/qai/v1/account/usage?limit=20&start_after=c 1"
    );
    assert_eq!(
        usage_path(&UsageQuery { limit: None, start_after: Some("x".into()) }),
        "/qai/v1/account/usage?start_after=x"
    );
    assert_eq!(usage_summary_path(Some(6)), "/qai/v1/account/usage/summary?months=6");
    assert_eq!(usage_summary_path(None), "/qai/v1/account/usage/summary");
    assert_eq!(usage_summary_path(Some(-1)), "/qai/v1/account/usage/summary?months=-1");
}

#[test]
fn video_batch_status_encodes_the_token() {
    let q = VideoBatchStatusQuery { limit: Some(50), token: Some("a/b=".into()) };
    assert_eq!(video_batch_status_path("b1", &q), "/qai/v1/video/batch/b1?limit=50&token=a%2Fb%3D");
    assert_eq!(
        video_batch_status_path("b1", &VideoBatchStatusQuery::default()),
        "/qai/v1/video/batch/b1"
    );
}

#[test]
fn runtime_paths() {
    assert_eq!(runtime_agents_path(None), "/qai/v1/agent-runtime/agents");
    assert_eq!(runtime_agents_path(Some(5)), "/qai/v1/agent-runtime/agents?limit=5");
    assert_eq!(runtime_environments_path(Some(0)), "/qai/v1/agent-runtime/environments?limit=0");
    assert_eq!(
        runtime_session_stream_path(r#"{"id":"s"}"#, Some(12)),
        "/qai/v1/agent-runtime/sessions/stream?session=%7B%22id%22%3A%22s%22%7D&since=12"
    );
    assert_eq!(
        runtime_session_stream_path("d", None),
        "/qai/v1/agent-runtime/sessions/stream?session=d"
    );
    assert!(is_zero(&0));
    assert!(!is_zero(&-1));
}

#[test]
fn the_delete_key_header_is_the_bare_token() {
    assert_eq!(delete_api_key("Bearer qai_k"), "qai_k");
    assert_eq!(delete_api_key("Basic abc"), "");
    assert_eq!(delete_api_key("Bearer caf\u{e9}"), "");
}

#[test]
fn licence_security_mission_and_scanner_paths() {
    assert_eq!(licenses_mine_path(&None), "/qai/v1/licenses/mine");
    assert_eq!(licenses_mine_path(&Some("my app".into())), "/qai/v1/licenses/mine?app=my%20app");
    assert_eq!(
        license_revocations_path(&Some("2026-01-01T00:00:00+00:00".into())),
        "/qai/v1/licenses/revocations?since=2026-01-01T00%3A00%3A00%2B00%3A00"
    );
    assert_eq!(
        security_check_path("https://x.io/?a=1"),
        "/qai/v1/security/check?url=https%3A%2F%2Fx.io%2F%3Fa%3D1"
    );
    assert_eq!(security_blocklist_path(&Some("active".into())), "/qai/v1/security/blocklist?status=active");
    assert_eq!(security_blocklist_path(&None), "/qai/v1/security/blocklist");
    assert_eq!(mission_list_path(&Some("running".into())), "/qai/v1/missions/list?status=running");
    assert_eq!(scanner_type_path("s1", "Foo Bar"), "/qai/v1/scanner/scans/s1/types/Foo%20Bar");
}

#[test]
fn url_encoding_keeps_only_unreserved_characters() {
    assert_eq!(encode_query_value("aZ0-_.~"), "aZ0-_.~");
    assert_eq!(encode_query_value("a b+c"), "a%20b%2Bc");
    assert_eq!(encode_query_value("\u{e9}"), "%C3%A9");
}

fn job_event(kind: &str, job_id: Option<&str>, status: Option<&str>) -> JobStreamEvent {
    JobStreamEvent {
        event_type: kind.into(),
        job_id: job_id.map(String::from),
        status: status.map(String::from),
        result: None,
        error: Some("x".into()),
        cost_ticks: 0,
        completed_at: None,
    }
}

#[test]
fn a_stream_timeout_event_is_told_from_a_failure() {
    let timeout = job_event("error", None, None);
    assert!(timeout.is_stream_timeout());

    let failed = job_event("error", Some("j1"), Some("failed"));
    assert!(!failed.is_stream_timeout());
    assert!(!job_event("complete", None, None).is_stream_timeout());
}

#[test]
fn polling_stops_on_completed_or_failed() {
    assert!(is_settled("completed"));
    assert!(is_settled("failed"));
    assert!(!is_settled("running"));
    match poll_timeout_error("j1", 3, Duration::from_secs(2)) {
        Error::Api(e) => {
            assert_eq!(e.code, "poll_timeout");
            assert_eq!(e.status_code, 0);
            assert_eq!(e.message, "job j1 still running after 3 polls of 2s");
        }
        other => panic!("unexpected {other:?}"),
    }
}

fn key_with(scope: Option<serde_json::Value>) -> KeyDetails {
    KeyDetails {
        id: "k".into(),
        name: "n".into(),
        key_prefix: "qai_".into(),
        scope,
        spent_ticks: 0,
        revoked: false,
        created_at: None,
        last_used: None,
    }
}

#[test]
fn scope_region_reads_a_non_empty_region() {
    let mut m = serde_json::Map::new();
    m.insert("region".into(), serde_json::Value::String("europe".into()));
    assert_eq!(key_with(Some(serde_json::Value::Object(m))).scope_region(), Some("europe"));
    let mut m = serde_json::Map::new();
    m.insert("region".into(), serde_json::Value::String(String::new()));
    assert_eq!(key_with(Some(serde_json::Value::Object(m))).scope_region(), None);
    assert_eq!(key_with(None).scope_region(), None);
    assert_eq!(key_with(Some(serde_json::Value::Bool(true))).scope_region(), None);
}

#[test]
fn with_stream_sets_the_stream_flag() {
    let req = SessionChatRequest {
        message: "hi".into(),
        stream: Some(true),
        ..Default::default()
    };
    let buffered = with_stream(req.clone(), false);
    assert_eq!(buffered.stream, Some(false));
    let streamed = with_stream(req, true);
    assert_eq!(streamed.stream, Some(true));
    assert_eq!(streamed.message, "hi");
}

#[test]
fn avatar_text_requests() {
    let d = AvatarRealtimeTextRequest::delta("Hel");
    assert_eq!(d.delta, "Hel");
    assert!(!d.is_final);
    let f = AvatarRealtimeTextRequest::final_marker();
    assert!(f.delta.is_empty());
    assert!(f.is_final);
}

#[test]
fn document_uploads_send_only_the_fields_that_are_set() {
    assert!(document_fields(false, None, None).is_empty());
    assert_eq!(
        document_fields(true, Some(512), Some(64)),
        vec![
            ("extract_images".to_string(), "true".to_string()),
            ("chunk_size".to_string(), "512".to_string()),
            ("overlap".to_string(), "64".to_string()),
        ]
    );
    assert_eq!(
        document_fields(false, None, Some(0)),
        vec![("overlap".to_string(), "0".to_string())]
    );
    match invalid_mime_error("text/", "bad") {
        Error::Api(e) => {
            assert_eq!(e.code, "multipart_error");
            assert_eq!(e.message, "invalid mime type \"text/\": bad");
        }
        other => panic!("unexpected {other:?}"),
    }
}

#[test]
fn rig_output_is_the_result_member_when_present() {
    let job = |result: Option<serde_json::Value>| JobStatusResponse {
        job_id: "j".into(),
        status: "completed".into(),
        job_type: None,
        result,
        error: None,
        cost_ticks: 0,
        request_id: None,
        created_at: None,
        started_at: None,
        completed_at: None,
    };
    let mut inner = serde_json::Map::new();
    inner.insert("rigged_character_glb_url".into(), serde_json::Value::String("u".into()));
    let mut envelope = serde_json::Map::new();
    envelope.insert("result".into(), serde_json::Value::Object(inner.clone()));
    assert_eq!(
        rig_output_json(&job(Some(serde_json::Value::Object(envelope)))),
        Some(serde_json::Value::Object(inner))
    );
    let mut null_result = serde_json::Map::new();
    null_result.insert("result".into(), serde_json::Value::Null);
    assert_eq!(rig_output_json(&job(Some(serde_json::Value::Object(null_result)))), None);
    assert_eq!(rig_output_json(&job(Some(serde_json::Value::Bool(true)))), None);
    assert_eq!(rig_output_json(&job(None)), None);
}

#[test]
fn an_encoded_value_cannot_break_out_of_its_parameter() {
    let v = encode_query_value("a&b=c?d#e/f g%");
    assert_eq!(v, "a%26b%3Dc%3Fd%23e%2Ff%20g%25");
    assert!(v
        .chars()
        .all(|c| c.is_ascii_alphanumeric() || "-._~%".contains(c)));
}

fn meta() -> quantum_sdk::client::ResponseMeta {
    quantum_sdk::client::ResponseMeta {
        cost_ticks: 120,
        balance_after: 9000,
        request_id: "req_h".into(),
        model: "m_h".into(),
    }
}

#[test]
fn image_backfill_fills_only_what_the_body_left_empty() {
    let mut empty = quantum_sdk::image::ImageResponse {
        images: Vec::new(),
        model: "flux".into(),
        cost_ticks: 0,
        balance_after: 0,
        request_id: String::new(),
        revised_prompt: None,
        usage: None,
    };
    empty.backfill(&meta());
    assert_eq!((empty.cost_ticks, empty.balance_after, empty.request_id.as_str()), (120, 9000, "req_h"));
    assert_eq!(empty.model, "flux");
    let mut full = quantum_sdk::image::ImageResponse {
        cost_ticks: 7,
        balance_after: 8,
        request_id: "req_b".into(),
        ..empty
    };
    full.backfill(&meta());
    assert_eq!((full.cost_ticks, full.balance_after, full.request_id.as_str()), (7, 8, "req_b"));
}

#[test]
fn clone_voice_backfill_fills_only_the_request_id() {
    let mut r = quantum_sdk::voices::CloneVoiceResponse {
        voice_id: "v".into(),
        name: "n".into(),
        request_id: String::new(),
    };
    r.backfill(&meta());
    assert_eq!(r.request_id, "req_h");
    assert_eq!(r.voice_id, "v");
}

#[test]
fn a_delete_is_ok_on_2xx_and_a_status_failure_otherwise() {
    assert!(quantum_sdk::error::delete_outcome(204, String::new(), "r".into()).is_ok());
    assert!(quantum_sdk::error::delete_outcome(200, "x".into(), "r".into()).is_ok());
    match quantum_sdk::error::delete_outcome(404, "gone".into(), "req_9".into()) {
        Err(Error::Api(a)) => {
            assert_eq!(a.status_code, 404);
            assert_eq!(a.code, "Not Found");
            assert_eq!(a.message, "gone");
            assert_eq!(a.request_id, "req_9");
        }
        _ => panic!("expected a status failure"),
    }
}

use std::time::Duration;

use quantum_sdk::client::{
    after_body, after_status, backfill_text, backfill_ticks, backoff, idempotency_key,
    is_permanent_error, is_reserved_header, is_retryable, parse_response_meta, region_override,
    replay_for_post, retry_after, AfterBody, AfterStatus, ClientBuilder, Replay,
    MAX_RETRY_AFTER_SECS,
};
use quantum_sdk::error::{
    is_auth_error, is_not_found_error, is_rate_limit_error, local_error,
    parse_api_error_from_text, status_failure, ApiError, ApiErrorBody, ApiErrorInner, Error,
    ErrorCode, FlatApiErrorBody,
};
use quantum_sdk::region::Region;

#[test]
fn retry_after_reads_the_header_bytes_and_clamps() {
    assert_eq!(retry_after(None), None);
    assert_eq!(retry_after(Some(b"5")), Some(5));
    assert_eq!(retry_after(Some(b"86400")), Some(MAX_RETRY_AFTER_SECS));
    assert_eq!(
        retry_after(Some(b"Wed, 21 Oct 2026 07:28:00 GMT")),
        None,
        "the HTTP-date form is not parsed"
    );
}

#[test]
fn retry_after_trims_and_rejects_unreadable_values() {
    assert_eq!(retry_after(Some(b" 10 ")), Some(10));
    assert_eq!(retry_after(Some(b"")), None);
    assert_eq!(retry_after(Some(b"-1")), None);
    assert_eq!(retry_after(Some(b"\xff5")), None);
    assert_eq!(MAX_RETRY_AFTER_SECS, 30);
}

#[test]
fn a_bad_key_is_an_error_not_a_panic() {
    match ClientBuilder::new("qai_k_from_a_file\n").settings() {
        Err(Error::Api(api)) => assert_eq!(api.code, "invalid_api_key"),
        Ok(_) => panic!("a key with a newline cannot be a header value"),
        Err(other) => panic!("unexpected error variant: {other:?}"),
    }
}

#[test]
fn reserved_headers_rejected_at_build() {
    for name in ["Authorization", "authorization", "X-API-Key", "x-api-key"] {
        let result = ClientBuilder::new("qai_test")
            .extra_header(name, "anything")
            .settings();
        match result {
            Err(Error::Api(api)) => assert_eq!(api.code, "invalid_header"),
            Ok(_) => panic!("expected reject for reserved header '{name}'"),
            Err(other) => panic!("unexpected error variant for '{name}': {other:?}"),
        }
    }
}

#[test]
fn invalid_header_name_rejected_at_build() {
    let result = ClientBuilder::new("qai_test")
        .extra_header("bad name with spaces", "v")
        .settings();
    match result {
        Err(Error::Api(api)) => assert_eq!(api.code, "invalid_header"),
        Ok(_) => panic!("expected reject for invalid header name"),
        Err(other) => panic!("unexpected error variant: {other:?}"),
    }
}

#[test]
fn app_and_extra_header_build_succeeds() {
    let _client = ClientBuilder::new("qai_test")
        .app("recipe-box")
        .extra_header("X-Correlation-Id", "abc-123")
        .settings()
        .expect("valid builder should construct a Client");
}

#[test]
fn settings_carry_the_key_the_base_url_and_the_headers_in_order() {
    let s = ClientBuilder::new("qai_test")
        .base_url("http://localhost:8080")
        .timeout(Duration::from_secs(7))
        .region(Region::Europe)
        .extra_header("X-One", "1")
        .app("recipe-box")
        .settings()
        .unwrap();
    assert_eq!(s.api_key, "qai_test");
    assert_eq!(s.base_url, "http://localhost:8080");
    assert_eq!(s.timeout, Duration::from_secs(7));
    assert_eq!(s.region, Some(Region::Europe));
    assert_eq!(s.auth_header, "Bearer qai_test");
    assert_eq!(s.headers.last().map(|h| h.1.as_str()), Some("recipe-box"));
    assert_eq!(s.headers[0], ("X-One".to_string(), "1".to_string()));
}

#[test]
fn reserved_names_are_matched_ignoring_case() {
    assert!(is_reserved_header("AUTHORIZATION"));
    assert!(is_reserved_header("X-Api-Key"));
    assert!(!is_reserved_header("X-QAI-App"));
}

#[test]
fn a_decoded_flat_envelope_yields_its_code() {
    let body = r#"{"error":"invalid_request","message":"model is required"}"#;
    let flat = FlatApiErrorBody {
        error: "invalid_request".into(),
        message: "model is required".into(),
    };
    let err = parse_api_error_from_text(400, body, "req_1", None, Some(flat));
    match err {
        Error::Api(e) => {
            assert_eq!(e.code, "invalid_request");
            assert_eq!(e.message, "model is required");
            assert_eq!(e.status_code, 400);
        }
        other => panic!("expected Api error, got {other:?}"),
    }
}

#[test]
fn nested_envelope_falls_back_to_type_then_status_text() {
    let body = r#"{"error":{"message":"","type":"provider_error"}}"#;
    let nested = ApiErrorBody {
        error: ApiErrorInner {
            message: String::new(),
            code: String::new(),
            error_type: "provider_error".into(),
        },
    };
    match parse_api_error_from_text(502, body, "r", Some(nested), None) {
        Error::Api(e) => {
            assert_eq!(e.code, "provider_error");
            assert_eq!(e.message, body);
            assert_eq!(e.request_id, "r");
        }
        other => panic!("unexpected {other:?}"),
    }
    match parse_api_error_from_text(503, "down", "", None, None) {
        Error::Api(e) => {
            assert_eq!(e.code, "Service Unavailable");
            assert_eq!(e.message, "down");
        }
        other => panic!("unexpected {other:?}"),
    }
    match status_failure(599, "x".into(), "id".into()) {
        Error::Api(e) => assert_eq!(e.code, "Unknown"),
        other => panic!("unexpected {other:?}"),
    }
}

#[test]
fn api_errors_display_with_and_without_a_request_id() {
    let mut e = ApiError {
        status_code: 404,
        code: "not_found".into(),
        message: "no such job".into(),
        request_id: String::new(),
    };
    assert_eq!(e.to_string(), "qai: 404 not_found: no such job");
    e.request_id = "req_9".into();
    assert_eq!(e.to_string(), "qai: 404 not_found: no such job (request_id=req_9)");
    let err = Error::Api(e.clone());
    assert!(is_not_found_error(&err));
    assert!(!is_auth_error(&err));
    assert!(!is_rate_limit_error(&err));
    assert!(e.is_not_found());
}

#[test]
fn error_codes_parse_case_sensitively() {
    assert_eq!(ErrorCode::from_wire("KEY_EXPIRED"), ErrorCode::KeyExpired);
    assert_eq!(ErrorCode::from_wire("key_expired"), ErrorCode::Unknown);
    assert_eq!(ErrorCode::from_wire(""), ErrorCode::Unknown);
    let e = ApiError {
        status_code: 402,
        code: "INSUFFICIENT_BALANCE".into(),
        message: String::new(),
        request_id: String::new(),
    };
    assert_eq!(e.typed_code(), ErrorCode::InsufficientBalance);
}

#[test]
fn local_errors_carry_status_zero() {
    match local_error("poll_timeout", "late".into()) {
        Error::Api(e) => {
            assert_eq!(e.status_code, 0);
            assert_eq!(e.code, "poll_timeout");
            assert_eq!(e.message, "late");
        }
        other => panic!("unexpected {other:?}"),
    }
}

#[test]
fn only_rate_limits_are_replayed_without_an_idempotency_key() {
    assert_eq!(replay_for_post(&None), Replay::RateLimitOnly);
    assert_eq!(replay_for_post(&Some("k".into())), Replay::Transient);
    assert!(is_retryable(429, Replay::RateLimitOnly));
    assert!(!is_retryable(502, Replay::RateLimitOnly));
    for s in [429, 502, 503, 504] {
        assert!(is_retryable(s, Replay::Transient));
    }
    assert!(!is_retryable(500, Replay::Transient));
}

#[test]
fn the_status_decides_deliver_fail_or_read_the_body() {
    assert_eq!(after_status(200, Replay::RateLimitOnly, 3), AfterStatus::Deliver);
    assert_eq!(after_status(204, Replay::Transient, 0), AfterStatus::Deliver);
    assert_eq!(after_status(502, Replay::RateLimitOnly, 0), AfterStatus::Fail);
    assert_eq!(after_status(502, Replay::Transient, 0), AfterStatus::ReadBody);
    assert_eq!(after_status(429, Replay::Transient, 3), AfterStatus::Fail);
    assert_eq!(after_status(400, Replay::Transient, 0), AfterStatus::Fail);
}

#[test]
fn the_body_decides_the_wait_or_the_end() {
    assert_eq!(
        after_body("busy", Some(5), 0),
        AfterBody::Replay { delay_ms: 5000, next_attempt: 1 }
    );
    assert_eq!(
        after_body("busy", None, 0),
        AfterBody::Replay { delay_ms: 500, next_attempt: 1 }
    );
    assert_eq!(
        after_body("busy", None, 2),
        AfterBody::Replay { delay_ms: 2000, next_attempt: 3 }
    );
    assert_eq!(
        after_body(r#"{"error":{"message":"content moderation blocked this"}}"#, None, 0),
        AfterBody::Fail
    );
}

#[test]
fn backoff_doubles_from_half_a_second() {
    assert_eq!(backoff(0), 500);
    assert_eq!(backoff(1), 500);
    assert_eq!(backoff(2), 1000);
    assert_eq!(backoff(3), 2000);
    assert_eq!(backoff(4), 4000);
}

#[test]
fn permanent_errors_are_recognised_in_any_case() {
    assert!(is_permanent_error("Content Moderation blocked this"));
    assert!(is_permanent_error("INVALID_REQUEST"));
    assert!(is_permanent_error("upstream status 400: request rejected"));
    assert!(!is_permanent_error("upstream status 400"));
    assert!(!is_permanent_error("timeout"));
}

#[test]
fn response_meta_reads_the_headers_and_defaults_the_rest() {
    let m = parse_response_meta(Some(b"req_1"), Some(b"gpt"), Some(b"42"), None);
    assert_eq!(m.request_id, "req_1");
    assert_eq!(m.model, "gpt");
    assert_eq!(m.cost_ticks, 42);
    assert_eq!(m.balance_after, 0);
    let m = parse_response_meta(None, None, Some(b"abc"), Some(b"-7"));
    assert_eq!(m.request_id, "");
    assert_eq!(m.cost_ticks, 0);
    assert_eq!(m.balance_after, -7);
}

#[test]
fn the_header_fills_in_but_never_overwrites() {
    assert_eq!(backfill_ticks(0, 9), 9);
    assert_eq!(backfill_ticks(3, 9), 3);
    assert_eq!(backfill_text(String::new(), "hdr"), "hdr");
    assert_eq!(backfill_text("body".into(), "hdr"), "body");
}

#[test]
fn an_idempotency_key_is_the_callers_or_a_fresh_uuid() {
    assert_eq!(idempotency_key(Some("mine".into())), "mine");
    let a = idempotency_key(None);
    let b = idempotency_key(None);
    assert_eq!(a.len(), 36);
    assert_eq!(a.matches('-').count(), 4);
    assert_ne!(a, b);
}

#[test]
fn the_request_region_wins_over_the_client_region() {
    assert_eq!(region_override(Some(Region::Asia), false), Some(Region::Asia));
    assert_eq!(region_override(Some(Region::Asia), true), None);
    assert_eq!(region_override(None, false), None);
}

#[test]
fn the_default_timeout_is_ten_minutes() {
    let s = ClientBuilder::new("qai_test").settings().unwrap();
    assert_eq!(s.timeout, Duration::from_secs(600));
    assert_eq!(s.base_url, "https://api.quantumencoding.ai");
    assert!(s.headers.is_empty());
}

#[test]
fn build_errors_carry_no_request_id() {
    match ClientBuilder::new("qai_k\n").settings() {
        Err(Error::Api(api)) => {
            assert_eq!(api.status_code, 0);
            assert!(api.request_id.is_empty());
            assert!(api.message.starts_with("API key contains characters not allowed"));
        }
        _ => panic!("expected invalid_api_key"),
    }
    match ClientBuilder::new("qai_k").extra_header("bad name", "v").settings() {
        Err(Error::Api(api)) => {
            assert_eq!(api.code, "invalid_header");
            assert!(api.request_id.is_empty());
        }
        _ => panic!("expected invalid_header"),
    }
}

#[test]
fn the_app_tag_wins_in_either_order() {
    let a = ClientBuilder::new("qai_k")
        .app("mine")
        .extra_header("X-Quantum-App", "theirs")
        .settings()
        .unwrap();
    let b = ClientBuilder::new("qai_k")
        .extra_header("X-Quantum-App", "theirs")
        .app("mine")
        .settings()
        .unwrap();
    assert_eq!(a.headers, b.headers);
    assert_eq!(a.headers.last(), Some(&("X-Quantum-App".to_string(), "mine".to_string())));
}

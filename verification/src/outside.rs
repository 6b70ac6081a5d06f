//! The outside types this library carries through without looking inside:
//! the transport, decoding and WebSocket errors, the answer to a WebSocket
//! upgrade, and raw JSON values.

use vstd::prelude::*;

use reqwest::Error as ReqwestError;
use serde_json::Error as JsonError;
use serde_json::Value as JsonValue;
use tokio_tungstenite::tungstenite::Error as WebSocketError;

verus! {

/// An HTTP transport error from `reqwest`.
#[verifier::external_type_specification]
#[verifier::external_body]
pub struct ExReqwestError(ReqwestError);

/// A JSON encoding or decoding error from `serde_json`.
#[verifier::external_type_specification]
#[verifier::external_body]
pub struct ExJsonError(JsonError);

/// A WebSocket error from `tungstenite`.
#[verifier::external_type_specification]
#[verifier::external_body]
pub struct ExWebSocketError(WebSocketError);

/// An HTTP response from the `http` crate (as `tungstenite` re-exports
/// it): the answer to a WebSocket upgrade request.
#[verifier::external_type_specification]
#[verifier::external_body]
#[verifier::reject_recursive_types(T)]
pub struct ExHttpResponse<T>(tokio_tungstenite::tungstenite::http::Response<T>);

/// A raw JSON value, carried through opaquely.
#[verifier::external_type_specification]
#[verifier::external_body]
pub struct ExJsonValue(JsonValue);

/// `Duration` is `Copy`: its `clone` is a copy of the value.
pub assume_specification[ <std::time::Duration as Clone>::clone ](d: &std::time::Duration) -> (r: std::time::Duration)
    ensures
        r == *d,
;

/// `serde_json::Value::clone` (derived): a copy holding the same JSON.
pub assume_specification[ <JsonValue as Clone>::clone ](v: &JsonValue) -> (r: JsonValue)
    ensures
        r == *v,
;

} // verus!

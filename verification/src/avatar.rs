//! HeyGen Avatar Realtime (Broadcast) sessions.
//!
//! A realtime session makes an avatar speak live and publishes a plain HLS
//! stream (720p). Sessions are prepaid: the entire `max_duration_seconds`
//! block is charged at create time and is not refunded on early cancel
//! (cancelling only stops the upstream meter).
//!
//! Recommended flow:
//! 1. `Client::create_avatar_realtime_session` → `stream_id`
//! 2. Poll `Client::get_avatar_realtime_session` (~2s) until `status == "streaming"`,
//!    then play `hls_url`
//! 3. For `text_stream` sessions, append text with
//!    `Client::send_avatar_realtime_text` and close with `is_final: true`
//!    (idle timeout is ~30s without new text)
//! 4. `Client::cancel_avatar_realtime_session` as soon as you're done
//!
//! Not to be confused with the WebSocket voice realtime API in
//! [`crate::realtime`].

use vstd::prelude::*;

use crate::client::{backfill_ticks, backfill_text, ResponseMeta};

verus! {

/// Audio input union for `audio`-type realtime sessions,
/// discriminated by `input_type` (wire field `type`).
#[derive(Debug, Clone, Default)]
pub struct AvatarAudioInput {
    /// Input kind: "url" | "asset_id" | "base64".
    pub input_type: String,

    /// Publicly accessible HTTPS URL (when `input_type == "url"`).
    pub url: Option<String>,

    /// HeyGen asset id from an asset upload (when `input_type == "asset_id"`).
    pub asset_id: Option<String>,

    /// MIME type, e.g. "audio/mpeg" (when `input_type == "base64"`).
    pub media_type: Option<String>,

    /// Base64-encoded audio bytes (when `input_type == "base64"`).
    pub data: Option<String>,
}

/// Request body for creating a live avatar session (prepaid).
#[derive(Debug, Clone, Default)]
pub struct AvatarRealtimeRequest {
    /// Session kind: "tts" | "audio" | "text_stream".
    pub session_type: String,

    /// HeyGen photo-avatar / motion-avatar look id (required for all kinds).
    pub avatar_id: String,

    /// Voice id — required for "tts" and "text_stream", must be omitted for
    /// "audio". The omission rule is enforced by the gateway's HeyGen
    /// client before the upstream call and surfaces as a 502
    /// `provider_error`, not a 400.
    pub voice_id: Option<String>,

    /// The fixed script ("tts") or the initial non-empty seed ("text_stream").
    pub text: Option<String>,

    /// Audio input — required for "audio", must be omitted for "tts"/"text_stream".
    pub audio: Option<AvatarAudioInput>,

    /// Prepaid block in seconds (1–3600), charged in full at create time.
    pub max_duration_seconds: i32,
}

/// Response from creating a live avatar session.
#[derive(Debug, Clone)]
pub struct AvatarRealtimeCreateResponse {
    /// Session id — use in the status/text/cancel calls.
    pub stream_id: String,

    /// Always "pending" at create.
    pub status: String,

    /// Echo of `max_duration_seconds`.
    pub prepaid_seconds: i32,

    /// Ticks charged for the prepaid block.
    pub cost_ticks: i64,

    /// Post-deduction credit balance in ticks (from the X-QAI-Balance-After
    /// header).
    pub balance_after: i64,

    /// Unique request identifier.
    pub request_id: String,
}

/// Response from a session status check.
#[derive(Debug, Clone)]
pub struct AvatarRealtimeStatusResponse {
    /// Session id.
    pub stream_id: String,

    /// "pending" | "streaming" | "completed" | "error".
    pub status: String,

    /// HLS `.m3u8` playback URL (720p); present once streaming.
    pub hls_url: Option<String>,

    /// Failure detail when `status == "error"`.
    pub error_message: Option<String>,

    /// On completed text_stream sessions: "final_marker" | "idle_timeout".
    pub end_reason: Option<String>,

    /// Unique request identifier.
    pub request_id: String,
}

/// Request body for appending a text delta to a `text_stream` session.
#[derive(Debug, Clone, Default)]
pub struct AvatarRealtimeTextRequest {
    /// Text fragment to append (a token or coalesced batch). Required unless
    /// `is_final` is true, in which case it may be empty.
    pub delta: String,

    /// True closes the text input. Appending afterwards is refused by
    /// HeyGen; the gateway passes the upstream 4xx through as a
    /// `provider_error` (410 per HeyGen's documentation). Wire field:
    /// `final`.
    pub is_final: bool,
}

/// Response from appending a text delta.
#[derive(Debug, Clone)]
pub struct AvatarRealtimeTextResponse {
    /// Always true on success.
    pub ok: bool,

    /// Total text bytes buffered for the session so far.
    pub buffered_bytes: i64,

    /// Echo of the request's `final` flag. Wire field: `final`.
    pub is_final: bool,

    /// Unique request identifier.
    pub request_id: String,
}

/// Response from cancelling a session early.
#[derive(Debug, Clone)]
pub struct AvatarRealtimeCancelResponse {
    /// Session id.
    pub stream_id: String,

    /// True = this call initiated cancellation; false = the session was
    /// already terminal (cancel is idempotent).
    pub cancelled: bool,

    /// Unique request identifier.
    pub request_id: String,
}

impl AvatarRealtimeTextRequest {
    /// A request appending `delta` to the spoken text.
    pub fn delta(delta: &str) -> (r: AvatarRealtimeTextRequest)
        ensures
            r.delta@ == delta@,
            !r.is_final,
    {
        AvatarRealtimeTextRequest { delta: delta.to_owned(), is_final: false }
    }

    /// A close-the-stream request (empty final marker).
    pub fn final_marker() -> (r: AvatarRealtimeTextRequest)
        ensures
            r.delta@.len() == 0,
            r.is_final,
    {
        AvatarRealtimeTextRequest { delta: String::new(), is_final: true }
    }
}


impl AvatarRealtimeCreateResponse {
    /// Fills the cost, the balance after and the request id from the response headers where the body
    /// left them empty; a value the body carried is kept.
    pub fn backfill(&mut self, meta: &ResponseMeta)
        ensures
            final(self).cost_ticks == (if old(self).cost_ticks == 0 {
                meta.cost_ticks
            } else {
                old(self).cost_ticks
            }),
            final(self).balance_after == (if old(self).balance_after == 0 {
                meta.balance_after
            } else {
                old(self).balance_after
            }),
            final(self).request_id@ == (if old(self).request_id@.len() == 0 {
                meta.request_id@
            } else {
                old(self).request_id@
            }),
            *final(self) == (AvatarRealtimeCreateResponse { cost_ticks: final(self).cost_ticks, balance_after: final(self).balance_after, request_id: final(self).request_id, ..*old(self) }),
    {
        self.cost_ticks = backfill_ticks(self.cost_ticks, meta.cost_ticks);
        self.balance_after = backfill_ticks(self.balance_after, meta.balance_after);
        let mut id = String::new();
        std::mem::swap(&mut id, &mut self.request_id);
        self.request_id = backfill_text(id, meta.request_id.as_str());
    }
}

} // verus!

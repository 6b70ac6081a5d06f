//! Media sessions — server-side state for multi-turn Q&A over one uploaded
//! media file.
//!
//! A session pins three things on the gateway: a Gemini Files API resource
//! (uploaded via `Client::file_upload`), a Vertex
//! context cache built over that file at session boot, and the conversation
//! history. While the cache is alive a chat turn sends only the next user
//! message and is billed at the cached-read rate; once `expires_at` has
//! passed the turn re-sends the file inline at the full input rate and the
//! gateway rebuilds the cache afterwards.
//!
//! Sessions are stored server-side, so the same session id resumes from any
//! device.

use vstd::prelude::*;

use crate::chat::{ChatUsage};

verus! {

/// Request body for `POST /qai/v1/media-sessions`.
#[derive(Debug, Clone, Default)]
pub struct MediaSessionCreateRequest {
    /// Gemini Files API resource to pin, e.g. `files/abc123` or the
    /// fully-qualified upload URI. Required.
    pub file_uri: String,

    /// MIME type of the pinned file (e.g. `video/mp4`). Required.
    pub mime_type: String,

    /// Gemini model the session's cache is scoped to. Required, and must be a
    /// `gemini-*` id — context caching is Gemini-only.
    pub model: String,

    /// System prompt baked into the cached prefix, so follow-up turns get the
    /// cache discount on it too.
    pub system_instruction: Option<String>,

    /// Human-readable label for the session's cache. Defaults to the file URI
    /// tail.
    pub display_name: Option<String>,

    /// Requested cache TTL in seconds. Clamped server-side to `[60, 86400]`;
    /// defaults to 3600.
    pub cache_ttl_seconds: Option<i64>,
}

/// One persisted turn of a media session's conversation.
#[derive(Debug, Clone, Default)]
pub struct MediaSessionTurn {
    /// `"user"` or `"assistant"`.
    pub role: String,

    /// The message text.
    pub content: String,

    /// RFC3339 timestamp of the turn.
    pub at: Option<String>,
}

/// A media session record as returned by create / get / list.
#[derive(Debug, Clone, Default)]
pub struct MediaSession {
    /// Session identifier — the `{id}` in the session sub-routes.
    pub id: String,

    /// The pinned Gemini Files API resource.
    pub file_uri: String,

    /// MIME type of the pinned file.
    pub mime_type: String,

    /// The session's display name, else the tail of the file URI, else
    /// "untitled media session".
    pub file_display_name: Option<String>,

    /// Vertex cache resource name (`cachedContents/...`) backing the session.
    pub cache_name: String,

    /// Input-token count of the cache at default media resolution. Zero means
    /// the gateway could not determine it.
    pub cache_token_count: i64,

    /// Gemini model the session's cache is scoped to.
    pub model: String,

    /// System prompt baked into the cached prefix, if any.
    pub system_instruction: Option<String>,

    /// Conversation history, oldest first.
    pub history: Vec<MediaSessionTurn>,

    /// RFC3339 creation timestamp.
    pub created_at: Option<String>,

    /// RFC3339 timestamp of the last chat turn.
    pub last_used_at: Option<String>,

    /// RFC3339 timestamp at which the underlying cache expires.
    pub expires_at: Option<String>,

    /// Number of messages recorded on the session.
    pub message_count: i64,
}

/// Response from `GET /qai/v1/media-sessions`.
#[derive(Debug, Clone, Default)]
pub struct MediaSessionListResponse {
    /// The caller's sessions, most recently used first.
    pub sessions: Vec<MediaSession>,
}

/// Response from `POST /qai/v1/media-sessions/{id}/chat`.
#[derive(Debug, Clone, Default)]
pub struct MediaSessionChatResponse {
    /// The session the turn was appended to.
    pub session_id: String,

    /// The assistant's reply.
    pub answer: String,

    /// Token usage and cost for this turn.
    pub usage: Option<ChatUsage>,

    /// The session's full history including this turn.
    pub history: Vec<MediaSessionTurn>,
}

/// Response from `DELETE /qai/v1/media-sessions/{id}`.
#[derive(Debug, Clone, Default)]
pub struct MediaSessionDeleteResponse {
    /// True once the session record is deleted; releasing the context cache
    /// is best-effort and does not change the answer. Deleting an
    /// already-absent session also reports `true` — the call is idempotent.
    pub deleted: bool,

    /// Present when the session was already gone (`"already absent"`).
    pub note: Option<String>,
}

} // verus!

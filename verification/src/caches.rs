//! Gemini context caching.
//!
//! A cache pins an uploaded file (and an optional system prompt) at the
//! provider so follow-up turns are billed at the cached-read rate instead of
//! re-sending the whole file each time. Create a cache over a `file_uri` from
//! `Client::file_upload`, then pass the returned
//! `cache_name` as `cached_content` on subsequent chat requests.
//!
//! Caching is Gemini-only, and the provider requires a minimum of ~4096 tokens
//! of content — files below that are rejected with `cache_too_small`, and the
//! caller should fall back to attaching the file directly.

use vstd::prelude::*;

verus! {

/// Request body for `POST /qai/v1/caches`.
#[derive(Debug, Clone, Default)]
pub struct CacheCreateRequest {
    /// Provider file resource to cache (e.g. `files/abc123`). Required.
    pub file_uri: String,

    /// MIME type of the cached file. Required.
    pub mime_type: String,

    /// Gemini model id the cache is scoped to. Required — a cache can only be
    /// read back by the model it was created for.
    pub model: String,

    /// System prompt baked into the cached prefix so follow-up turns get the
    /// discount on it too.
    pub system_instruction: Option<String>,

    /// Human-readable label. Defaults to the file URI tail.
    pub display_name: Option<String>,

    /// Requested lifetime in seconds. Clamped server-side to `[60, 86400]`;
    /// defaults to 3600. Cached tokens bill per stored token-hour, so a long
    /// TTL over a large file is real money.
    pub ttl_seconds: Option<i64>,
}

/// Response from `POST /qai/v1/caches`.
#[derive(Debug, Clone, Default)]
pub struct CacheCreateResponse {
    /// Provider resource name (`cachedContents/...`). Pass verbatim as
    /// `cached_content` on chat requests.
    pub cache_name: String,

    /// The model the cache is scoped to, echoed back.
    pub model: String,

    /// RFC3339 expiry. Chat calls referencing the cache after this 404.
    pub expires_at: String,

    /// The label set at creation, or the auto-derived one.
    pub display_name: String,

    /// Number of tokens the cache occupies, when the provider reported it.
    pub token_count: i64,
}

/// Response from `DELETE /qai/v1/caches/{name}`.
#[derive(Debug, Clone, Default)]
pub struct CacheDeleteResponse {
    /// True once the cache is released. A cache that already expired also
    /// reports `true` — the call is idempotent.
    pub deleted: bool,

    /// Present when the cache was already gone
    /// (`"already expired or unknown"`).
    pub note: Option<String>,
}

} // verus!

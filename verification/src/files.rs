//! Multimodal file uploads.
//!
//! `POST /qai/v1/files` proxies a single file to Gemini's Files API and returns
//! a `file_uri` that can be attached to a subsequent chat request as a
//! `file_uri` part, pinned by a context cache
//! (`Client::cache_create`), or used to open a
//! media session (`Client::media_session_create`).
//!
//! The gateway holds the provider credential, caps the body at 100 MiB, and
//! enforces a MIME allowlist: PNG / JPEG / WebP / HEIC / HEIF images, MP4 /
//! WebM / QuickTime video, MPEG / WAV / OGG / FLAC audio, and PDF.

use vstd::prelude::*;

verus! {

/// Response from `POST /qai/v1/files`.
#[derive(Debug, Clone, Default)]
pub struct FileUploadResponse {
    /// The provider resource URI to attach to later calls.
    pub file_uri: String,

    /// Provider resource name (`files/<id>`).
    pub name: String,

    /// MIME type as recorded by the provider.
    pub mime_type: String,

    /// Size of the stored file in bytes.
    pub size_bytes: i64,

    /// Duration in seconds for video uploads; zero for images, audio, and PDFs.
    pub duration_seconds: i64,

    /// RFC3339 expiry, when the provider reported one. Files are transient —
    /// re-upload after expiry.
    pub expires_at: String,
}

} // verus!

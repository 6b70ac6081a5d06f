use std::collections::HashMap;

use vstd::prelude::*;

use crate::client::{backfill_ticks, backfill_text, ResponseMeta};

use crate::query::{add_encoded, add_number, add_param, add_verbatim, encoded, from_i32, from_i64, from_u32, numeral, opt_param, path_with_query, texts, verbatim, with_query};
use crate::text::{push_str, string_from_chars};

use crate::jobs::{JobAcceptedResponse};

verus! {

/// Request body for video generation.
#[derive(Debug, Clone, Default)]
pub struct VideoRequest {
    /// Video generation model (e.g. "heygen", "grok-imagine-video", "sora-2", "veo-2").
    pub model: String,

    /// Describes the video to generate.
    pub prompt: String,

    /// Target video duration in seconds (default 8).
    pub duration_seconds: Option<i32>,

    /// Video aspect ratio (e.g. "16:9", "9:16").
    pub aspect_ratio: Option<String>,

    /// Catalog-schema-driven extra parameters (resolution, sample_count,
    /// negative_prompt, person_generation, generate_audio, …). Flattened to
    /// top-level JSON so any param the backend's /qai/v1/videos accepts is
    /// forwarded without a typed field. Empty map serializes to nothing.
    pub extra: HashMap<String, serde_json::Value>,
}

/// Response from video generation.
#[derive(Debug, Clone)]
pub struct VideoResponse {
    /// Generated videos.
    pub videos: Vec<GeneratedVideo>,

    /// Model that generated the videos.
    pub model: String,

    /// Total cost in ticks.
    pub cost_ticks: i64,

    /// Credit balance in ticks after this request was charged.
    pub balance_after: i64,

    /// Unique request identifier.
    pub request_id: String,
}

/// A single generated video.
#[derive(Debug, Clone)]
pub struct GeneratedVideo {
    /// Base64-encoded video bytes (never a URL on this route).
    pub base64: String,

    /// Video format (e.g. "mp4").
    pub format: String,

    /// Video file size.
    pub size_bytes: i64,

    /// Video index within the batch.
    pub index: i32,
}

/// Alias of [`JobAcceptedResponse`]: the HeyGen routes answer with the
/// shared 202 job envelope.
pub type JobResponse = JobAcceptedResponse;

/// Request body for a HeyGen studio talking-head video: one avatar reading
/// one script in one voice. All three fields are required.
///
/// Submission is gated by a balance preflight estimated from the script
/// length (per-second render rate at a nominal reading speed, with a
/// minimum), so an under-funded caller gets 402 at submit rather than a
/// failed job.
#[derive(Debug, Clone, Default)]
pub struct VideoStudioRequest {
    /// HeyGen avatar id.
    pub avatar_id: String,

    /// Script the avatar speaks.
    pub script: String,

    /// HeyGen voice id.
    pub voice_id: String,
}

/// Backwards-compatible alias.
pub type StudioVideoRequest = VideoStudioRequest;

/// Request body for video translation. The source must be reachable by
/// URL; there is no inline-bytes variant on this route.
#[derive(Debug, Clone, Default)]
pub struct VideoTranslateRequest {
    /// URL of the video to translate (required).
    pub video_url: String,

    /// Target language (required).
    pub output_language: String,

    /// Source language (auto-detected if omitted).
    pub source_language: Option<String>,

    /// Title for the translated video.
    pub title: Option<String>,
}

/// Backwards-compatible alias.
pub type TranslateRequest = VideoTranslateRequest;

/// Request body for creating a talking-photo video: a photo animated to
/// speak a script.
#[derive(Debug, Clone, Default)]
pub struct PhotoAvatarRequest {
    /// Base64-encoded photo.
    pub photo_base64: String,

    /// Script text for the avatar to speak.
    pub script: String,

    /// Voice ID.
    pub voice_id: Option<String>,

    /// Aspect ratio.
    pub aspect_ratio: Option<String>,
}

/// Request body for creating a digital twin from training footage
/// (`POST /qai/v1/video/digital-twin`). This trains an avatar; it does not
/// render a video — see [`TwinVideoRequest`] for that.
///
/// A flat fee is held before the body is decoded and released on every
/// error path, so a rejected request costs nothing but a ledger round-trip.
#[derive(Debug, Clone, Default)]
pub struct DigitalTwinCreateRequest {
    /// Display name for the twin.
    pub name: String,

    /// URL of the training footage (required).
    pub video_url: String,

    /// Add the look to an existing avatar group instead of creating one.
    pub avatar_group_id: Option<String>,
}

/// Response from creating a digital twin (synchronous, not a job).
#[derive(Debug, Clone)]
pub struct DigitalTwinCreateResponse {
    /// Echo of the twin's name.
    pub name: String,

    /// Consent-recording link the subject must complete before the twin
    /// can render.
    pub consent_url: String,

    /// Billing model label.
    pub model: String,

    /// Avatar group id holding the twin (absent if HeyGen returned none).
    pub group_id: Option<String>,

    /// Group training status.
    pub status: Option<String>,

    /// Consent status of the group.
    pub consent_status: Option<String>,

    /// Look id usable as `avatar_id` in [`TwinVideoRequest`].
    pub avatar_id: Option<String>,

    /// Unique request identifier.
    pub request_id: String,
}

/// Request body for rendering a video of a trained avatar look
/// (`POST /qai/v1/video/twin-video`, async job type "video/twin").
///
/// Exactly one of `script` or `audio_base64` is required; `voice_id` is
/// required with `script`. Billed per generated second at settle; a
/// balance preflight rejects under-funded callers with 402 at submit.
#[derive(Debug, Clone, Default)]
pub struct TwinVideoRequest {
    /// Avatar look id (a trained twin or a preset).
    pub avatar_id: String,

    /// Script for a HeyGen TTS voice to read.
    pub script: Option<String>,

    /// HeyGen voice id (required with `script`).
    pub voice_id: Option<String>,

    /// Base64-encoded narration audio (alternative to `script`).
    pub audio_base64: Option<String>,

    /// MIME type of `audio_base64` (e.g. "audio/mpeg").
    pub audio_media_type: Option<String>,

    /// Aspect ratio (e.g. "16:9").
    pub aspect_ratio: Option<String>,

    /// Output resolution.
    pub resolution: Option<String>,

    /// Video title.
    pub title: Option<String>,

    /// Render engine; omitted = best supported.
    pub engine: Option<String>,
}

/// A HeyGen avatar look.
#[derive(Debug, Clone)]
pub struct Avatar {
    /// Avatar identifier (what the video routes accept as `avatar_id`).
    pub avatar_id: String,

    /// Avatar name. Wire field: `avatar_name`.
    pub name: String,

    /// Avatar gender.
    pub gender: String,

    /// Preview image URL. Wire field: `preview_image_url`.
    pub preview_url: String,

    /// Look type: "studio_avatar" | "digital_twin" | "photo_avatar".
    /// Wire field: `type`.
    pub avatar_type: String,
}

/// Response from listing HeyGen avatars.
#[derive(Debug, Clone)]
pub struct AvatarsResponse {
    /// Available avatars.
    pub avatars: Vec<Avatar>,

    /// Unique request identifier.
    pub request_id: String,
}

/// A HeyGen video template (API-ready, draft-v4 templates only).
#[derive(Debug, Clone)]
pub struct VideoTemplate {
    /// Template identifier.
    pub template_id: String,

    /// Template name.
    pub name: String,

    /// Thumbnail image URL. Wire field: `thumbnail_image_url`.
    pub thumbnail_url: String,
}

/// Response from listing HeyGen video templates.
#[derive(Debug, Clone)]
pub struct VideoTemplatesResponse {
    /// Available templates.
    pub templates: Vec<VideoTemplate>,

    /// Unique request identifier.
    pub request_id: String,
}

/// A variable slot referenced by a template scene.
#[derive(Debug, Clone)]
pub struct VideoTemplateSceneVariable {
    /// Variable name (key into the template's `variables` map).
    pub name: String,

    /// Variable kind (e.g. "text", "image", "character", "voice").
    pub variable_type: String,
}

/// A scene in a template, in template order.
#[derive(Debug, Clone)]
pub struct VideoTemplateScene {
    /// Scene identifier (usable in a generate request's `scene_ids`).
    pub scene_id: String,

    /// Scene script with placeholders unreplaced (e.g. "Introducing {{headline}}...").
    pub script: String,

    /// Variables referenced by this scene.
    pub variables: Vec<VideoTemplateSceneVariable>,
}

/// Detailed template info: variable schema + scenes.
///
/// Each `variables[name]` value is a discriminated union on its `"type"` field
/// ("text" | "image" | "video" | "audio" | "voice" | "character"; unknown
/// future types round-trip verbatim), returned in the exact shape a generate
/// request accepts — replace defaults and submit back.
#[derive(Debug, Clone)]
pub struct VideoTemplateDetail {
    /// Template identifier.
    pub id: String,

    /// Template name.
    pub name: String,

    /// Aspect ratio (e.g. "16:9").
    pub aspect_ratio: String,

    /// Variable schema keyed by variable name (union values kept as raw JSON
    /// so unknown future variable types round-trip verbatim).
    pub variables: HashMap<String, serde_json::Value>,

    /// Scenes in template order.
    pub scenes: Vec<VideoTemplateScene>,
}

/// Response from inspecting a template's variable schema (unbilled).
#[derive(Debug, Clone)]
pub struct VideoTemplateDetailResponse {
    /// The template detail.
    pub template: VideoTemplateDetail,

    /// Unique request identifier.
    pub request_id: String,
}

/// Output dimension for a template render. Both values must be even,
/// each 128–4096, and keep the template aspect ratio.
#[derive(Debug, Clone, Default)]
pub struct VideoTemplateDimension {
    pub width: i32,
    pub height: i32,
}

/// Request body for submitting a batch of videos.
#[derive(Debug, Clone, Default)]
pub struct VideoBatchSubmitRequest {
    /// 1–100 raw HeyGen `POST /v3/videos` request bodies, passed through
    /// verbatim. Each is polymorphic, discriminated by its `"type"` field
    /// ("avatar" | "image" | "cinematic_avatar"), so items are kept as
    /// opaque JSON objects.
    pub videos: Vec<serde_json::Value>,

    /// Display name for the batch in the HeyGen app.
    pub title: Option<String>,
}

/// Response from submitting a video batch (202 Accepted).
#[derive(Debug, Clone)]
pub struct VideoBatchSubmitResponse {
    /// Batch id — poll `Client::video_batch_status` with it.
    pub batch_id: String,

    /// Always "processing" at submit.
    pub status: String,

    /// Count of submitted items.
    pub total_items: i32,

    /// Unique request identifier.
    pub request_id: String,
}

/// Query parameters for the batch status page.
#[derive(Debug, Clone, Default)]
pub struct VideoBatchStatusQuery {
    /// Page size (1–100; upstream default 100).
    pub limit: Option<i32>,

    /// Opaque cursor from a previous response's `next_token`.
    pub token: Option<String>,
}

/// Per-item error detail in a batch status page.
#[derive(Debug, Clone)]
pub struct VideoBatchItemError {
    pub code: String,

    pub message: String,
}

/// One item of a batch status page, ordered by `item_index`.
#[derive(Debug, Clone)]
pub struct VideoBatchItem {
    /// Zero-based position in the submitted `videos` array.
    pub item_index: i32,

    /// "queued" | "processing" | "completed" | "failed".
    pub status: String,

    /// Present once the item's video exists.
    pub video_id: Option<String>,

    /// Present only when `billing_status == "settled"` and the item completed.
    pub video_url: Option<String>,

    /// Present only when the item failed.
    pub error: Option<VideoBatchItemError>,
}

/// Response from a batch status check (one cursor-paginated page of items).
///
/// Billing settles the first time a GET observes a terminal batch status;
/// `video_url` values are withheld until `billing_status == "settled"` —
/// keep polling until then to obtain URLs.
#[derive(Debug, Clone)]
pub struct VideoBatchStatusResponse {
    /// Batch id.
    pub batch_id: String,

    /// Batch display name (may be empty).
    pub title: String,

    /// Batch-level status: "processing" | "completed" | "failed".
    pub status: String,

    /// Count of submitted items.
    pub total_items: i32,

    /// Per-item-status counts across the whole batch.
    pub counts_by_status: HashMap<String, i32>,

    /// Batch creation time in unix seconds (upstream HeyGen timestamp).
    pub created_at: i64,

    /// One page of items, ordered by `item_index`.
    pub items: Vec<VideoBatchItem>,

    /// More item pages exist.
    pub has_more: bool,

    /// Pass as `token` for the next page (may be empty).
    pub next_token: String,

    /// "unsettled" | "settlement_pending" | "settled".
    pub billing_status: String,

    /// Total ticks charged for the batch; 0 until settled.
    pub cost_ticks: i64,

    /// Unique request identifier.
    pub request_id: String,
}

/// A HeyGen voice.
#[derive(Debug, Clone)]
pub struct HeyGenVoice {
    /// Voice identifier.
    pub voice_id: String,

    /// Voice name. Wire field: `display_name`.
    pub name: String,

    /// Language.
    pub language: String,

    /// Gender.
    pub gender: String,

    /// Preview audio URL. Wire field: `preview_audio`.
    pub preview_url: String,
}

/// Response from listing HeyGen voices.
#[derive(Debug, Clone)]
pub struct HeyGenVoicesResponse {
    /// Available voices (public catalog followed by the account's private
    /// voices).
    pub voices: Vec<HeyGenVoice>,

    /// Unique request identifier.
    pub request_id: String,
}

/// The status route of a video batch: `limit` and the URL-encoded `token`
/// when set.
pub fn video_batch_status_path(batch_id: &str, query: &VideoBatchStatusQuery) -> (r: String)
    ensures
        r@ == with_query(
            "/qai/v1/video/batch/"@ + batch_id@,
            opt_param("limit"@, numeral(from_i32(query.limit))) + opt_param(
                "token"@,
                encoded(query.token),
            ),
        ),
{
    let mut params: Vec<String> = Vec::new();
    assert(texts(params@) =~= Seq::empty());
    add_number(&mut params, "limit", match query.limit {
        Some(n) => Some(n as i64),
        None => None,
    });
    add_encoded(&mut params, "token", &query.token);
    let mut base: Vec<char> = Vec::new();
    push_str(&mut base, "/qai/v1/video/batch/");
    push_str(&mut base, batch_id);
    let base = string_from_chars(base);
    path_with_query(base.as_str(), &params)
}


impl VideoResponse {
    /// Fills the cost and the request id from the response headers where the body
    /// left them empty; a value the body carried is kept.
    pub fn backfill(&mut self, meta: &ResponseMeta)
        ensures
            final(self).cost_ticks == (if old(self).cost_ticks == 0 {
                meta.cost_ticks
            } else {
                old(self).cost_ticks
            }),
            final(self).request_id@ == (if old(self).request_id@.len() == 0 {
                meta.request_id@
            } else {
                old(self).request_id@
            }),
            *final(self) == (VideoResponse { cost_ticks: final(self).cost_ticks, request_id: final(self).request_id, ..*old(self) }),
    {
        self.cost_ticks = backfill_ticks(self.cost_ticks, meta.cost_ticks);
        let mut id = String::new();
        std::mem::swap(&mut id, &mut self.request_id);
        self.request_id = backfill_text(id, meta.request_id.as_str());
    }
}

impl DigitalTwinCreateResponse {
    /// Fills the request id from the response headers where the body
    /// left them empty; a value the body carried is kept.
    pub fn backfill(&mut self, meta: &ResponseMeta)
        ensures
            final(self).request_id@ == (if old(self).request_id@.len() == 0 {
                meta.request_id@
            } else {
                old(self).request_id@
            }),
            *final(self) == (DigitalTwinCreateResponse { request_id: final(self).request_id, ..*old(self) }),
    {
        let mut id = String::new();
        std::mem::swap(&mut id, &mut self.request_id);
        self.request_id = backfill_text(id, meta.request_id.as_str());
    }
}

} // verus!

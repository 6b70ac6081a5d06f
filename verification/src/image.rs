use vstd::prelude::*;

use crate::client::{backfill_ticks, backfill_text, ResponseMeta};

verus! {

/// Request body for image generation.
#[derive(Debug, Clone, Default)]
pub struct ImageRequest {
    /// Image generation model (e.g. "grok-imagine-image", "gpt-image-1", "dall-e-3").
    pub model: String,

    /// Describes the image to generate.
    pub prompt: String,

    /// Number of images to generate (default 1).
    pub count: Option<i32>,

    /// Output dimensions (e.g. "1024x1024", "1536x1024").
    pub size: Option<String>,

    /// Aspect ratio (e.g. "16:9", "1:1").
    pub aspect_ratio: Option<String>,

    /// Quality level (e.g. "standard", "hd").
    pub quality: Option<String>,

    /// Image format (e.g. "png", "jpeg", "webp").
    pub output_format: Option<String>,

    /// Style preset (e.g. "vivid", "natural"). DALL-E 3 specific.
    pub style: Option<String>,

    /// Background mode (e.g. "auto", "transparent", "opaque"). GPT-Image specific.
    pub background: Option<String>,

    /// Image URL or data URI for image-to-3D conversion (Meshy).
    pub image_url: Option<String>,

    // ── Meshy 3D generation options ──
    /// Mesh topology: "triangle" or "quad".
    pub topology: Option<String>,

    /// Target polygon count (100-300,000).
    pub target_polycount: Option<i32>,

    /// Symmetry mode: "auto", "on", or "off".
    pub symmetry_mode: Option<String>,

    /// Pose mode: "", "a-pose", or "t-pose".
    pub pose_mode: Option<String>,

    /// Generate PBR texture maps (base_color, metallic, roughness, normal).
    pub enable_pbr: Option<bool>,

    /// Catalog-schema-driven extra parameters (e.g. resolution, output_compression,
    /// number_of_images, negative_prompt). Flattened to top-level JSON so any param
    /// the backend's /qai/v1/images accepts is forwarded without a typed field.
    /// An empty map serializes to nothing.
    pub extra: std::collections::HashMap<String, serde_json::Value>,
}

/// Response from image generation.
/// `#[non_exhaustive]`: this is only ever deserialised from a gateway reply,
/// never built by a caller, so sealing it costs nothing and makes every future
/// field a patch release instead of a breaking one.
///
/// The request types below are deliberately NOT sealed. `#[non_exhaustive]`
/// forbids struct-literal construction from another crate — including with
/// `..Default::default()`, which is the idiom every caller uses — so sealing a
/// type people build would trade one break now for worse ergonomics forever.
#[derive(Debug, Clone)]
pub struct ImageResponse {
    /// Generated images.
    pub images: Vec<GeneratedImage>,

    /// Model that generated the images.
    pub model: String,

    /// Total cost in ticks.
    pub cost_ticks: i64,

    /// Post-deduction credit balance in ticks. Zero for free or cached
    /// calls, or when the response omits it.
    pub balance_after: i64,

    /// Unique request identifier.
    pub request_id: String,

    /// The prompt the provider actually generated from, when it rewrote the
    /// one it was given.
    ///
    /// gpt-image routinely rewrites; the picture is made from this text, not
    /// from what was sent. A caller holding only its own prompt cannot
    /// reproduce its own image, and cannot tell why the output drifted.
    /// Absent when the provider returned no rewrite.
    pub revised_prompt: Option<String>,

    /// The token counts the charge was computed from, for models priced on
    /// tokens rather than per image.
    ///
    /// Flat-priced models report none and the field is absent: the rate is
    /// per image and checkable without them. For a token-priced model this is
    /// the whole audit — two real gpt-image-2 generations on the same day came
    /// back at $0.0527 and $0.01628, a 3x spread with nothing else on the wire
    /// to explain it.
    pub usage: Option<ImageUsage>,
}

/// The token counts behind a token-priced image charge.
#[derive(Debug, Clone, Default)]
pub struct ImageUsage {
    pub prompt_tokens: i64,
    pub completion_tokens: i64,
    pub total_tokens: i64,
}

/// A single generated image.
#[derive(Debug, Clone)]
pub struct GeneratedImage {
    /// Base64-encoded image data.
    pub base64: String,

    /// Image format (e.g. "png", "jpeg").
    pub format: String,

    /// Image index within the batch.
    pub index: i32,
}

/// Request body for image editing.
#[derive(Debug, Clone, Default)]
pub struct ImageEditRequest {
    /// Editing model (e.g. "gpt-image-1", "grok-imagine-image").
    pub model: String,

    /// Describes the desired edit.
    pub prompt: String,

    /// Base64-encoded input images.
    pub input_images: Vec<String>,

    /// Number of edited images to generate (default 1).
    pub count: Option<i32>,

    /// Output dimensions.
    pub size: Option<String>,

    /// Aspect ratio, e.g. "1:1" or "16:9" (Gemini).
    pub aspect_ratio: Option<String>,

    /// Resolution tier: "1K", "2K", "4K" (Gemini Pro / Nano Banana 2).
    ///
    /// Distinct from `size`, which is OpenAI's pixel enum. The two name
    /// different things and both reach the gateway.
    pub image_size: Option<String>,

    /// Render effort: "auto", "low", "medium", "high" (OpenAI).
    pub quality: Option<String>,

    /// Output container: "png", "jpeg", "webp".
    pub output_format: Option<String>,

    /// Background mode: "auto", "transparent", "opaque" (OpenAI).
    pub background: Option<String>,

    /// "high" preserves faces across an edit (OpenAI).
    pub input_fidelity: Option<String>,

    /// Search grounding (Gemini Pro).
    pub grounding: Option<bool>,
}

/// Response from image editing (same shape as generation).
pub type ImageEditResponse = ImageResponse;


impl ImageResponse {
    /// Fills the cost, the balance after and the request id from the response headers where the body
    /// left them empty; a value the body carried is kept.
    pub fn backfill(&mut self, meta: &ResponseMeta)
        ensures
            final(self).cost_ticks == (if old(self).cost_ticks == 0 {
                meta.cost_ticks
            } else {
                old(self).cost_ticks
            }),
            final(self).balance_after == (if old(self).balance_after == 0 {
                meta.balance_after
            } else {
                old(self).balance_after
            }),
            final(self).request_id@ == (if old(self).request_id@.len() == 0 {
                meta.request_id@
            } else {
                old(self).request_id@
            }),
            *final(self) == (ImageResponse { cost_ticks: final(self).cost_ticks, balance_after: final(self).balance_after, request_id: final(self).request_id, ..*old(self) }),
    {
        self.cost_ticks = backfill_ticks(self.cost_ticks, meta.cost_ticks);
        self.balance_after = backfill_ticks(self.balance_after, meta.balance_after);
        let mut id = String::new();
        std::mem::swap(&mut id, &mut self.request_id);
        self.request_id = backfill_text(id, meta.request_id.as_str());
    }
}

} // verus!

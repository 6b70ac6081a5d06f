use std::collections::HashMap;

use vstd::prelude::*;

verus! {

/// Request body for vision analysis endpoints.
#[derive(Debug, Clone, Default)]
pub struct VisionRequest {
    /// Base64-encoded image (with or without data: prefix).
    pub image_base64: Option<String>,

    /// Image URL (fetched by the model provider).
    pub image_url: Option<String>,

    /// Model to use. Default: gemini-2.5-flash.
    pub model: Option<String>,

    /// Analysis profile: "combined" (default), "scene", "objects", "ocr", "quality".
    pub profile: Option<String>,

    /// Domain context for relevance checking.
    pub context: Option<VisionContext>,
}

/// Domain context for relevance analysis.
#[derive(Debug, Clone, Default)]
pub struct VisionContext {
    /// Installation type (e.g. "solar", "heat_pump", "ev_charger").
    pub installation_type: Option<String>,

    /// Phase (e.g. "pre_install", "installation", "post_install").
    pub phase: Option<String>,

    /// Expected items for relevance checking.
    pub expected_items: Option<Vec<String>>,
}

/// OCR / text extraction result.
#[derive(Debug, Clone, Default)]
pub struct OcrResult {
    /// All extracted text concatenated.
    pub text: Option<String>,

    /// Extracted metadata (GPS, timestamp, address, etc.).
    pub metadata: HashMap<String, String>,

    /// Individual text overlays with positions.
    pub overlays: Vec<TextOverlay>,
}

/// A detected text region in the image.
#[derive(Debug, Clone, Default)]
pub struct TextOverlay {
    /// Extracted text content.
    pub text: String,

    /// Bounding box: [y_min, x_min, y_max, x_max] normalised to 0-1000.
    pub bounding_box: Option<[i32; 4]>,

    /// Overlay type: "gps", "timestamp", "address", "label", "other".
    pub overlay_type: Option<String>,
}

} // verus!

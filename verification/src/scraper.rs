use vstd::prelude::*;

verus! {

/// A single scrape target.
#[derive(Debug, Clone, Default)]
pub struct ScrapeTarget {
    /// Target name.
    pub name: String,

    /// Start URL to scrape.
    pub url: String,

    /// Target type: "scrape" (default) or "openapi".
    pub target_type: Option<String>,

    /// CSS selector for navigation links.
    pub selector: Option<String>,

    /// CSS selector for content area.
    pub content: Option<String>,

    /// Joplin notebook name.
    pub notebook: Option<String>,

    /// Enable recursive link discovery.
    pub recursive: Option<bool>,

    /// Maximum pages to scrape.
    pub max_pages: Option<i32>,

    /// Delay between pages in milliseconds.
    pub delay_ms: Option<i32>,

    /// RAG provider name for auto-ingest.
    pub ingest: Option<String>,

    /// OpenAPI spec URL (for type=openapi targets).
    pub spec_url: Option<String>,
}

/// Request body for submitting a scrape job.
#[derive(Debug, Clone, Default)]
pub struct ScrapeRequest {
    /// Targets to scrape.
    pub targets: Vec<ScrapeTarget>,
}

/// Response from submitting a scrape job.
#[derive(Debug, Clone)]
pub struct ScrapeResponse {
    /// Job identifier for polling.
    pub job_id: String,

    /// Initial status.
    pub status: String,

    /// Number of targets submitted.
    pub targets: i32,

    /// Unique request identifier.
    pub request_id: String,
}

/// A single URL to screenshot.
#[derive(Debug, Clone, Default)]
pub struct ScreenshotURL {
    /// Page URL to capture.
    pub url: String,

    /// Viewport width (default 1280).
    pub width: Option<i32>,

    /// Viewport height (default 800).
    pub height: Option<i32>,

    /// Capture full scrollable page.
    pub full_page: Option<bool>,

    /// Wait before capture in milliseconds (default 1000).
    pub delay_ms: Option<i32>,
}

/// Request body for taking screenshots.
#[derive(Debug, Clone, Default)]
pub struct ScreenshotRequest {
    /// URLs to screenshot.
    pub urls: Vec<ScreenshotURL>,
}

/// A single screenshot result.
#[derive(Debug, Clone)]
pub struct ScreenshotResult {
    /// Source URL.
    pub url: String,

    /// Base64-encoded image data.
    pub base64: String,

    /// Image format (e.g. "png").
    pub format: String,

    /// Viewport width used.
    pub width: i32,

    /// Viewport height used.
    pub height: i32,

    /// Error message if capture failed.
    pub error: Option<String>,
}

/// Response from the screenshot endpoint (synchronous batch).
#[derive(Debug, Clone)]
pub struct ScreenshotResponse {
    /// Screenshot results.
    pub screenshots: Vec<ScreenshotResult>,

    /// Number of screenshots.
    pub count: i32,
}

/// Response from async screenshot job submission.
#[derive(Debug, Clone)]
pub struct ScreenshotJobResponse {
    /// Job identifier for polling.
    pub job_id: String,

    /// Initial status.
    pub status: String,

    /// Number of URLs submitted.
    pub urls: i32,

    /// Unique request identifier.
    pub request_id: String,
}

} // verus!

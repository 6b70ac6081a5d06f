use vstd::prelude::*;

use crate::query::{add_encoded, add_number, add_verbatim, encoded, from_i64, from_u32, numeral, opt_param, path_with_query, texts, verbatim, with_query};

verus! {

/// Request body for scanning a URL for prompt injection.
#[derive(Debug, Clone)]
pub struct SecurityScanUrlRequest {
    /// URL to scan.
    pub url: String,
}

/// Request body for scanning raw HTML content.
#[derive(Debug, Clone, Default)]
pub struct SecurityScanHtmlRequest {
    /// Raw HTML to scan.
    pub html: String,

    /// Rendered visible text (for structural analysis).
    pub visible_text: Option<String>,

    /// Source URL (for context).
    pub url: Option<String>,
}

/// Request body for `POST /qai/v1/security/scan-code`.
///
/// Two modes: set `code` (with `filename` so the language can be detected) to
/// scan one file, or set `url` to clone a GitHub repository and scan a tree.
/// One of the two is required.
#[derive(Debug, Clone, Default)]
pub struct SecurityScanCodeRequest {
    /// Source of the single file to scan.
    pub code: Option<String>,

    /// Filename for `code`; the language is detected from its extension.
    pub filename: Option<String>,

    /// Language override, when the filename does not settle it.
    pub language: Option<String>,

    /// GitHub repository URL to clone and scan instead of `code`.
    pub url: Option<String>,

    /// Branch to check out for `url`.
    pub branch: Option<String>,

    /// Subdirectory of the checkout to scan. Must be relative and stay inside
    /// the repository root.
    pub path: Option<String>,
}

/// One issue found by the code security scan.
#[derive(Debug, Clone, Default)]
pub struct CodeScanFinding {
    /// Issue category.
    pub category: String,

    /// Severity (`critical`, `high`, `medium`, `low`).
    pub severity: String,

    /// The rule that matched.
    pub pattern: String,

    /// File the issue is in.
    pub file: String,

    /// Line the issue is on.
    pub line: i64,

    /// The offending line, truncated.
    pub content: String,

    /// What is wrong.
    pub description: String,

    /// Suggested fix, when the rule carries one.
    pub fix: String,

    /// Whether this matches a known machine-generated code pattern.
    pub ai_pattern: bool,
}

/// Request body for reporting a suspicious URL.
#[derive(Debug, Clone)]
pub struct SecurityReportRequest {
    /// URL to report.
    pub url: String,

    /// Description of the suspected threat.
    pub description: Option<String>,

    /// Category of the suspected threat.
    pub category: Option<String>,
}

/// Response from reporting a URL.
#[derive(Debug, Clone)]
pub struct SecurityReportResponse {
    /// URL that was reported.
    pub url: String,

    /// Report status: "existing" or "suspected".
    pub status: String,

    /// Message.
    pub message: String,

    /// Threat level (if already in registry).
    pub threat_level: Option<String>,
}

/// The registry check route for a URL (URL-encoded).
pub fn security_check_path(url: &str) -> (r: String)
    ensures
        r@ == with_query(
            "/qai/v1/security/check"@,
            opt_param("url"@, Some(crate::encoding::url_encoded(url@))),
        ),
{
    let mut params: Vec<String> = Vec::new();
    assert(texts(params@) =~= Seq::empty());
    add_encoded(&mut params, "url", &Some(url.to_owned()));
    path_with_query("/qai/v1/security/check", &params)
}

/// The blocklist route, with `status` (as given) when set.
pub fn security_blocklist_path(status: &Option<String>) -> (r: String)
    ensures
        r@ == with_query("/qai/v1/security/blocklist"@, opt_param("status"@, verbatim(*status))),
{
    let mut params: Vec<String> = Vec::new();
    assert(texts(params@) =~= Seq::empty());
    add_verbatim(&mut params, "status", status);
    path_with_query("/qai/v1/security/blocklist", &params)
}

} // verus!

//! Code scanner — structural analysis of a codebase.
//!
//! The scanner parses a source tree (a GitHub URL, an OpenAPI spec, or an
//! uploaded tar.gz) into a [`CodebaseGraph`] of modules, types, fields,
//! functions, and call edges. Scans are persisted per-user and can then be
//! diffed against each other, verified against a [`Blueprint`], queried a type
//! at a time for agent grounding, or rendered as an SVG graph.
//!
//! `Client::scanner_audit` is a separate, LLM-backed pass: it returns a job
//! id immediately and analyses each file asynchronously — poll it with
//! `Client::get_job`.

use vstd::prelude::*;

use crate::encoding::{url_encode, url_encoded};
use crate::text::{push_str, string_from_chars};

verus! {

/// A source file or module in a scanned codebase.
#[derive(Debug, Clone, Default)]
pub struct CodeModule {
    /// Path relative to the scan root.
    pub path: String,

    /// Detected language (`rust`, `go`, `typescript`, `python`, `swift`,
    /// `kotlin`).
    pub language: String,

    /// Line count.
    pub lines: i64,
}

/// A field within a [`CodeType`].
#[derive(Debug, Clone, Default)]
pub struct CodeField {
    /// Field name as declared.
    pub name: String,

    /// Declared type, as source text. Wire name: `type`.
    pub field_type: String,

    /// Whether the field is optional / nullable.
    pub optional: bool,

    /// Serialised name from a JSON tag / serde rename, when the source
    /// declares one.
    pub json_tag: String,
}

/// A struct, class, interface, enum, or data class.
#[derive(Debug, Clone, Default)]
pub struct CodeType {
    /// Type name.
    pub name: String,

    /// Declaration kind (`struct`, `class`, `interface`, `enum`,
    /// `data_class`).
    pub kind: String,

    /// File the type is declared in.
    pub file: String,

    /// First line of the declaration.
    pub line_start: i64,

    /// Last line of the declaration.
    pub line_end: i64,

    /// Declared visibility (`public`, `private`, `internal`).
    pub visibility: String,

    /// The type's fields.
    pub fields: Vec<CodeField>,

    /// Names of methods attached to the type.
    pub methods: Vec<String>,

    /// Raw source, present only when the scan requested `include_source`.
    pub source: String,
}

/// A standalone function or a method.
#[derive(Debug, Clone, Default)]
pub struct CodeFunction {
    /// Function name.
    pub name: String,

    /// File the function is declared in.
    pub file: String,

    /// First line of the declaration.
    pub line_start: i64,

    /// Last line of the declaration.
    pub line_end: i64,

    /// Parameter list, as source text.
    pub params: String,

    /// Return type, as source text.
    pub return_type: String,

    /// Type this function is a method on, when it is one.
    pub receiver: String,

    /// Declared visibility (`public`, `private`).
    pub visibility: String,

    /// Whether the function is asynchronous.
    pub is_async: bool,

    /// Raw source, present only when the scan requested `include_source`.
    pub source: String,
}

/// One function calling another, extracted when the scan requested
/// `include_call_graph`.
#[derive(Debug, Clone, Default)]
pub struct CallEdge {
    /// Caller, qualified as `file::function`.
    pub from: String,

    /// Name of the function being called.
    pub to: String,

    /// Line number of the call site.
    pub call_line: i64,
}

/// The full structural representation of a codebase.
#[derive(Debug, Clone, Default)]
pub struct CodebaseGraph {
    /// Scanned modules.
    pub modules: Vec<CodeModule>,

    /// Declared types.
    pub types: Vec<CodeType>,

    /// Declared functions.
    pub functions: Vec<CodeFunction>,

    /// Call edges — empty unless the scan requested the call graph.
    pub call_edges: Vec<CallEdge>,
}

/// Counts summarising what a scan found.
#[derive(Debug, Clone, Default)]
pub struct ScanStats {
    /// Files parsed.
    pub files: i64,
    /// Types found.
    pub types: i64,
    /// Fields across all types.
    pub fields: i64,
    /// Functions found.
    pub functions: i64,
    /// Call edges extracted.
    pub call_edges: i64,
    /// Modules found.
    pub modules: i64,
}

/// Request body for `POST /qai/v1/scanner/scan`.
#[derive(Debug, Clone, Default)]
pub struct ScanRequest {
    /// What to scan: a `github://owner/repo` or `https://github.com/...` URL,
    /// an OpenAPI spec URL, or a directory on the gateway's own filesystem
    /// under `/workspace` or `/tmp` (any other local path is 403
    /// `forbidden`). Required.
    pub source: String,

    /// Git branch to check out. Defaults to `main`.
    pub branch: Option<String>,

    /// Restrict parsing to these languages. Empty scans every supported
    /// language.
    pub languages: Option<Vec<String>>,

    /// Include raw source text on each type and function.
    pub include_source: Option<bool>,

    /// Extract call edges between functions.
    pub include_call_graph: Option<bool>,

    /// Label for this scan. Defaults to the source string.
    pub name: Option<String>,
}

/// A completed scan and its graph.
#[derive(Debug, Clone, Default)]
pub struct ScanResult {
    /// Scan identifier, used by the diff / verify / type-query routes.
    pub scan_id: String,

    /// Label of the scan.
    pub name: String,

    /// The source that was scanned.
    pub source: String,

    /// Summary counts.
    pub stats: ScanStats,

    /// The parsed graph. Listing endpoints return scans with an empty graph —
    /// fetch the scan by id for the full structure.
    pub graph: CodebaseGraph,

    /// RFC3339 creation timestamp.
    pub created_at: String,
}

/// Response from `GET /qai/v1/scanner/scans`.
#[derive(Debug, Clone, Default)]
pub struct ScanListResponse {
    /// The caller's scans, newest first (capped at 100 server-side).
    pub scans: Vec<ScanResult>,

    /// Gateway request identifier.
    pub request_id: String,
}

/// Response from `DELETE /qai/v1/scanner/scans/{id}`.
#[derive(Debug, Clone, Default)]
pub struct ScanDeleteResponse {
    /// True once the scan is gone.
    pub deleted: bool,

    /// The scan that was deleted.
    pub scan_id: String,

    /// Gateway request identifier.
    pub request_id: String,
}

/// A lightweight type entry from `GET /qai/v1/scanner/scans/{id}/types`.
#[derive(Debug, Clone, Default)]
pub struct ScanTypeSummary {
    /// Type name.
    pub name: String,

    /// Declaration kind.
    pub kind: String,

    /// File the type is declared in.
    pub file: String,

    /// Number of fields on the type.
    pub field_count: i64,

    /// Declared visibility.
    pub visibility: String,
}

/// Response from `GET /qai/v1/scanner/scans/{id}/types`.
#[derive(Debug, Clone, Default)]
pub struct ScanTypeListResponse {
    /// Every type in the scan, names and kinds only.
    pub types: Vec<ScanTypeSummary>,

    /// Number of entries in `types`.
    pub count: i64,

    /// The scan queried.
    pub scan_id: String,

    /// Label of the scan.
    pub scan_name: String,

    /// Gateway request identifier.
    pub request_id: String,
}

/// Response from `GET /qai/v1/scanner/scans/{id}/types/{name}` — one type with
/// everything an agent needs to write against it.
#[derive(Debug, Clone, Default)]
pub struct ScanTypeDetail {
    /// The type itself, with its fields.
    pub code_type: CodeType,

    /// Methods attached to the type.
    pub methods: Vec<CodeFunction>,

    /// Types referenced by the type's field declarations.
    pub references: Vec<CodeType>,

    /// The scan queried.
    pub scan_id: String,

    /// Label of the scan.
    pub scan_name: String,

    /// Gateway request identifier.
    pub request_id: String,
}

/// Request body for `POST /qai/v1/scanner/diff`.
///
/// Each side is given either by scan id or as an inline graph. The gateway
/// resolves the id form against the caller's own scans.
#[derive(Debug, Clone, Default)]
pub struct DiffRequest {
    /// Scan id of the reference codebase.
    pub base_scan_id: Option<String>,

    /// Scan id of the codebase being compared.
    pub target_scan_id: Option<String>,

    /// Inline reference graph, instead of `base`.
    pub base_graph: Option<CodebaseGraph>,

    /// Inline comparison graph, instead of `target`.
    pub target_graph: Option<CodebaseGraph>,

    /// Label for the reference side in the result.
    pub base_name: Option<String>,

    /// Label for the comparison side in the result.
    pub target_name: Option<String>,
}

/// A type present in both codebases under different casing conventions.
#[derive(Debug, Clone, Default)]
pub struct ConventionDiff {
    /// Name as spelled in the reference codebase.
    pub base_name: String,

    /// Name as spelled in the compared codebase.
    pub target_name: String,
}

/// An expected type in a [`Blueprint`].
#[derive(Debug, Clone, Default)]
pub struct BlueprintType {
    /// Expected type name.
    pub name: String,

    /// Expected declaration kind.
    pub kind: Option<String>,

    /// Expected fields.
    pub fields: Option<Vec<CodeField>>,
}

/// An expected function in a [`Blueprint`].
#[derive(Debug, Clone, Default)]
pub struct BlueprintFunction {
    /// Expected function name.
    pub name: String,

    /// Expected parameter list, as source text.
    pub params: Option<String>,

    /// Expected return type, as source text.
    pub return_type: Option<String>,
}

/// An expected file in a [`Blueprint`].
#[derive(Debug, Clone, Default)]
pub struct BlueprintModule {
    /// Expected path, relative to the scan root.
    pub path: String,
}

/// The structure a codebase is expected to have.
#[derive(Debug, Clone, Default)]
pub struct Blueprint {
    /// Label for the blueprint.
    pub name: String,

    /// Expected types.
    pub types: Option<Vec<BlueprintType>>,

    /// Expected functions.
    pub functions: Option<Vec<BlueprintFunction>>,

    /// Expected modules.
    pub modules: Option<Vec<BlueprintModule>>,
}

/// Request body for `POST /qai/v1/scanner/verify`.
///
/// Provide either `source` (scanned fresh) or `scan_id` (an existing scan).
#[derive(Debug, Clone, Default)]
pub struct VerifyRequest {
    /// The expected structure.
    pub blueprint: Blueprint,

    /// Codebase to verify — a GitHub URL, or a directory on the gateway's own
    /// filesystem under `/workspace` or `/tmp` (any other local path is 403
    /// `forbidden`).
    pub source: Option<String>,

    /// Git branch for `source`.
    pub branch: Option<String>,

    /// Existing scan to verify against, instead of `source`.
    pub scan_id: Option<String>,
}

/// Whether one expected module exists and is complete.
#[derive(Debug, Clone, Default)]
pub struct FileStatus {
    /// Expected path.
    pub path: String,

    /// Whether the file was found.
    pub exists: bool,

    /// Whether every symbol the blueprint expects in it was found.
    pub complete: bool,
}

/// Response from `POST /qai/v1/scanner/audit` — the audit runs asynchronously,
/// so this is the accepted job, not the findings.
#[derive(Debug, Clone, Default)]
pub struct AuditJobResponse {
    /// Job id to poll with
    /// `Client::get_job`.
    pub job_id: String,

    /// Audit profile that was applied.
    pub profile: String,

    /// Model the analysis runs on.
    pub model: String,

    /// Number of source files that survived filtering and will be analysed.
    pub files_to_analyze: i64,

    /// Pre-flight cost estimate, pre-formatted for display.
    pub estimated_cost: String,
}

/// One file's findings from a completed audit job.
#[derive(Debug, Clone, Default)]
pub struct AuditFileResult {
    /// Path relative to the uploaded root.
    pub path: String,

    /// Detected language.
    pub language: String,

    /// Input tokens spent on this file.
    pub tokens_in: i64,

    /// Output tokens produced for this file.
    pub tokens_out: i64,

    /// The model's findings for this file.
    pub findings: String,

    /// Why this file could not be analysed, when it could not be.
    pub error: String,
}

/// Options for `POST /qai/v1/scanner/vulnerabilities`.
#[derive(Debug, Clone, Default)]
pub struct VulnerabilityScanOptions {
    /// Also produce a threat model.
    pub threat_model: Option<bool>,

    /// Also cross-reference dependencies against known CVEs.
    pub cve_check: Option<bool>,
}

/// Request body for `POST /qai/v1/scanner/vulnerabilities`.
#[derive(Debug, Clone, Default)]
pub struct VulnerabilityScanRequest {
    /// GitHub URL to scan. Local paths are rejected — the handler only accepts
    /// `https://github.com/owner/repo`.
    pub source: String,

    /// Label for the scan.
    pub name: Option<String>,

    /// Detector options.
    pub options: Option<VulnerabilityScanOptions>,
}

/// The route of one type of a scan, its name URL-encoded.
pub fn scanner_type_path(scan_id: &str, name: &str) -> (r: String)
    ensures
        r@ == "/qai/v1/scanner/scans/"@ + scan_id@ + "/types/"@ + url_encoded(name@),
{
    let mut v: Vec<char> = Vec::new();
    push_str(&mut v, "/qai/v1/scanner/scans/");
    push_str(&mut v, scan_id);
    push_str(&mut v, "/types/");
    push_str(&mut v, url_encode(name).as_str());
    string_from_chars(v)
}

} // verus!

//! Document extraction and chunking.
//!
//! The gateway extracts PDF and DOCX in-process and bills mechanical compute
//! at $0.001 per MB; there is no OCR, so a scanned PDF with no text layer
//! answers 422 `extraction_failed`. Uploads are multipart (field `file`),
//! capped at 50 MB.

use vstd::prelude::*;

use crate::client::{backfill_ticks, backfill_text, ResponseMeta};

use crate::encoding::{debug_quoted, debug_str};
use crate::error::{local_error, reqwest_error_display, reqwest_error_text, Error};
use crate::text::{decimal, push_decimal, push_str, string_from_chars};

verus! {

/// A document upload for extraction.
#[derive(Debug, Clone, Default)]
pub struct DocumentRequest {
    /// Raw file bytes.
    pub content: Vec<u8>,

    /// Filename, used with `mime_type` to pick the extractor.
    pub filename: String,

    /// MIME type of the file (e.g. `application/pdf`). Sniffed from the
    /// filename when omitted.
    pub mime_type: Option<String>,

    /// Also return the images embedded in a PDF, base64-encoded.
    pub extract_images: bool,
}

/// An image pulled out of a PDF.
#[derive(Debug, Clone)]
pub struct DocumentImage {
    /// Image name within the document.
    pub name: String,

    /// MIME type of the encoded image.
    pub mime: String,

    /// Base64 of the complete encoded image file.
    pub data: String,
}

/// How the document was processed.
#[derive(Debug, Clone, Default)]
pub struct DocumentMeta {
    /// Extractor that handled the file (e.g. `pdf`, `docx`).
    pub extraction_method: String,

    /// Images found in the document (present when images were requested).
    pub images_found: i32,

    /// Number of chunks produced (chunk and process routes).
    pub chunk_count: i32,
}

/// Response from document extraction.
#[derive(Debug, Clone)]
pub struct DocumentResponse {
    /// Extracted text as Markdown.
    pub markdown: String,

    /// Output format (`markdown`).
    pub format: String,

    /// Extraction metadata.
    pub meta: DocumentMeta,

    /// Embedded images, when `extract_images` was set.
    pub images: Vec<DocumentImage>,

    /// Total cost in ticks.
    pub cost_ticks: i64,

    /// Unique request identifier.
    pub request_id: String,
}

/// A document upload for chunking.
#[derive(Debug, Clone, Default)]
pub struct ChunkDocumentRequest {
    /// Raw file bytes.
    pub content: Vec<u8>,

    /// Filename, used with `mime_type` to pick the extractor.
    pub filename: String,

    /// MIME type of the file. Sniffed from the filename when omitted.
    pub mime_type: Option<String>,

    /// Chunk size in characters (gateway default 2000).
    pub chunk_size: Option<u32>,

    /// Overlap between consecutive chunks in characters (gateway default 200).
    pub overlap: Option<u32>,
}

/// A single document chunk.
#[derive(Debug, Clone)]
pub struct DocumentChunk {
    /// Chunk index.
    pub index: i32,

    /// Chunk text content.
    pub text: String,
}

/// Backwards-compatible alias.
pub type ChunkRequest = ChunkDocumentRequest;

/// Response from document chunking.
#[derive(Debug, Clone)]
pub struct ChunkDocumentResponse {
    /// Output format (`markdown`).
    pub format: String,

    /// Extraction metadata; `chunk_count` is the length of `chunks`.
    pub meta: DocumentMeta,

    /// Document chunks.
    pub chunks: Vec<DocumentChunk>,

    /// Total cost in ticks.
    pub cost_ticks: i64,

    /// Unique request identifier.
    pub request_id: String,
}

/// Backwards-compatible alias.
pub type ChunkResponse = ChunkDocumentResponse;

/// A document upload for the full pipeline: extraction, chunking and
/// optional image extraction in one call.
#[derive(Debug, Clone, Default)]
pub struct ProcessDocumentRequest {
    /// Raw file bytes.
    pub content: Vec<u8>,

    /// Filename, used with `mime_type` to pick the extractor.
    pub filename: String,

    /// MIME type of the file. Sniffed from the filename when omitted.
    pub mime_type: Option<String>,

    /// Also return the images embedded in a PDF, base64-encoded.
    pub extract_images: bool,

    /// Chunk size in characters (gateway default 2000).
    pub chunk_size: Option<u32>,

    /// Overlap between consecutive chunks in characters (gateway default 200).
    pub overlap: Option<u32>,
}

/// Backwards-compatible alias.
pub type ProcessRequest = ProcessDocumentRequest;

/// Response from the document pipeline.
#[derive(Debug, Clone)]
pub struct ProcessDocumentResponse {
    /// Extracted text as Markdown.
    pub markdown: String,

    /// Output format (`markdown`).
    pub format: String,

    /// Extraction metadata.
    pub meta: DocumentMeta,

    /// Document chunks.
    pub chunks: Vec<DocumentChunk>,

    /// Embedded images, when `extract_images` was set.
    pub images: Vec<DocumentImage>,

    /// Total cost in ticks.
    pub cost_ticks: i64,

    /// Unique request identifier.
    pub request_id: String,
}

/// Backwards-compatible alias.
pub type ProcessResponse = ProcessDocumentResponse;

/// The text fields a document upload sends beside its `file` part:
/// `extract_images=true` when asked, then `chunk_size` and `overlap` when
/// set.
pub open spec fn document_fields_spec(
    extract_images: bool,
    chunk_size: Option<u32>,
    overlap: Option<u32>,
) -> Seq<(Seq<char>, Seq<char>)> {
    (if extract_images {
        seq![("extract_images"@, "true"@)]
    } else {
        Seq::empty()
    }) + (match chunk_size {
        Some(n) => seq![("chunk_size"@, decimal(n as nat))],
        None => Seq::empty(),
    }) + (match overlap {
        Some(n) => seq![("overlap"@, decimal(n as nat))],
        None => Seq::empty(),
    })
}

/// The texts of a list of form fields.
pub open spec fn field_texts(v: Seq<(String, String)>) -> Seq<(Seq<char>, Seq<char>)> {
    v.map_values(|f: (String, String)| (f.0@, f.1@))
}

fn number_text(n: u32) -> (r: String)
    ensures
        r@ == decimal(n as nat),
{
    let mut v: Vec<char> = Vec::new();
    push_decimal(&mut v, n as u64);
    string_from_chars(v)
}

/// The text fields of a document upload.
pub fn document_fields(extract_images: bool, chunk_size: Option<u32>, overlap: Option<u32>) -> (r: Vec<(String, String)>)
    ensures
        field_texts(r@) == document_fields_spec(extract_images, chunk_size, overlap),
{
    let mut fields: Vec<(String, String)> = Vec::new();
    let ghost mut expect: Seq<(Seq<char>, Seq<char>)> = Seq::empty();
    if extract_images {
        fields.push(("extract_images".to_owned(), "true".to_owned()));
        proof {
            expect = seq![("extract_images"@, "true"@)];
        }
    }
    assert(field_texts(fields@) =~= expect);
    match chunk_size {
        Some(n) => {
            fields.push(("chunk_size".to_owned(), number_text(n)));
            proof {
                expect = expect + seq![("chunk_size"@, decimal(n as nat))];
            }
        },
        None => {},
    }
    assert(field_texts(fields@) =~= expect);
    match overlap {
        Some(n) => {
            fields.push(("overlap".to_owned(), number_text(n)));
            proof {
                expect = expect + seq![("overlap"@, decimal(n as nat))];
            }
        },
        None => {},
    }
    assert(field_texts(fields@) =~= expect);
    assert(expect =~= document_fields_spec(extract_images, chunk_size, overlap));
    fields
}

/// The error for a MIME type the upload refuses: the type quoted, then
/// the parser's reason.
pub fn invalid_mime_error(mime: &str, reason: &str) -> (e: Error)
    ensures
        e matches Error::Api(a) && a.status_code == 0 && a.code@ == "multipart_error"@ && a.message@
            == "invalid mime type "@ + debug_quoted(mime@) + ": "@ + reason@ && a.request_id@.len()
            == 0,
{
    let mut m: Vec<char> = Vec::new();
    push_str(&mut m, "invalid mime type ");
    push_str(&mut m, debug_str(mime).as_str());
    push_str(&mut m, ": ");
    push_str(&mut m, reason);
    local_error("multipart_error", string_from_chars(m))
}

/// A multipart body that could not be built, raised locally with the
/// transport's reason.
pub fn multipart_error(e: &reqwest::Error) -> (r: Error)
    ensures
        r matches Error::Api(a) && a.status_code == 0 && a.code@ == "multipart_error"@ && a.message@
            == reqwest_error_display(*e) && a.request_id@.len() == 0,
{
    local_error("multipart_error", reqwest_error_text(e))
}


impl DocumentResponse {
    /// Fills the cost and the request id from the response headers where the body
    /// left them empty; a value the body carried is kept.
    pub fn backfill(&mut self, meta: &ResponseMeta)
        ensures
            final(self).cost_ticks == (if old(self).cost_ticks == 0 {
                meta.cost_ticks
            } else {
                old(self).cost_ticks
            }),
            final(self).request_id@ == (if old(self).request_id@.len() == 0 {
                meta.request_id@
            } else {
                old(self).request_id@
            }),
            *final(self) == (DocumentResponse { cost_ticks: final(self).cost_ticks, request_id: final(self).request_id, ..*old(self) }),
    {
        self.cost_ticks = backfill_ticks(self.cost_ticks, meta.cost_ticks);
        let mut id = String::new();
        std::mem::swap(&mut id, &mut self.request_id);
        self.request_id = backfill_text(id, meta.request_id.as_str());
    }
}

impl ChunkDocumentResponse {
    /// Fills the cost and the request id from the response headers where the body
    /// left them empty; a value the body carried is kept.
    pub fn backfill(&mut self, meta: &ResponseMeta)
        ensures
            final(self).cost_ticks == (if old(self).cost_ticks == 0 {
                meta.cost_ticks
            } else {
                old(self).cost_ticks
            }),
            final(self).request_id@ == (if old(self).request_id@.len() == 0 {
                meta.request_id@
            } else {
                old(self).request_id@
            }),
            *final(self) == (ChunkDocumentResponse { cost_ticks: final(self).cost_ticks, request_id: final(self).request_id, ..*old(self) }),
    {
        self.cost_ticks = backfill_ticks(self.cost_ticks, meta.cost_ticks);
        let mut id = String::new();
        std::mem::swap(&mut id, &mut self.request_id);
        self.request_id = backfill_text(id, meta.request_id.as_str());
    }
}

impl ProcessDocumentResponse {
    /// Fills the cost and the request id from the response headers where the body
    /// left them empty; a value the body carried is kept.
    pub fn backfill(&mut self, meta: &ResponseMeta)
        ensures
            final(self).cost_ticks == (if old(self).cost_ticks == 0 {
                meta.cost_ticks
            } else {
                old(self).cost_ticks
            }),
            final(self).request_id@ == (if old(self).request_id@.len() == 0 {
                meta.request_id@
            } else {
                old(self).request_id@
            }),
            *final(self) == (ProcessDocumentResponse { cost_ticks: final(self).cost_ticks, request_id: final(self).request_id, ..*old(self) }),
    {
        self.cost_ticks = backfill_ticks(self.cost_ticks, meta.cost_ticks);
        let mut id = String::new();
        std::mem::swap(&mut id, &mut self.request_id);
        self.request_id = backfill_text(id, meta.request_id.as_str());
    }
}

} // verus!

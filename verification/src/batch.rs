//! Batch processing — submit multiple prompts in a single request, run at
//! batch (lower-priority, discounted) pricing.
//!
//! Batch jobs live in their own store and are read back with
//! `Client::batch_jobs` / `Client::batch_job`, not the Jobs API
//! (`GET /qai/v1/jobs/{id}` answers 404 for a batch id).

use vstd::prelude::*;

verus! {

/// A single job in a batch submission.
#[derive(Debug, Clone, Default)]
pub struct BatchJob {
    /// Model to use for this job (must be a priced model, else the whole
    /// submission is rejected with 400).
    pub model: String,

    /// The prompt text.
    pub prompt: String,

    /// Optional title for this job.
    pub title: Option<String>,

    /// Optional system prompt (prepended to the prompt server-side).
    pub system_prompt: Option<String>,

    /// Optional maximum tokens to generate.
    pub max_tokens: Option<i64>,
}

/// Response from batch submission (202 Accepted).
///
/// `job_ids` can be shorter than the input: jobs with an empty `model` or
/// `prompt` are skipped silently, as is any job whose store write failed,
/// and there is no per-index error. Ids are in input order among the
/// accepted jobs, so keep your own mapping when the counts differ.
#[derive(Debug, Clone)]
pub struct BatchSubmitResponse {
    /// The IDs of the created jobs (in input order among accepted jobs).
    pub job_ids: Vec<String>,

    /// Number of jobs created (equals `job_ids.len()`).
    pub jobs: i64,

    /// Submission label derived from the accepted count.
    pub batch_id: String,

    /// Pricing note from the gateway.
    pub pricing: String,

    /// Status of the batch submission (always "queued").
    pub status: String,
}

/// Alias of [`BatchSubmitResponse`]: the JSONL route reuses the array
/// handler and answers with the same envelope.
pub type BatchJsonlResponse = BatchSubmitResponse;

/// A batch job as stored by the gateway (`internal/batch.Job`).
#[derive(Debug, Clone)]
pub struct BatchJobInfo {
    /// Job identifier.
    pub id: String,

    /// "queued" | "running" | "paused" | "complete" | "failed" | "cancelled".
    pub status: String,

    /// Queue priority (batch jobs share one low priority).
    pub priority: i32,

    /// Job kind ("user_batch" for SDK submissions). Wire field: `type`.
    pub job_type: String,

    /// Job title (the submitted one, or one derived from the prompt).
    pub title: String,

    /// Prompt as stored (with any system prompt prepended).
    pub prompt: String,

    /// Model used for this job.
    pub model: String,

    /// Model output (present when complete and stored inline).
    pub output: Option<String>,

    /// GCS location of the output when it was too large to inline.
    pub output_gcs: Option<String>,

    /// Error message (present when failed).
    pub error: Option<String>,

    /// Submitting user id.
    pub created_by: String,

    /// When the job was created (RFC 3339).
    pub created_at: String,

    /// When processing began.
    pub started_at: Option<String>,

    /// When the job finished.
    pub completed_at: Option<String>,

    /// Tokens consumed (present once complete).
    pub tokens: i64,
}

/// Response from listing batch jobs.
#[derive(Debug, Clone)]
pub struct BatchJobsResponse {
    /// The caller's batch jobs (see `Client::batch_jobs` for the window).
    pub jobs: Vec<BatchJobInfo>,
}

/// Alias for [`BatchJob`] — a single input in a batch submission.
pub type BatchJobInput = BatchJob;

/// Request body for batch submission (wraps a list of jobs).
#[derive(Debug, Clone, Default)]
pub struct BatchSubmitRequest {
    /// Jobs to submit (1–100).
    pub jobs: Vec<BatchJob>,
}

} // verus!

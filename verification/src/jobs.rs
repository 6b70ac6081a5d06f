use vstd::prelude::*;

use crate::error::{local_error, Error};
use crate::text::{decimal, push_decimal, push_str, string_from_chars};

use crate::text::str_eq;

verus! {

/// Request to create an async job.
#[derive(Debug, Clone)]
pub struct JobCreateRequest {
    /// Job type (e.g. "video/generate", "audio/music").
    pub job_type: String,

    /// Job parameters (model-specific).
    pub params: serde_json::Value,
}

/// The 202 envelope every async submission answers with: the Jobs API,
/// the HeyGen video routes (studio, translate, photo-avatar, twin-video,
/// template render) and the 3D pipeline. Poll with `Client::get_job` /
/// `Client::poll_job` or subscribe with `Client::stream_job`.
///
/// No cost appears here; `cost_ticks` is reported by `Client::get_job`
/// once the job has settled.
#[derive(Debug, Clone)]
pub struct JobAcceptedResponse {
    /// Unique job identifier for polling.
    pub job_id: String,

    /// Initial job status (always "pending").
    pub status: String,

    /// Job type (e.g. "video/studio", "3d/generate").
    pub job_type: Option<String>,

    /// Unique request identifier.
    pub request_id: Option<String>,

    /// Creation timestamp (RFC 3339). Sent by `POST /qai/v1/jobs`; the
    /// dedicated media routes omit it.
    pub created_at: Option<String>,
}

/// Alias of [`JobAcceptedResponse`]: `POST /qai/v1/jobs` answers with the
/// same envelope as every other async route.
pub type JobCreateResponse = JobAcceptedResponse;

/// A job as reported by `GET /qai/v1/jobs/{id}` and, per entry, by
/// `GET /qai/v1/jobs`.
#[derive(Debug, Clone)]
pub struct JobStatusResponse {
    /// Unique job identifier.
    pub job_id: String,

    /// "pending" | "running" | "completed" | "failed". Only the last two
    /// are terminal.
    pub status: String,

    /// Job type (e.g. "video/generate", "audio/tts").
    pub job_type: Option<String>,

    /// Job output when completed. Results stored in GCS are inlined here.
    pub result: Option<serde_json::Value>,

    /// Error message if the job failed.
    pub error: Option<String>,

    /// Total cost in ticks (0 until the job has settled).
    pub cost_ticks: i64,

    /// Originating request identifier.
    pub request_id: Option<String>,

    /// Job creation timestamp (RFC 3339).
    pub created_at: Option<String>,

    /// When processing began.
    pub started_at: Option<String>,

    /// When the job finished.
    pub completed_at: Option<String>,
}

/// Alias of [`JobStatusResponse`]: list entries carry the same fields as a
/// single status read.
pub type JobListEntry = JobStatusResponse;

/// Response from listing jobs.
#[derive(Debug, Clone)]
pub struct JobListResponse {
    /// The caller's newest jobs (at most 50).
    pub jobs: Vec<JobStatusResponse>,

    /// Unique request identifier.
    pub request_id: Option<String>,
}

/// Alias of [`JobListResponse`].
pub type ListJobsResponse = JobListResponse;

/// A single SSE event from a job stream.
///
/// `error` events come in two flavours: a job failure carries `job_id`,
/// `status: "failed"` and the job's `error`; the stream's own 10-minute
/// deadline emits `{"type":"error","error":"stream timeout (10 minutes)"}`
/// with no `job_id` or `status`, and the job keeps running — reopen the
/// stream or fall back to `Client::poll_job`.
#[derive(Debug, Clone)]
pub struct JobStreamEvent {
    /// Event type: "progress", "complete", "error".
    pub event_type: String,

    /// Job identifier (absent on a stream-timeout error).
    pub job_id: Option<String>,

    /// Job status.
    pub status: Option<String>,

    /// Job result (on completion).
    pub result: Option<serde_json::Value>,

    /// Error message (on failure or stream timeout).
    pub error: Option<String>,

    /// Total cost in ticks.
    pub cost_ticks: i64,

    /// Completion timestamp.
    pub completed_at: Option<String>,
}

impl JobStreamEvent {
    /// True when this `error` event is the stream's own deadline rather
    /// than a job failure; the job is still running.
    pub fn is_stream_timeout(&self) -> (r: bool)
        ensures
            r == (self.event_type@ == "error"@ && self.job_id is None && self.status is None),
    {
        str_eq(self.event_type.as_str(), "error") && self.job_id.is_none() && self.status.is_none()
    }
}

/// Whether a job in this status is over: `completed` or `failed`.
pub open spec fn job_settled(status: Seq<char>) -> bool {
    status == "completed"@ || status == "failed"@
}

/// Whether polling can stop at this status.
pub fn is_settled(status: &str) -> (r: bool)
    ensures
        r == job_settled(status@),
{
    str_eq(status, "completed") || str_eq(status, "failed")
}

/// The `{:?}` text of a duration.
pub uninterp spec fn duration_debug(d: std::time::Duration) -> Seq<char>;

/// `format!("{:?}", d)` for a duration.
#[verifier::external_body]
fn duration_text(d: std::time::Duration) -> (r: String)
    ensures
        r@ == duration_debug(d),
{
    format!("{:?}", d)
}

/// The error polling ends with when the job is still running after every
/// attempt (status 0, raised locally; the job keeps running).
pub fn poll_timeout_error(job_id: &str, max_attempts: usize, poll_interval: std::time::Duration) -> (e: Error)
    ensures
        e matches Error::Api(a) && a.status_code == 0 && a.code@ == "poll_timeout"@ && a.message@
            == "job "@ + job_id@ + " still running after "@ + decimal(max_attempts as nat)
            + " polls of "@ + duration_debug(poll_interval) && a.request_id@.len() == 0,
{
    let mut m: Vec<char> = Vec::new();
    push_str(&mut m, "job ");
    push_str(&mut m, job_id);
    push_str(&mut m, " still running after ");
    push_decimal(&mut m, max_attempts as u64);
    push_str(&mut m, " polls of ");
    push_str(&mut m, duration_text(poll_interval).as_str());
    local_error("poll_timeout", string_from_chars(m))
}

} // verus!

use std::collections::HashMap;

use vstd::prelude::*;

use crate::query::{add_encoded, add_number, add_verbatim, encoded, from_i64, from_u32, numeral, opt_param, path_with_query, texts, verbatim, with_query};

verus! {

/// Request body for creating a mission.
#[derive(Debug, Clone, Default)]
pub struct MissionCreateRequest {
    /// High-level task description.
    pub goal: String,

    /// Strategy: "wave" (default), "dag", "mapreduce", "refinement", "branch".
    pub strategy: Option<String>,

    /// Conductor model (default: the gateway's conductor model).
    pub conductor_model: Option<String>,

    /// Worker team configuration.
    pub workers: Option<HashMap<String, MissionWorkerConfig>>,

    /// Maximum orchestration steps (default: 25).
    pub max_steps: Option<i32>,

    /// Custom system prompt for the conductor.
    pub system_prompt: Option<String>,

    /// Existing session ID for context continuity.
    pub session_id: Option<String>,
}

/// Worker configuration within a mission.
#[derive(Debug, Clone, Default)]
pub struct MissionWorkerConfig {
    /// Model to use for this worker.
    pub model: String,

    /// Cost tier: "cheap", "mid", "expensive".
    pub tier: String,

    /// Worker description / capabilities.
    pub description: Option<String>,
}

/// Request body for chatting with a mission's architect.
#[derive(Debug, Clone)]
pub struct MissionChatRequest {
    /// Message to send to the architect.
    pub message: String,

    /// Enable streaming (not yet supported).
    pub stream: Option<bool>,
}

/// Request body for updating a mission plan.
#[derive(Debug, Clone, Default)]
pub struct MissionPlanUpdate {
    /// Updated task list.
    pub tasks: Option<Vec<HashMap<String, serde_json::Value>>>,

    /// Updated worker configuration.
    pub workers: Option<HashMap<String, MissionWorkerConfig>>,

    /// Additional system prompt.
    pub system_prompt: Option<String>,

    /// Updated max steps.
    pub max_steps: Option<i32>,

    /// Additional context to inject.
    pub context: Option<String>,
}

/// Request body for confirming/rejecting a mission structure.
#[derive(Debug, Clone)]
pub struct MissionConfirmStructure {
    /// Whether the structure is approved.
    pub confirmed: bool,

    /// Rejection reason or modification notes.
    pub feedback: Option<String>,
}

/// Request body for approving a completed mission.
#[derive(Debug, Clone, Default)]
pub struct MissionApproveRequest {
    /// Git commit SHA associated with the mission output.
    pub commit_sha: Option<String>,

    /// Approval comment.
    pub comment: Option<String>,
}

/// Request body for importing a plan as a new mission.
#[derive(Debug, Clone, Default)]
pub struct MissionImportRequest {
    /// Mission goal.
    pub goal: String,

    /// Strategy.
    pub strategy: Option<String>,

    /// Conductor model.
    pub conductor_model: Option<String>,

    /// Worker configuration.
    pub workers: Option<HashMap<String, MissionWorkerConfig>>,

    /// Pre-defined tasks.
    pub tasks: Vec<HashMap<String, serde_json::Value>>,

    /// System prompt.
    pub system_prompt: Option<String>,

    /// Maximum steps.
    pub max_steps: Option<i32>,

    /// Auto-execute after import.
    pub auto_execute: bool,
}

/// Response from mission creation.
#[derive(Debug, Clone)]
pub struct MissionCreateResponse {
    /// Mission identifier.
    pub mission_id: String,

    /// Initial status.
    pub status: String,

    /// Session ID for conversation context.
    pub session_id: Option<String>,

    /// Conductor model used.
    pub conductor_model: Option<String>,

    /// Strategy used.
    pub strategy: Option<String>,

    /// Worker configuration.
    pub workers: Option<HashMap<String, MissionWorkerConfig>>,

    /// Creation timestamp.
    pub created_at: Option<String>,

    /// Request identifier.
    pub request_id: Option<String>,
}

/// Mission detail (from GET /missions/{id}).
#[derive(Debug, Clone)]
pub struct MissionDetail {
    /// Mission identifier.
    pub id: Option<String>,

    /// User who created the mission.
    pub user_id: Option<String>,

    /// Mission goal.
    pub goal: Option<String>,

    /// Strategy.
    pub strategy: Option<String>,

    /// Conductor model.
    pub conductor_model: Option<String>,

    /// Current status.
    pub status: Option<String>,

    /// Creation timestamp.
    pub created_at: Option<String>,

    /// Start timestamp.
    pub started_at: Option<String>,

    /// Completion timestamp.
    pub completed_at: Option<String>,

    /// Error message if failed.
    pub error: Option<String>,

    /// Total cost in ticks.
    pub cost_ticks: i64,

    /// Number of steps executed.
    pub total_steps: i32,

    /// Session ID.
    pub session_id: Option<String>,

    /// Final result text.
    pub result: Option<String>,

    /// Tasks within the mission.
    pub tasks: Vec<MissionTask>,

    /// Whether the mission was approved.
    pub approved: bool,

    /// Commit SHA (if approved).
    pub commit_sha: Option<String>,
}

/// A task within a mission.
#[derive(Debug, Clone, Default)]
pub struct MissionTask {
    /// Task identifier.
    pub id: Option<String>,

    /// Task name.
    pub name: Option<String>,

    /// Task description.
    pub description: Option<String>,

    /// Assigned worker name.
    pub worker: Option<String>,

    /// Model used.
    pub model: Option<String>,

    /// Task status.
    pub status: Option<String>,

    /// Task result.
    pub result: Option<String>,

    /// Error message if failed.
    pub error: Option<String>,

    /// Step number.
    pub step: i32,

    /// Input tokens used.
    pub tokens_in: i32,

    /// Output tokens used.
    pub tokens_out: i32,
}

/// Response from listing missions.
#[derive(Debug, Clone)]
pub struct MissionListResponse {
    /// List of missions.
    pub missions: Vec<MissionDetail>,
}

/// Response from chatting with the architect.
#[derive(Debug, Clone)]
pub struct MissionChatResponse {
    /// Mission identifier.
    pub mission_id: Option<String>,

    /// Architect's response content.
    pub content: Option<String>,

    /// Model used.
    pub model: Option<String>,

    /// Cost in ticks.
    pub cost_ticks: i64,

    /// Token usage.
    pub usage: Option<MissionChatUsage>,
}

/// Token usage for a mission chat response.
#[derive(Debug, Clone, Default)]
pub struct MissionChatUsage {
    pub input_tokens: i32,
    pub output_tokens: i32,
}

/// A git checkpoint within a mission.
#[derive(Debug, Clone)]
pub struct MissionCheckpoint {
    /// Checkpoint identifier.
    pub id: Option<String>,

    /// Commit SHA.
    pub commit_sha: Option<String>,

    /// Checkpoint message.
    pub message: Option<String>,

    /// Creation timestamp.
    pub created_at: Option<String>,
}

/// Response from listing checkpoints.
#[derive(Debug, Clone)]
pub struct MissionCheckpointsResponse {
    pub mission_id: Option<String>,
    pub checkpoints: Vec<MissionCheckpoint>,
}

/// Generic status response for mission operations.
#[derive(Debug, Clone)]
pub struct MissionStatusResponse {
    pub mission_id: Option<String>,
    pub status: Option<String>,
    pub confirmed: Option<bool>,
    pub approved: Option<bool>,
    pub deleted: Option<bool>,
    pub updated: Option<bool>,
    pub commit_sha: Option<String>,
}

/// The mission list route, with `status` (as given) when set.
pub fn mission_list_path(status: &Option<String>) -> (r: String)
    ensures
        r@ == with_query("/qai/v1/missions/list"@, opt_param("status"@, verbatim(*status))),
{
    let mut params: Vec<String> = Vec::new();
    assert(texts(params@) =~= Seq::empty());
    add_verbatim(&mut params, "status", status);
    path_with_query("/qai/v1/missions/list", &params)
}

} // verus!

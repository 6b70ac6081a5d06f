//! Agent runtime — the gateway's own agent / environment / session surface.
//!
//! An [`RuntimeAgent`] is a reusable config (model, system prompt, tools). An
//! [`RuntimeEnvironment`] binds it to a backend: `coding-session` runs in the
//! gateway's metered container, `managed-agents` projects onto Anthropic's
//! hosted runtime and is admin-only. Starting a session returns a
//! [`RuntimeSession`] descriptor which the client then holds and passes back on
//! every session call — the event, stream, stop, and workspace routes are
//! stateless with respect to the server.
//!
//! Agent and environment records are free to create and edit; spend starts at
//! session start.

use vstd::prelude::*;

use crate::realtime::visible_text;
use crate::text::{chars_from, chars_of, has_prefix, starts_with};

use crate::query::{add_encoded, add_number, add_verbatim, encoded, from_i64, from_u32, numeral, opt_param, path_with_query, texts, verbatim, with_query};
use crate::text::{push_str, string_from_chars};
use crate::encoding::url_encode;

verus! {

/// A tool reference on a runtime agent. `type` is the provider tool type
/// (e.g. `bash_20250124`); each backend maps it onto its own capability.
#[derive(Debug, Clone, Default)]
pub struct RuntimeTool {
    /// Provider tool type. Wire name: `type`.
    pub tool_type: String,

    /// Name the tool is exposed under.
    pub name: String,
}

/// Request body for creating or updating a runtime agent.
///
/// On update, an omitted `name` or `model` carries the stored value forward.
#[derive(Debug, Clone, Default)]
pub struct RuntimeAgentRequest {
    /// Display name for the agent.
    pub name: String,

    /// Model the agent runs on.
    pub model: String,

    /// System prompt.
    pub system_prompt: String,

    /// Tools the agent may call.
    pub tools: Option<Vec<RuntimeTool>>,
}

/// A stored runtime agent.
#[derive(Debug, Clone, Default)]
pub struct RuntimeAgent {
    /// Agent identifier.
    pub id: String,

    /// Owning user.
    pub user_id: String,

    /// Display name.
    pub name: String,

    /// Model the agent runs on.
    pub model: String,

    /// System prompt.
    pub system_prompt: String,

    /// Tools the agent may call.
    pub tools: Vec<RuntimeTool>,

    /// Config version, bumped on every update.
    pub version: i64,

    /// RFC3339 creation timestamp.
    pub created_at: String,

    /// RFC3339 timestamp of the last update.
    pub updated_at: String,

    /// Backend-side id once the agent has been projected onto a backend.
    /// Empty until first instantiated.
    pub upstream_id: String,
}

/// Response from `GET /qai/v1/agent-runtime/agents`.
#[derive(Debug, Clone, Default)]
pub struct RuntimeAgentsResponse {
    /// The caller's agents.
    pub agents: Vec<RuntimeAgent>,
}

/// Response from `PUT /qai/v1/agent-runtime/agents/{id}` — the update returns
/// the new config version rather than the whole record.
#[derive(Debug, Clone, Default)]
pub struct RuntimeAgentUpdateResponse {
    /// The agent that was updated.
    pub id: String,

    /// The config version after the update.
    pub version: i64,
}

/// The git contract a `coding-session` environment runs under: which repo to
/// check out at which ref, the path the agent may write, and how its diff is
/// published. Exactly one of `core_repo` and `workspace_object` is required.
#[derive(Debug, Clone, Default)]
pub struct OverlayConfig {
    /// Repository to check out.
    pub core_repo: String,

    /// Ref the checkout is pinned to.
    pub core_pinned_ref: String,

    /// Path within the checkout the agent may write.
    pub overlay_path: String,

    /// Prefix for the per-session branch.
    pub branch_prefix: String,

    /// Push the per-session branch to origin after each snapshot, so the diff
    /// survives the gateway workdir. Needs a git credential for the repo; push
    /// failures are reported, never fatal.
    pub push_branch: bool,

    /// Seed the session from an uploaded archive instead of a git clone — the
    /// object returned by
    /// `Client::agent_runtime_stage_workspace`. Makes `push_branch`
    /// meaningless (there is no origin).
    pub workspace_object: String,
}

/// Request body for `POST /qai/v1/agent-runtime/environments`.
#[derive(Debug, Clone, Default)]
pub struct RuntimeEnvironmentRequest {
    /// Display name for the environment.
    pub name: String,

    /// Backend: `"coding-session"` or `"managed-agents"`. Required.
    pub backend: String,

    /// Coding-session lifecycle: single-shot by default, or a long-lived
    /// multi-turn workspace. Ignored by the managed-agents backend.
    pub mode: Option<String>,

    /// Coding-session container size (`s`, `m`, `l`). Ignored by the
    /// managed-agents backend; empty means medium.
    pub tier: Option<String>,

    /// Container image override. Both backends have defaults.
    pub image: Option<String>,

    /// Stored credential references the session mounts (e.g. a git push
    /// token).
    pub vault_ids: Option<Vec<String>>,

    /// The coding-session git contract. Omit for managed-agents environments.
    pub overlay: Option<OverlayConfig>,
}

/// A stored runtime environment.
#[derive(Debug, Clone, Default)]
pub struct RuntimeEnvironment {
    /// Environment identifier.
    pub id: String,

    /// Owning user.
    pub user_id: String,

    /// Display name.
    pub name: String,

    /// Backend this environment runs on.
    pub backend: String,

    /// Coding-session lifecycle mode.
    pub mode: String,

    /// Coding-session container size.
    pub tier: String,

    /// Container image.
    pub image: String,

    /// Stored credential references.
    pub vault_ids: Vec<String>,

    /// The coding-session git contract, when there is one.
    pub overlay: Option<OverlayConfig>,

    /// Backend-side environment id once provisioned.
    pub upstream_id: String,

    /// RFC3339 creation timestamp.
    pub created_at: String,
}

/// Response from `GET /qai/v1/agent-runtime/environments`.
#[derive(Debug, Clone, Default)]
pub struct RuntimeEnvironmentsResponse {
    /// The caller's environments.
    pub environments: Vec<RuntimeEnvironment>,
}

/// Request body for `POST /qai/v1/agent-runtime/sessions`.
#[derive(Debug, Clone, Default)]
pub struct StartSessionRequest {
    /// The agent to run.
    pub agent_id: String,

    /// The environment to run it in.
    pub environment_id: String,
}

/// A running session. The client holds this descriptor and passes it back on
/// every subsequent session call — the gateway keeps no per-connection state.
#[derive(Debug, Clone, Default)]
pub struct RuntimeSession {
    /// Session identifier.
    pub id: String,

    /// Owning user.
    pub user_id: String,

    /// The agent being run.
    pub agent_id: String,

    /// The environment it runs in.
    pub environment_id: String,

    /// Backend the session runs on.
    pub backend: String,

    /// Session status.
    pub status: String,

    /// Backend-side session id. Required for every session call.
    pub upstream_id: String,

    /// RFC3339 creation timestamp.
    pub created_at: String,
}

/// One item appended to, or emitted from, a session. Type names follow the
/// Managed Agents event vocabulary so both backends stream the same shape.
#[derive(Debug, Clone, Default)]
pub struct RuntimeEvent {
    /// Event type (e.g. a user message, a model delta, a tool use/result, a
    /// status change).
    pub event_type: String,

    /// Message role, when the event carries one.
    pub role: String,

    /// Text payload, when the event carries one.
    pub content: String,

    /// Structured payload, when the event carries one.
    pub data: Option<serde_json::Value>,

    /// RFC3339 timestamp.
    pub timestamp: String,

    /// 1-based sequence number, assigned only to durable structural events.
    /// Send the last one back as `since` to resume a dropped stream. Zero for
    /// ephemeral events (bash output, token deltas), which are never
    /// persisted or replayed.
    pub index: i64,
}

/// Request body for `POST /qai/v1/agent-runtime/sessions/events`.
#[derive(Debug, Clone, Default)]
pub struct AppendEventRequest {
    /// The session descriptor returned by
    /// `Client::agent_runtime_session_start`.
    pub session: RuntimeSession,

    /// The event to append.
    pub event: RuntimeEvent,
}

/// Response from the session routes that only report success.
#[derive(Debug, Clone, Default)]
pub struct RuntimeOkResponse {
    /// True once the call was accepted.
    pub ok: bool,
}

/// Response from `POST /qai/v1/agent-runtime/workspaces`.
#[derive(Debug, Clone, Default)]
pub struct StageWorkspaceResponse {
    /// The staged object, to set as
    /// [`OverlayConfig::workspace_object`] on the environment that launches
    /// the session.
    pub workspace_object: String,
}

/// Whether a counter is zero (such fields are left off the wire).
pub fn is_zero(value: &i64) -> (r: bool)
    ensures
        r == (*value == 0),
{
    *value == 0
}

/// The runtime agents route, with `limit` when set.
pub fn runtime_agents_path(limit: Option<u32>) -> (r: String)
    ensures
        r@ == with_query("/qai/v1/agent-runtime/agents"@, opt_param("limit"@, numeral(from_u32(limit)))),
{
    let mut params: Vec<String> = Vec::new();
    assert(texts(params@) =~= Seq::empty());
    add_number(&mut params, "limit", match limit {
        Some(n) => Some(n as i64),
        None => None,
    });
    path_with_query("/qai/v1/agent-runtime/agents", &params)
}

/// The runtime environments route, with `limit` when set.
pub fn runtime_environments_path(limit: Option<u32>) -> (r: String)
    ensures
        r@ == with_query(
            "/qai/v1/agent-runtime/environments"@,
            opt_param("limit"@, numeral(from_u32(limit))),
        ),
{
    let mut params: Vec<String> = Vec::new();
    assert(texts(params@) =~= Seq::empty());
    add_number(&mut params, "limit", match limit {
        Some(n) => Some(n as i64),
        None => None,
    });
    path_with_query("/qai/v1/agent-runtime/environments", &params)
}

/// The session stream route: the session's JSON descriptor URL-encoded as
/// `session`, then `since` when set.
pub fn runtime_session_stream_path(descriptor: &str, since: Option<i64>) -> (r: String)
    ensures
        r@ == with_query(
            "/qai/v1/agent-runtime/sessions/stream"@,
            opt_param("session"@, Some(crate::encoding::url_encoded(descriptor@))) + opt_param(
                "since"@,
                numeral(from_i64(since)),
            ),
        ),
{
    let mut params: Vec<String> = Vec::new();
    let d = Some(descriptor.to_owned());
    add_encoded(&mut params, "session", &d);
    add_number(&mut params, "since", since);
    path_with_query("/qai/v1/agent-runtime/sessions/stream", &params)
}

/// The `X-API-Key` a `DELETE` carries beside the `Authorization` header:
/// the token after `Bearer `, empty when the header cannot be read as text
/// or does not start so.
pub open spec fn delete_api_key_spec(auth: Seq<char>) -> Seq<char> {
    if visible_text(auth) && has_prefix(auth, "Bearer "@) {
        auth.skip(7)
    } else {
        Seq::empty()
    }
}

/// The `X-API-Key` value a `DELETE` sends for this `Authorization` value.
pub fn delete_api_key(auth: &str) -> (r: String)
    ensures
        r@ == delete_api_key_spec(auth@),
{
    let a = chars_of(auth);
    proof {
        reveal_strlit("Bearer ");
    }
    if crate::realtime::is_visible(&a) && starts_with(&a, "Bearer ") {
        string_from_chars(chars_from(&a, 7))
    } else {
        String::new()
    }
}

} // verus!

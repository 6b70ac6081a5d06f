//! Agent turns and mission runs.
//!
//! Two different surfaces live here:
//!
//! - `Client::agent_step` is `POST /qai/v1/agent`: one non-streaming model
//!   turn with tool-call passthrough. The gateway never executes tools. It
//!   returns whatever `tool_use` blocks the model produced; the client runs
//!   them itself and sends the results back as `tool` messages on the next
//!   call. This is the loop a native app with its own tool sandbox drives.
//! - `Client::mission_run` is `POST /qai/v1/missions`: a server-side
//!   conductor/worker run, streamed back as SSE [`AgentStreamEvent`]s.
//!
//! For a server-side loop that also executes tools in the gateway's sandbox,
//! see `Client::cloudrun`.

use std::collections::HashMap;

use vstd::prelude::*;
use vstd::std_specs::hash::obeys_key_model;

use crate::client::{backfill_text, backfill_ticks, ResponseMeta};

use crate::error::{json_error_text, reqwest_error_display, reqwest_error_text};
use crate::json::{bool_json, json_bool, json_string, string_json};
use crate::session::ContextConfig;
use crate::text::{has_prefix, push_str, str_eq, string_from_chars};

verus! {

broadcast use vstd::string::group_string_axioms;

/// A tool call made by the model.
///
/// Returned in [`AgentResponse::tool_use`], and sent back on an `assistant`
/// [`AgentMessage`] when the conversation is replayed so the model sees its
/// own call before the `tool` result that answers it.
#[derive(Debug, Clone, Default)]
pub struct AgentToolUse {
    /// Call identifier. A `tool` message answers it via
    /// [`AgentMessage::tool_call_id`].
    pub id: String,

    /// Name of the tool called.
    pub name: String,

    /// Parsed arguments, as a JSON object.
    pub input: serde_json::Value,
}

/// One message in an agent conversation.
#[derive(Debug, Clone, Default)]
pub struct AgentMessage {
    /// `"user"`, `"assistant"`, `"tool"`, or `"system"`. `system` messages
    /// are folded into the system prompt; an unknown role is sent as `user`.
    pub role: String,

    /// Text content. For a `tool` message this is the tool's output.
    pub content: String,

    /// For `tool` messages: the [`AgentToolUse::id`] this result answers.
    pub tool_call_id: String,

    /// For `assistant` messages replayed from history: the tool calls the
    /// model made on that turn.
    pub tool_use: Vec<AgentToolUse>,

    /// For `tool` messages: whether the tool failed.
    pub is_error: bool,
}

/// A message with the given role and text and nothing else set.
pub open spec fn text_message(m: AgentMessage, role: Seq<char>, content: Seq<char>) -> bool {
    &&& m.role@ == role
    &&& m.content@ == content
    &&& m.tool_call_id@.len() == 0
    &&& m.tool_use@.len() == 0
    &&& !m.is_error
}

impl AgentMessage {
    /// A `user` message.
    pub fn user(content: &str) -> (m: AgentMessage)
        ensures
            text_message(m, "user"@, content@),
    {
        AgentMessage {
            role: "user".to_owned(),
            content: content.to_owned(),
            tool_call_id: String::new(),
            tool_use: Vec::new(),
            is_error: false,
        }
    }

    /// A `system` message. The gateway appends it to the system prompt.
    pub fn system(content: &str) -> (m: AgentMessage)
        ensures
            text_message(m, "system"@, content@),
    {
        AgentMessage {
            role: "system".to_owned(),
            content: content.to_owned(),
            tool_call_id: String::new(),
            tool_use: Vec::new(),
            is_error: false,
        }
    }

    /// An `assistant` message replaying a previous turn: its text and the
    /// tool calls it made.
    pub fn assistant(content: &str, tool_use: Vec<AgentToolUse>) -> (m: AgentMessage)
        ensures
            m.role@ == "assistant"@,
            m.content@ == content@,
            m.tool_use@ == tool_use@,
            m.tool_call_id@.len() == 0,
            !m.is_error,
    {
        AgentMessage {
            role: "assistant".to_owned(),
            content: content.to_owned(),
            tool_call_id: String::new(),
            tool_use,
            is_error: false,
        }
    }

    /// A `tool` message carrying the result of one tool call. Consecutive
    /// tool results are grouped onto one provider turn by the gateway.
    pub fn tool_result(tool_call_id: &str, content: &str, is_error: bool) -> (m: AgentMessage)
        ensures
            m.role@ == "tool"@,
            m.content@ == content@,
            m.tool_call_id@ == tool_call_id@,
            m.tool_use@.len() == 0,
            m.is_error == is_error,
    {
        AgentMessage {
            role: "tool".to_owned(),
            content: content.to_owned(),
            tool_call_id: tool_call_id.to_owned(),
            tool_use: Vec::new(),
            is_error,
        }
    }
}

/// A tool the model may call. The gateway forwards the definition to the
/// provider; execution is the client's job.
#[derive(Debug, Clone, Default)]
pub struct AgentToolDef {
    /// Tool name. Also the key the `capabilities` allowlist matches on.
    pub name: String,

    /// What the tool does.
    pub description: String,

    /// JSON Schema for the tool's input, as an object. Omitted when null.
    pub input_schema: serde_json::Value,
}

/// One content block in an [`AgentResponse`].
#[derive(Debug, Clone, Default)]
pub struct AgentContentPart {
    /// Block type — `"text"`.
    pub part_type: String,

    /// The text.
    pub text: String,
}

/// Token usage for one agent turn.
#[derive(Debug, Clone, Default)]
pub struct AgentUsage {
    /// Prompt tokens.
    pub input_tokens: i64,

    /// Completion tokens.
    pub output_tokens: i64,
}

/// Response from `POST /qai/v1/agent`: a single JSON document, never a
/// stream.
#[derive(Debug, Clone, Default)]
pub struct AgentResponse {
    /// The gateway request id.
    pub id: String,

    /// Model that ran the turn.
    pub model: String,

    /// Why the model stopped. `"tool_use"` whenever [`tool_use`] is
    /// non-empty, otherwise the provider's reason (`"end_turn"` when the
    /// provider gave none).
    ///
    /// [`tool_use`]: AgentResponse::tool_use
    pub stop_reason: String,

    /// Text blocks. Empty when the model only called tools.
    pub content: Vec<AgentContentPart>,

    /// Tool calls to execute. Present only when the model called tools.
    pub tool_use: Vec<AgentToolUse>,

    /// Token usage for the turn.
    pub usage: AgentUsage,

    /// Cost of the turn in ticks, read from the `X-QAI-Cost-Ticks` response
    /// header. Zero when the gateway sent none.
    pub cost_ticks: i64,
}

/// The texts of the `text` parts, in order, joined with nothing between.
pub open spec fn agent_text(parts: Seq<AgentContentPart>) -> Seq<char>
    decreases parts.len(),
{
    if parts.len() == 0 {
        Seq::empty()
    } else {
        let p = parts.last();
        agent_text(parts.drop_last()) + if p.part_type@ == "text"@ {
            p.text@
        } else {
            Seq::empty()
        }
    }
}

/// The text of two runs of parts is the first run's text followed by the
/// second's, and one part contributes its text exactly when it is of type
/// `text`: so every text part appears, once, in part order.
pub proof fn lemma_agent_text_concat(a: Seq<AgentContentPart>, b: Seq<AgentContentPart>)
    ensures
        agent_text(a + b) == agent_text(a) + agent_text(b),
        b.len() == 1 ==> agent_text(b) == (if b[0].part_type@ == "text"@ {
            b[0].text@
        } else {
            Seq::<char>::empty()
        }),
    decreases b.len(),
{
    if b.len() == 0 {
        assert(a + b =~= a);
        assert(agent_text(a) + Seq::<char>::empty() =~= agent_text(a));
    } else {
        lemma_agent_text_concat(a, b.drop_last());
        assert((a + b).drop_last() =~= a + b.drop_last());
        assert((a + b).last() == b.last());
        if b.len() == 1 {
            assert(b.drop_last() =~= Seq::<AgentContentPart>::empty());
        }
        let t = if b.last().part_type@ == "text"@ {
            b.last().text@
        } else {
            Seq::<char>::empty()
        };
        assert(agent_text(a) + agent_text(b.drop_last()) + t =~= agent_text(a) + (agent_text(
            b.drop_last(),
        ) + t));
    }
}

/// A copy of each tool call, field for field.
fn copy_tool_uses(v: &Vec<AgentToolUse>) -> (r: Vec<AgentToolUse>)
    ensures
        r@ == v@,
{
    let mut r: Vec<AgentToolUse> = Vec::new();
    let mut i: usize = 0;
    while i < v.len()
        invariant
            i <= v@.len(),
            r@ == v@.take(i as int),
        decreases v@.len() - i,
    {
        let u = &v[i];
        r.push(AgentToolUse { id: u.id.clone(), name: u.name.clone(), input: u.input.clone() });
        i = i + 1;
        assert(r@ =~= v@.take(i as int));
    }
    assert(v@.take(v@.len() as int) =~= v@);
    r
}

impl AgentResponse {
    /// All text blocks joined.
    pub fn text(&self) -> (r: String)
        ensures
            r@ == agent_text(self.content@),
    {
        let mut acc: Vec<char> = Vec::new();
        let mut i: usize = 0;
        while i < self.content.len()
            invariant
                i <= self.content@.len(),
                acc@ == agent_text(self.content@.take(i as int)),
            decreases self.content@.len() - i,
        {
            let part = &self.content[i];
            assert(self.content@.take(i + 1).drop_last() =~= self.content@.take(i as int));
            if str_eq(part.part_type.as_str(), "text") {
                push_str(&mut acc, part.text.as_str());
            }
            i = i + 1;
            assert(acc@ =~= agent_text(self.content@.take(i as int)));
        }
        assert(self.content@.take(self.content@.len() as int) =~= self.content@);
        string_from_chars(acc)
    }

    /// This turn as an `assistant` message, for replaying into the next
    /// request's history ahead of the tool results.
    pub fn to_message(&self) -> (m: AgentMessage)
        ensures
            m.role@ == "assistant"@,
            m.content@ == agent_text(self.content@),
            m.tool_use@ == self.tool_use@,
            m.tool_call_id@.len() == 0,
            !m.is_error,
    {
        let text = self.text();
        AgentMessage::assistant(text.as_str(), copy_tool_uses(&self.tool_use))
    }
}

/// Describes a named worker for a mission (map keyed by name).
#[derive(Debug, Clone, Default)]
pub struct MissionWorker {
    /// Model ID for this worker.
    pub model: Option<String>,

    /// Worker tier.
    pub tier: Option<String>,

    /// Description of this worker's purpose.
    pub description: Option<String>,

    /// Worker to escalate to on failure (e.g. cheap coder → expensive coder).
    pub escalate_to: Option<String>,

    /// Max retries before escalating (default 1).
    pub max_retries: Option<i32>,
}

/// Request body for a mission run.
#[derive(Debug, Clone, Default)]
pub struct MissionRequest {
    /// The high-level goal for the mission.
    pub goal: String,

    /// Execution strategy hint: `"wave"` (default), `"dag"`, `"mapreduce"`,
    /// `"refinement"`, `"branch"`, or `"codegen"`.
    pub strategy: Option<String>,

    /// Model for the conductor.
    pub conductor_model: Option<String>,

    /// Conductor tier override. Default: "expensive".
    /// Set to "cheap" when using a fast router as conductor.
    pub conductor_tier: Option<String>,

    /// Named workers (key = worker name).
    pub workers: Option<HashMap<String, MissionWorker>>,

    /// Maximum number of steps.
    pub max_steps: Option<i32>,

    /// System prompt for the conductor.
    pub system_prompt: Option<String>,

    /// Session identifier for continuity.
    pub session_id: Option<String>,

    /// Context management configuration.
    pub context_config: Option<ContextConfig>,

    /// Deployment whose endpoint worker inference is routed to. Honoured
    /// only when `strategy` is `"codegen"`; ignored otherwise.
    pub deployment_id: Option<String>,

    /// Build command to run after codegen (e.g. `"cargo build"`). Honoured
    /// only when `strategy` is `"codegen"`; ignored otherwise.
    pub build_command: Option<String>,

    /// Directory the codegen pipeline writes generated files to, on the
    /// gateway's own filesystem. Interpreted relative to the caller's
    /// per-user workspace root; an absolute path or any `..` segment is
    /// rejected with 400 `invalid_workspace_path`. Honoured only when
    /// `strategy` is `"codegen"`; ignored otherwise.
    pub workspace_path: Option<String>,
}

/// Backwards-compatible alias for [`MissionWorker`].
pub type MissionWorkerConfig = MissionWorker;

/// A single event from a mission, Cloud Run, or inference SSE stream.
///
/// Two events are synthesised client-side: `done` when the `[DONE]` sentinel
/// arrives, and `error` when a `data:` payload does not parse or the
/// transport fails mid-stream. The latter carries `error` (the message) and
/// `transport: true` in [`data`](Self::data); the stream ends after it, so a
/// run that stops without a preceding `done` or result event was cut off.
#[derive(Debug, Clone)]
pub struct AgentStreamEvent {
    /// Event type (e.g. "step", "thought", "tool_call", "tool_result", "message", "error", "done").
    pub event_type: String,

    /// Raw JSON payload for caller to interpret.
    pub data: HashMap<String, serde_json::Value>,
}

/// A single SSE event from an agent-style stream.
/// Alias for [`AgentStreamEvent`] for backwards compatibility.
pub type AgentEvent = AgentStreamEvent;

/// A single SSE event from a mission run stream.
/// Alias for [`AgentStreamEvent`] since both use the same SSE format.
pub type MissionEvent = AgentStreamEvent;

impl AgentStreamEvent {
    /// The event the `[DONE]` sentinel becomes: type `done`, no data.
    pub fn done_event() -> (ev: AgentStreamEvent)
        ensures
            ev.event_type@ == "done"@,
            ev.data@.len() == 0,
    {
        AgentStreamEvent { event_type: "done".to_owned(), data: HashMap::new() }
    }

    /// A client-side `error` event: `error` holds the message, and
    /// `transport: true` is set when the transport failed. The members are
    /// stated under vstd's model of `String` keys in a `HashMap`.
    pub fn error_event(message: String, transport: bool) -> (ev: AgentStreamEvent)
        ensures
            ev.event_type@ == "error"@,
            obeys_key_model::<String>() ==> error_data(ev.data@, message@, transport),
    {
        let mut data: HashMap<String, serde_json::Value> = HashMap::new();
        let error_key = "error".to_owned();
        let error_value = json_string(message);
        proof {
            broadcast use vstd::std_specs::hash::group_hash_axioms;
            reveal_strlit("error");
            reveal_strlit("transport");
        }
        let ghost k1 = error_key;
        let ghost v1 = error_value;
        data.insert(error_key, error_value);
        if transport {
            let transport_key = "transport".to_owned();
            let ghost k2 = transport_key;
            data.insert(transport_key, json_bool(true));
            proof {
                if obeys_key_model::<String>() {
                    assert(k1@ == "error"@);
                    assert(k2@ == "transport"@);
                    assert(k1@.len() != k2@.len());
                    assert(k1 != k2);
                    assert(data@.dom().contains(k1) && data@[k1] == v1);
                    assert(data@.dom().contains(k2) && data@[k2] == bool_json(true));
                }
            }
        } else {
            proof {
                if obeys_key_model::<String>() {
                    assert(data@.dom().contains(k1) && data@[k1] == v1);
                }
            }
        }
        AgentStreamEvent { event_type: "error".to_owned(), data }
    }

    /// The `error` event for a transport failure mid-stream: the message is
    /// `transport: ` followed by the failure's text, and `transport: true`
    /// is set.
    pub fn transport_failure(err: &reqwest::Error) -> (ev: AgentStreamEvent)
        ensures
            ev.event_type@ == "error"@,
            obeys_key_model::<String>() ==> error_data(
                ev.data@,
                "transport: "@ + reqwest_error_display(*err),
                true,
            ),
    {
        let mut v: Vec<char> = Vec::new();
        push_str(&mut v, "transport: ");
        let t = reqwest_error_text(err);
        push_str(&mut v, t.as_str());
        AgentStreamEvent::error_event(string_from_chars(v), true)
    }

    /// The `error` event for a `data:` payload that does not parse: the
    /// message is `parse SSE: ` followed by the decoder's message, and no
    /// `transport` member is set.
    pub fn parse_failure(err: &serde_json::Error) -> (ev: AgentStreamEvent)
        ensures
            ev.event_type@ == "error"@,
            obeys_key_model::<String>() ==> exists|m: Seq<char>|
                has_prefix(m, "parse SSE: "@) && #[trigger] error_data(ev.data@, m, false),
    {
        let mut v: Vec<char> = Vec::new();
        push_str(&mut v, "parse SSE: ");
        let t = json_error_text(err);
        push_str(&mut v, t.as_str());
        assert(v@.take("parse SSE: "@.len() as int) =~= "parse SSE: "@);
        let ghost m = v@;
        let ev = AgentStreamEvent::error_event(string_from_chars(v), false);
        assert(has_prefix(m, "parse SSE: "@));
        ev
    }
}

/// The data of a client-side error event: an `error` member holding the
/// message as a JSON string; a `transport` member holding `true` exactly
/// when the transport failed; no other member.
pub open spec fn error_data(data: Map<String, serde_json::Value>, message: Seq<char>, transport: bool) -> bool {
    &&& exists|k: String| #[trigger] data.dom().contains(k) && k@ == "error"@ && data[k] == string_json(message)
    &&& transport ==> exists|k: String| #[trigger] data.dom().contains(k) && k@ == "transport"@ && data[k] == bool_json(true)
    &&& forall|k: String| #[trigger] data.dom().contains(k) ==> k@ == "error"@ || (transport && k@ == "transport"@)
}

impl AgentResponse {
    /// Fills the cost and the request id from the response headers where
    /// the body left them empty.
    pub fn backfill(&mut self, meta: &ResponseMeta)
        ensures
            final(self).cost_ticks == (if old(self).cost_ticks == 0 {
                meta.cost_ticks
            } else {
                old(self).cost_ticks
            }),
            final(self).id@ == (if old(self).id@.len() == 0 {
                meta.request_id@
            } else {
                old(self).id@
            }),
            final(self).model == old(self).model,
            final(self).stop_reason == old(self).stop_reason,
            final(self).content == old(self).content,
            final(self).tool_use == old(self).tool_use,
            final(self).usage == old(self).usage,
    {
        self.cost_ticks = backfill_ticks(self.cost_ticks, meta.cost_ticks);
        let mut id = String::new();
        std::mem::swap(&mut id, &mut self.id);
        self.id = backfill_text(id, meta.request_id.as_str());
    }
}

} // verus!

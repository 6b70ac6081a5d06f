use std::collections::HashMap;

use vstd::prelude::*;

use crate::chat::{ChatResponse, ChatTool};

verus! {

/// Configuration for session context management.
#[derive(Debug, Clone, Default)]
pub struct ContextConfig {
    /// Token threshold that triggers automatic compaction.
    pub compact_at_tokens: Option<i64>,

    /// Number of recent tool call/result pairs to keep uncompacted.
    pub keep_recent_tool_results: Option<i32>,

    /// Strip thinking blocks from older assistant turns.
    pub clear_thinking: Option<bool>,

    /// Summarization strategy. `"plan_and_tools"` is the only strategy
    /// the gateway distinguishes (it keeps the plan and tool history in
    /// the summary); any other value, unset included, gets the default
    /// summary.
    pub summarize_strategy: Option<String>,

    /// Model to use for summarization (default: gemini-2.5-flash).
    pub summarize_model: Option<String>,
}

/// A tool result to feed back into the session.
#[derive(Debug, Clone, Default)]
pub struct ToolResult {
    /// The tool_use ID this result corresponds to.
    pub tool_call_id: String,

    /// The result content.
    pub content: String,

    /// Whether this result is an error.
    pub is_error: Option<bool>,
}

/// A tool execution result from the client. Same shape as [`ToolResult`],
/// which is the type [`SessionChatRequest::tool_results`] carries.
#[derive(Debug, Clone, Default)]
pub struct SessionToolResult {
    /// References the tool_use ID from the previous response.
    pub tool_call_id: String,

    /// The tool execution result content.
    pub content: String,

    /// Whether the tool execution failed.
    pub is_error: Option<bool>,
}

/// Context metadata with a stale-tool-result count. [`SessionChatResponse`]
/// carries [`SessionContext`], which lacks that field.
#[derive(Debug, Clone)]
pub struct ContextMetadata {
    /// Total number of turns in the conversation.
    pub turn_count: i64,

    /// Estimated token count of the current context.
    pub estimated_tokens: i64,

    /// Whether the conversation was compacted in this request.
    pub compacted: bool,

    /// Description of the compaction that occurred.
    pub compaction_note: Option<String>,

    /// Number of stale tool results that were cleared.
    pub tools_cleared: Option<i32>,
}

/// Request body for session-based chat.
#[derive(Debug, Clone, Default)]
pub struct SessionChatRequest {
    /// Session identifier. Omit to create a new session.
    pub session_id: Option<String>,

    /// Model to use for generation.
    pub model: Option<String>,

    /// The user message.
    pub message: String,

    /// Tools the model can call.
    pub tools: Option<Vec<ChatTool>>,

    /// Results from previous tool calls.
    pub tool_results: Option<Vec<ToolResult>>,

    /// Streaming flag on the wire. The method sets it: `Client::chat_session`
    /// sends `false` and `Client::chat_session_stream` sends `true`,
    /// overwriting whatever is here, so the buffered call never receives
    /// an SSE body it cannot decode.
    pub stream: Option<bool>,

    /// System prompt for the session.
    pub system_prompt: Option<String>,

    /// Context management configuration.
    pub context_config: Option<ContextConfig>,

    /// How much chain-of-thought a reasoning model runs before answering.
    /// One of "none", "low", "medium", "high", "xhigh"; `None` = provider
    /// default. Mirrors [`ChatRequest::reasoning_effort`](crate::ChatRequest).
    pub reasoning_effort: Option<String>,

    /// Provider-specific settings.
    pub provider_options: Option<HashMap<String, serde_json::Value>>,
}

/// Context metadata returned with session responses.
#[derive(Debug, Clone)]
pub struct SessionContext {
    /// Number of conversation turns in the session.
    pub turn_count: i64,

    /// Estimated total tokens in the session context.
    pub estimated_tokens: i64,

    /// Whether context was compacted during this turn.
    pub compacted: bool,

    /// Note about the compaction, if any.
    pub compaction_note: Option<String>,
}

/// Response from session-based chat.
#[derive(Debug, Clone)]
pub struct SessionChatResponse {
    /// The session identifier (may be newly created).
    pub session_id: String,

    /// The chat response.
    pub response: ChatResponse,

    /// Session context metadata.
    pub context: SessionContext,
}

/// The request with `stream` set as given, every other field as it was.
pub fn with_stream(req: SessionChatRequest, stream: bool) -> (r: SessionChatRequest)
    ensures
        r == (SessionChatRequest { stream: Some(stream), ..req }),
{
    let mut req = req;
    req.stream = Some(stream);
    req
}

} // verus!

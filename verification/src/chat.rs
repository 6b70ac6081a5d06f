use std::collections::HashMap;

use vstd::prelude::*;

use crate::client::{backfill_text, backfill_ticks, ResponseMeta};

use crate::error::json_error_text;
use crate::text::{has_prefix, opt_view, or_empty, push_str, str_eq, string_from_chars, unwrap_or_empty};

pub mod stop_reason;

verus! {

broadcast use vstd::string::group_string_axioms;

/// A single message in a conversation.
#[derive(Debug, Clone, Default)]
pub struct ChatMessage {
    /// One of "system", "user", "assistant", or "tool".
    pub role: String,

    /// Text content of the message.
    pub content: Option<String>,

    /// Structured content for assistant messages with tool calls.
    /// When present, takes precedence over `content`.
    pub content_blocks: Option<Vec<ContentBlock>>,

    /// Required when role is "tool" — references the tool_use ID.
    pub tool_call_id: Option<String>,

    /// Whether a tool result is an error.
    pub is_error: Option<bool>,

    /// Provider-side reasoning state (OpenAI Responses API). Pass back the
    /// `phase` received on the previous turn's [`ChatResponse`] so reasoning
    /// state is preserved across replay. `None` for providers without phase.
    pub phase: Option<String>,
}

/// A single block in the response content array.
#[derive(Debug, Clone, Default)]
pub struct ContentBlock {
    /// One of "text", "thinking", "reasoning", "tool_use", "image", "file"
    /// or "file_uri".
    pub block_type: String,

    /// Content for "text" and "thinking" blocks.
    pub text: Option<String>,

    /// Tool call identifier for "tool_use" blocks.
    pub id: Option<String>,

    /// Function name for "tool_use" blocks.
    pub name: Option<String>,

    /// Function arguments for "tool_use" blocks.
    pub input: Option<HashMap<String, serde_json::Value>>,

    /// Gemini thought signature (base64). Present on `tool_use` blocks and,
    /// on Gemini 3, on the `text` block of a turn that ended in text — echo
    /// it back on the corresponding block of the next turn's assistant
    /// message. A streaming turn that ends in text carries it on the
    /// `thought_signature` event instead, see
    /// [`StreamEvent::thought_signature`].
    pub thought_signature: Option<String>,

    /// The provider's own reasoning item, verbatim, on a block of type
    /// `reasoning`. Opaque: never inspect or rebuild it — pass the whole
    /// block back untouched, **in the position it arrived in**, on the next
    /// turn's assistant message. Its place among the `tool_use` blocks is
    /// how the provider learns where the reasoning sat; replaying it behind
    /// the call it reasoned about is a different conversation and the
    /// provider rejects it. Dropping it re-bills the reasoning tokens on
    /// every round of a tool loop.
    ///
    /// Distinct from a `thinking` block, which is the human-readable
    /// summary: one is for the reader, one is for the wire.
    pub reasoning: Option<serde_json::Value>,

    /// Model that minted a `reasoning` block. Reasoning state is bound to
    /// its model, so a block is never replayed to a different one.
    pub minted_by: Option<String>,

    /// Base64-encoded data for file/image content blocks.
    pub data: Option<String>,

    /// Filename for file content blocks.
    pub file_name: Option<String>,

    /// MIME type for file/image/file_uri content blocks.
    pub mime_type: Option<String>,

    /// Remote-resource URL for `file_uri` content blocks. Gemini
    /// accepts YouTube URLs verbatim here (with `mime_type: "video/mp4"`)
    /// — no upload step needed for public videos. Other providers
    /// may require a pre-uploaded resource URI; unsupported URIs are
    /// silently skipped server-side rather than erroring the request.
    pub file_uri: Option<String>,
}

/// Defines a function the model can call.
#[derive(Debug, Clone, Default)]
pub struct ChatTool {
    /// Function name.
    pub name: String,

    /// Explains what the function does.
    pub description: String,

    /// JSON Schema for the function's arguments.
    pub parameters: Option<serde_json::Value>,

    /// Enable guaranteed schema validation on tool inputs (Anthropic, OpenAI).
    pub strict: Option<bool>,
}

/// Response from a non-streaming chat request.
#[derive(Debug, Clone)]
pub struct ChatResponse {
    /// Unique request identifier.
    pub id: String,

    /// Model that generated the response.
    pub model: String,

    /// List of content blocks (text, thinking, tool_use).
    pub content: Vec<ContentBlock>,

    /// Token counts and cost.
    pub usage: Option<ChatUsage>,

    /// Why generation stopped: a canonical value from the [`stop_reason`]
    /// module, the same space regardless of which provider served the
    /// request. A provider-specific reason with no canonical mapping passes
    /// through lowercased, so match the known constants and treat anything
    /// else as terminal. A `String` rather than an enum so an unrecognized
    /// value never fails to deserialize.
    pub stop_reason: String,

    /// Citations from web search (when search is enabled via provider_options).
    pub citations: Vec<Citation>,

    /// Provider-side reasoning-state tag (OpenAI Responses API). Echo it back
    /// on the corresponding assistant [`ChatMessage::phase`] of the next turn
    /// to preserve reasoning state across replay. Empty when the provider
    /// doesn't surface phase.
    pub phase: String,

    /// `Some(true)` when this response was served from the semantic cache
    /// (the same signal the `X-QAI-Cache: hit-tier-N` header carries at
    /// the transport layer). `None`/`Some(false)` on a fresh provider
    /// response. A hit is served before any credit reservation: nothing
    /// is charged or metered, `usage.cost_ticks` is 0, no
    /// `X-QAI-Cost-Ticks` header is sent, and [`cost_ticks`](Self::cost_ticks)
    /// is 0.
    pub cached: Option<bool>,

    /// Total cost, from the X-QAI-Cost-Ticks header on a live call.
    ///
    /// `default` rather than `skip`: skip meant the field was never read from
    /// JSON at all, so a response reconstructed from a stored body — a disk
    /// cache, a replayed fixture, a proxy that moves the header into the
    /// envelope — came back reporting a cost of zero for a call that cost
    /// something. Read it when the body has it, fill it from the header when
    /// it does not.
    pub cost_ticks: i64,

    /// From the X-QAI-Request-Id header, or the body when it carries one.
    /// See [`cost_ticks`](Self::cost_ticks) for why this is `default`.
    pub request_id: String,
}

/// A source reference from web search grounding.
#[derive(Debug, Clone)]
pub struct Citation {
    /// Title of the cited source.
    pub title: String,

    /// URL of the cited source.
    pub url: String,

    /// Relevant text snippet from the source.
    pub text: String,

    /// Position in the response.
    pub index: i32,
}

/// Token counts and cost for a chat response.
///
/// The two paths count output differently. On the non-streaming
/// envelope `output_tokens` is completion plus reasoning. On the
/// streaming `usage` event `output_tokens` is the visible completion
/// only and reasoning is reported beside it; `cost_ticks` covers both
/// either way, so the billed output on a stream is
/// `output_tokens + reasoning_tokens`.
#[derive(Debug, Clone)]
pub struct ChatUsage {
    /// i64 to match every other count and the cost beside them. They were i32
    /// while cached_tokens, reasoning_tokens and cost_ticks were i64, so any
    /// arithmetic across the buckets — which is most of what a caller does
    /// with these — needed a cast on two of the five fields and not the rest.
    pub input_tokens: i64,
    /// Output tokens billed at the output rate. Includes reasoning on the
    /// non-streaming envelope; excludes it on the streaming usage event.
    pub output_tokens: i64,
    /// What the call cost, covering input, output and reasoning.
    pub cost_ticks: i64,

    /// Input tokens served from the provider's prompt cache, billed at the
    /// lower cached rate. Omitted when the turn had no cache hit.
    pub cached_tokens: Option<i64>,

    /// Input tokens that triggered a cache WRITE, billed at a premium over
    /// standard input — Anthropic charges 1.25x base for the 5-minute TTL,
    /// GPT Image 2.5 $12.50/M against $8.00 input.
    ///
    /// These OVERLAP `input_tokens`, so reconciling a bill adds the premium
    /// on the write rate, never the tokens twice. Without the field the four
    /// billed buckets cannot be reconstructed from a response: prompt, cache
    /// reads, cache writes and output. A client could see what a call cost
    /// and not which part of it was the cache being filled. Omitted by
    /// providers that charge no write premium.
    pub cache_write_tokens: Option<i64>,

    /// The AUDIO share of `input_tokens`. Several Gemini models charge a
    /// premium for audio input — 3.3x the text rate on gemini-2.5-flash, 2x
    /// on gemini-3.1-flash-lite — so a turn carrying audio costs more than
    /// its token counts appear to justify.
    ///
    /// This OVERLAPS `input_tokens` and is never added to it: reconciling a
    /// bill applies the audio rate to these and the text rate to the
    /// remainder. Omitted when the turn carried no audio, which is nearly
    /// all of them, and by models that charge no audio premium — some models
    /// price audio at the text rate and report nothing here.
    pub audio_tokens: Option<i64>,

    /// The audio share of `cached_tokens`, billed at the model's cached
    /// AUDIO rate rather than its cached text rate. Overlaps
    /// `cached_tokens` the same way `audio_tokens` overlaps `input_tokens`.
    pub cached_audio_tokens: Option<i64>,

    /// Reasoning / thinking tokens, billed at the output rate. Omitted on
    /// responses from non-reasoning models. Already inside
    /// `output_tokens` on the non-streaming envelope; on top of it on the
    /// streaming usage event.
    pub reasoning_tokens: Option<i64>,
}

/// A single event from an SSE chat stream.
///
/// A tool call streams as a triplet: one `tool_use_start`, zero or more
/// `tool_use_input_delta`, then one `tool_use_complete` carrying the full
/// arguments. Some backends emit a single atomic `tool_use` event instead,
/// so a consumer handles both forms.
///
/// A stream that fails after the HTTP 200 is locked in reports the
/// failure as an event whose type is `error`, `invalid_request` (the
/// request was rejected: do not retry as-is) or `rate_limit` (the
/// provider throttled: retry later); all three carry the message in
/// [`error`](Self::error), and `done` follows.
#[derive(Debug, Clone)]
pub struct StreamEvent {
    /// Event type: "content_delta", "thinking_delta",
    /// "tool_use_start", "tool_use_input_delta", "tool_use_complete",
    /// "tool_use" (atomic), "citations", "session", "usage",
    /// "thought_signature", "heartbeat", "error", "invalid_request",
    /// "rate_limit", "done".
    pub event_type: String,

    /// Incremental text for content_delta and thinking_delta events.
    pub delta: Option<StreamDelta>,

    /// Populated for atomic tool_use events.
    pub tool_use: Option<StreamToolUse>,

    /// Populated for tool_use_start events.
    pub tool_use_start: Option<StreamToolUseStart>,

    /// Populated for tool_use_input_delta events.
    pub tool_use_input_delta: Option<StreamToolUseInputDelta>,

    /// Populated for tool_use_complete events.
    pub tool_use_complete: Option<StreamToolUseComplete>,

    /// Populated for usage events.
    pub usage: Option<ChatUsage>,

    /// Web-search grounding sources, on a `citations` event. The gateway
    /// sends it once, before the first content delta, on streams where
    /// search results were injected; empty on every other event.
    pub citations: Vec<Citation>,

    /// Populated for the `session` event that opens a
    /// [`chat_session_stream`](Client::chat_session_stream).
    pub session: Option<StreamSession>,

    /// Gemini 3's signature for a stream that ended in text (base64), on the
    /// `thought_signature` event the gateway sends just before `done`. Store
    /// it on the assistant text block echoed back next turn — the same field
    /// [`ContentBlock::thought_signature`] carries on a non-streaming
    /// response. Absent on every other event and on providers that issue no
    /// signature.
    pub thought_signature: Option<String>,

    /// The failure message, on `error`, `invalid_request` and `rate_limit`
    /// events, and on an `error` the SDK raises for a payload it could
    /// not parse.
    pub error: Option<String>,

    /// True when the stream is complete.
    pub done: bool,
}

/// The `session` event a session stream opens with.
#[derive(Debug, Clone)]
pub struct StreamSession {
    /// The session identifier (newly created when the request had none).
    pub session_id: String,
    /// Whether the history was compacted before this turn.
    pub compacted: bool,
}

/// Incremental text in a streaming event.
#[derive(Debug, Clone)]
pub struct StreamDelta {
    pub text: String,
}

/// A tool call from an atomic `tool_use` streaming event.
#[derive(Debug, Clone)]
pub struct StreamToolUse {
    pub id: String,
    pub name: String,
    pub input: HashMap<String, serde_json::Value>,
}

/// Tool-call start event — fires once before any input deltas.
#[derive(Debug, Clone)]
pub struct StreamToolUseStart {
    pub id: String,
    pub name: String,
}

/// Tool-call input delta — fires zero or more times with raw JSON fragments.
#[derive(Debug, Clone)]
pub struct StreamToolUseInputDelta {
    pub id: String,
    /// Raw JSON fragment. May not parse on its own; accumulate until
    /// the corresponding `tool_use_complete` event arrives with the
    /// authoritative `input`.
    pub partial_json: String,
}

/// Tool-call completion event — fires exactly once per call with the
/// server-accumulated, fully-parsed arguments.
#[derive(Debug, Clone)]
pub struct StreamToolUseComplete {
    pub id: String,
    pub name: String,
    pub input: HashMap<String, serde_json::Value>,
}


/// A message with a role and text content, and nothing else set.
pub open spec fn plain_message(m: ChatMessage, role: Seq<char>, content: Seq<char>) -> bool {
    &&& m.role@ == role
    &&& opt_view(m.content) == Some(content)
    &&& m.content_blocks is None
    &&& m.phase is None
}

impl ChatMessage {
    /// Creates a user message.
    pub fn user(content: &str) -> (m: ChatMessage)
        ensures
            plain_message(m, "user"@, content@),
            m.tool_call_id is None,
            m.is_error is None,
    {
        ChatMessage {
            role: "user".to_owned(),
            content: Some(content.to_owned()),
            content_blocks: None,
            tool_call_id: None,
            is_error: None,
            phase: None,
        }
    }

    /// Creates an assistant message.
    pub fn assistant(content: &str) -> (m: ChatMessage)
        ensures
            plain_message(m, "assistant"@, content@),
            m.tool_call_id is None,
            m.is_error is None,
    {
        ChatMessage {
            role: "assistant".to_owned(),
            content: Some(content.to_owned()),
            content_blocks: None,
            tool_call_id: None,
            is_error: None,
            phase: None,
        }
    }

    /// Creates a system message.
    pub fn system(content: &str) -> (m: ChatMessage)
        ensures
            plain_message(m, "system"@, content@),
            m.tool_call_id is None,
            m.is_error is None,
    {
        ChatMessage {
            role: "system".to_owned(),
            content: Some(content.to_owned()),
            content_blocks: None,
            tool_call_id: None,
            is_error: None,
            phase: None,
        }
    }

    /// Creates a tool result message.
    pub fn tool_result(tool_call_id: &str, content: &str) -> (m: ChatMessage)
        ensures
            plain_message(m, "tool"@, content@),
            opt_view(m.tool_call_id) == Some(tool_call_id@),
            m.is_error is None,
    {
        ChatMessage {
            role: "tool".to_owned(),
            content: Some(content.to_owned()),
            content_blocks: None,
            tool_call_id: Some(tool_call_id.to_owned()),
            is_error: None,
            phase: None,
        }
    }

    /// Creates a tool error result message.
    pub fn tool_error(tool_call_id: &str, content: &str) -> (m: ChatMessage)
        ensures
            plain_message(m, "tool"@, content@),
            opt_view(m.tool_call_id) == Some(tool_call_id@),
            m.is_error == Some(true),
    {
        ChatMessage {
            role: "tool".to_owned(),
            content: Some(content.to_owned()),
            content_blocks: None,
            tool_call_id: Some(tool_call_id.to_owned()),
            is_error: Some(true),
            phase: None,
        }
    }
}

/// The texts of the blocks of type `kind` that carry text, joined.
pub open spec fn joined_text(blocks: Seq<ContentBlock>, kind: Seq<char>) -> Seq<char>
    decreases blocks.len(),
{
    if blocks.len() == 0 {
        Seq::empty()
    } else {
        let b = blocks.last();
        joined_text(blocks.drop_last(), kind) + if b.block_type@ == kind && b.text is Some {
            b.text->0@
        } else {
            Seq::empty()
        }
    }
}

/// The joined text of two runs of blocks is the first run's joined text
/// followed by the second's, and one block contributes its text exactly when
/// it is of the kind and carries text: so every such block's text appears,
/// once, in block order.
pub proof fn lemma_joined_text_concat(a: Seq<ContentBlock>, b: Seq<ContentBlock>, kind: Seq<char>)
    ensures
        joined_text(a + b, kind) == joined_text(a, kind) + joined_text(b, kind),
        b.len() == 1 ==> joined_text(b, kind) == (if b[0].block_type@ == kind && b[0].text is Some {
            b[0].text->0@
        } else {
            Seq::<char>::empty()
        }),
    decreases b.len(),
{
    if b.len() == 0 {
        assert(a + b =~= a);
        assert(joined_text(a, kind) + Seq::<char>::empty() =~= joined_text(a, kind));
    } else {
        lemma_joined_text_concat(a, b.drop_last(), kind);
        assert((a + b).drop_last() =~= a + b.drop_last());
        assert((a + b).last() == b.last());
        if b.len() == 1 {
            assert(b.drop_last() =~= Seq::<ContentBlock>::empty());
        }
        let t = if b.last().block_type@ == kind && b.last().text is Some {
            b.last().text->0@
        } else {
            Seq::<char>::empty()
        };
        assert(joined_text(a, kind) + joined_text(b.drop_last(), kind) + t =~= joined_text(a, kind)
            + (joined_text(b.drop_last(), kind) + t));
    }
}

/// The blocks of type `kind`, in order.
pub open spec fn blocks_of_kind(blocks: Seq<ContentBlock>, kind: Seq<char>) -> Seq<ContentBlock>
    decreases blocks.len(),
{
    if blocks.len() == 0 {
        Seq::empty()
    } else {
        let b = blocks.last();
        if b.block_type@ == kind {
            blocks_of_kind(blocks.drop_last(), kind).push(b)
        } else {
            blocks_of_kind(blocks.drop_last(), kind)
        }
    }
}

/// Whether a block is of type `kind`.
pub open spec fn of_kind(kind: Seq<char>) -> spec_fn(ContentBlock) -> bool {
    |b: ContentBlock| b.block_type@ == kind
}

/// The blocks of a kind are the content filtered by type: every block of
/// that type, each once, in the order the content gives them, and no other.
pub proof fn lemma_blocks_of_kind_filters(blocks: Seq<ContentBlock>, kind: Seq<char>)
    ensures
        blocks_of_kind(blocks, kind) == blocks.filter(of_kind(kind)),
        forall|i: int|
            0 <= i < blocks.len() && (#[trigger] blocks[i]).block_type@ == kind
                ==> blocks_of_kind(blocks, kind).contains(blocks[i]),
        forall|i: int|
            0 <= i < blocks_of_kind(blocks, kind).len() ==> (#[trigger] blocks_of_kind(
                blocks,
                kind,
            )[i]).block_type@ == kind,
    decreases blocks.len(),
{
    reveal(Seq::filter);
    let pred = of_kind(kind);
    if blocks.len() > 0 {
        lemma_blocks_of_kind_filters(blocks.drop_last(), kind);
    }
    assert(blocks_of_kind(blocks, kind) == blocks.filter(pred));
    assert forall|i: int| 0 <= i < blocks.len() && (#[trigger] blocks[i]).block_type@ == kind
        implies blocks_of_kind(blocks, kind).contains(blocks[i]) by {
        blocks.lemma_filter_contains(pred, i);
    }
    assert forall|i: int| 0 <= i < blocks_of_kind(blocks, kind).len() implies (
    #[trigger] blocks_of_kind(blocks, kind)[i]).block_type@ == kind by {
        blocks.lemma_filter_pred(pred, i);
    }
}

fn join_blocks(blocks: &Vec<ContentBlock>, kind: &str) -> (r: String)
    ensures
        r@ == joined_text(blocks@, kind@),
{
    let mut acc: Vec<char> = Vec::new();
    let mut i: usize = 0;
    while i < blocks.len()
        invariant
            i <= blocks@.len(),
            acc@ == joined_text(blocks@.take(i as int), kind@),
        decreases blocks@.len() - i,
    {
        let b = &blocks[i];
        assert(blocks@.take(i + 1).drop_last() =~= blocks@.take(i as int));
        if str_eq(b.block_type.as_str(), kind) {
            match &b.text {
                Some(t) => push_str(&mut acc, t.as_str()),
                None => {},
            }
        }
        i = i + 1;
        assert(acc@ =~= joined_text(blocks@.take(i as int), kind@));
    }
    assert(blocks@.take(blocks@.len() as int) =~= blocks@);
    string_from_chars(acc)
}

impl ChatResponse {
    /// Returns the concatenated text content, ignoring thinking and
    /// tool_use blocks.
    pub fn text(&self) -> (r: String)
        ensures
            r@ == joined_text(self.content@, "text"@),
    {
        join_blocks(&self.content, "text")
    }

    /// Returns the concatenated thinking content.
    pub fn thinking(&self) -> (r: String)
        ensures
            r@ == joined_text(self.content@, "thinking"@),
    {
        join_blocks(&self.content, "thinking")
    }

    /// Returns all tool_use blocks from the response.
    pub fn tool_calls(&self) -> (r: Vec<&ContentBlock>)
        ensures
            r@.map_values(|b: &ContentBlock| *b) == blocks_of_kind(self.content@, "tool_use"@),
            r@.map_values(|b: &ContentBlock| *b) == self.content@.filter(of_kind("tool_use"@)),
    {
        proof {
            lemma_blocks_of_kind_filters(self.content@, "tool_use"@);
        }
        let mut r: Vec<&ContentBlock> = Vec::new();
        let mut i: usize = 0;
        while i < self.content.len()
            invariant
                i <= self.content@.len(),
                r@.map_values(|b: &ContentBlock| *b) == blocks_of_kind(
                    self.content@.take(i as int),
                    "tool_use"@,
                ),
            decreases self.content@.len() - i,
        {
            let b = &self.content[i];
            assert(self.content@.take(i + 1).drop_last() =~= self.content@.take(i as int));
            if str_eq(b.block_type.as_str(), "tool_use") {
                r.push(b);
            }
            i = i + 1;
            assert(r@.map_values(|b: &ContentBlock| *b) =~= blocks_of_kind(
                self.content@.take(i as int),
                "tool_use"@,
            ));
        }
        assert(self.content@.take(self.content@.len() as int) =~= self.content@);
        r
    }

    /// True when the model is requesting tool execution
    /// (`stop_reason == "tool_use"`). Every provider is normalised the same
    /// way: a natural stop with tool_use blocks present becomes `tool_use`.
    /// A provider that reports `max_tokens`, `content_filter` or `error`
    /// alongside tool calls keeps that reason, so check
    /// [`tool_calls`](Self::tool_calls) too if you must act on a partial
    /// tool request.
    pub fn is_tool_use(&self) -> (r: bool)
        ensures
            r == (self.stop_reason@ == "tool_use"@),
    {
        str_eq(self.stop_reason.as_str(), stop_reason::TOOL_USE)
    }

    /// True when a safety classifier declined the request
    /// (`stop_reason == "refusal"`). On a refusal the content may be empty
    /// or a partial, already-streamed prefix that should be discarded.
    /// A refusal arrives as an HTTP 200, so it is never surfaced as an
    /// error.
    pub fn is_refusal(&self) -> (r: bool)
        ensures
            r == (self.stop_reason@ == "refusal"@),
    {
        str_eq(self.stop_reason.as_str(), stop_reason::REFUSAL)
    }

    /// True when output was cut off by the token cap
    /// (`stop_reason == "max_tokens"`): the response is incomplete; raise
    /// `max_tokens` or continue the turn.
    pub fn is_max_tokens(&self) -> (r: bool)
        ensures
            r == (self.stop_reason@ == "max_tokens"@),
    {
        str_eq(self.stop_reason.as_str(), stop_reason::MAX_TOKENS)
    }
}

/// An event that carries none of the payloads.
pub open spec fn no_payload(ev: StreamEvent) -> bool {
    &&& ev.delta is None
    &&& ev.tool_use is None
    &&& ev.tool_use_start is None
    &&& ev.tool_use_input_delta is None
    &&& ev.tool_use_complete is None
    &&& ev.usage is None
    &&& ev.citations@.len() == 0
    &&& ev.session is None
    &&& ev.thought_signature is None
}

/// An event of type `t` with nothing else set.
pub open spec fn bare_event(ev: StreamEvent, t: Seq<char>) -> bool {
    &&& ev.event_type@ == t
    &&& no_payload(ev)
    &&& ev.error is None
    &&& !ev.done
}

impl StreamEvent {
    /// An event of the given type with no payload.
    pub fn new(event_type: &str) -> (ev: StreamEvent)
        ensures
            bare_event(ev, event_type@),
    {
        StreamEvent {
            event_type: event_type.to_owned(),
            delta: None,
            tool_use: None,
            tool_use_start: None,
            tool_use_input_delta: None,
            tool_use_complete: None,
            usage: None,
            citations: Vec::new(),
            session: None,
            thought_signature: None,
            error: None,
            done: false,
        }
    }

    /// True when this event reports a failure, whichever of the three
    /// failure types the gateway used.
    pub fn is_error(&self) -> (r: bool)
        ensures
            r == self.error is Some,
    {
        self.error.is_some()
    }

    /// The event the `[DONE]` sentinel becomes.
    pub fn done_event() -> (ev: StreamEvent)
        ensures
            ev.event_type@ == "done"@,
            no_payload(ev),
            ev.error is None,
            ev.done,
    {
        let mut ev = StreamEvent::new("done");
        ev.done = true;
        ev
    }

    /// The `error` event the SDK raises for a `data:` payload that does not
    /// parse: `parse SSE: ` followed by the decoder's message.
    pub fn parse_failure(err: &serde_json::Error) -> (ev: StreamEvent)
        ensures
            ev.event_type@ == "error"@,
            no_payload(ev),
            ev.error matches Some(m) && has_prefix(m@, "parse SSE: "@),
            !ev.done,
    {
        let mut ev = StreamEvent::new("error");
        let mut v: Vec<char> = Vec::new();
        push_str(&mut v, "parse SSE: ");
        let t = json_error_text(err);
        push_str(&mut v, t.as_str());
        assert(v@.take("parse SSE: "@.len() as int) =~= "parse SSE: "@);
        ev.error = Some(string_from_chars(v));
        ev
    }

    /// The event a `data:` payload of a chat stream gives, from what its
    /// decoding gave: the typed event, or, when it did not decode, an
    /// `error` event whose message starts `parse SSE: ` (the stream reads
    /// on after it).
    pub fn for_payload(decoded: std::result::Result<RawStreamEvent, serde_json::Error>) -> (ev: StreamEvent)
        ensures
            match decoded {
                Ok(raw) => raw_event_becomes(raw, ev),
                Err(_) => ev.event_type@ == "error"@ && !ev.done && no_payload(ev) && (ev.error matches Some(
                    m,
                ) && has_prefix(m@, "parse SSE: "@)),
            },
    {
        match decoded {
            Ok(raw) => StreamEvent::from_raw(raw),
            Err(e) => StreamEvent::parse_failure(&e),
        }
    }

    /// Builds the typed event from a decoded `data:` payload. The payload's
    /// `type` picks which of its fields are read; every other field of the
    /// event stays empty.
    pub fn from_raw(raw: RawStreamEvent) -> (ev: StreamEvent)
        ensures
            raw_event_becomes(raw, ev),
            raw.event_type@ == "tool_use_complete"@ ==> (ev.tool_use_complete matches Some(u)
                && u.id@ == or_empty(raw.id) && u.name@ == or_empty(raw.name) && (
            raw.input matches Some(m) ==> u.input == m)),
    {
        let ev = StreamEvent::from_raw_kind(raw);
        proof {
            lemma_payload_types(raw, ev);
        }
        ev
    }

    /// The typed event by the kind of the payload's `type`.
    fn from_raw_kind(raw: RawStreamEvent) -> (ev: StreamEvent)
        ensures
            raw_event_becomes(raw, ev),
    {
        let mut ev = StreamEvent::new(raw.event_type.as_str());
        let kind = raw_kind_of(raw.event_type.as_str());
        match kind {
            RawKind::Delta => {
                ev.delta = raw.delta;
            },
            RawKind::ToolUse => {
                ev.thought_signature = raw.thought_signature;
                ev.tool_use = Some(
                    StreamToolUse {
                        id: unwrap_or_empty(raw.id),
                        name: unwrap_or_empty(raw.name),
                        input: match raw.input {
                            Some(m) => m,
                            None => HashMap::new(),
                        },
                    },
                );
            },
            RawKind::ToolUseStart => {
                ev.tool_use_start = Some(
                    StreamToolUseStart { id: unwrap_or_empty(raw.id), name: unwrap_or_empty(raw.name) },
                );
            },
            RawKind::ToolUseInputDelta => {
                ev.tool_use_input_delta = Some(
                    StreamToolUseInputDelta {
                        id: unwrap_or_empty(raw.id),
                        partial_json: unwrap_or_empty(raw.partial_json),
                    },
                );
            },
            RawKind::ToolUseComplete => {
                ev.tool_use_complete = Some(
                    StreamToolUseComplete {
                        id: unwrap_or_empty(raw.id),
                        name: unwrap_or_empty(raw.name),
                        input: match raw.input {
                            Some(m) => m,
                            None => HashMap::new(),
                        },
                    },
                );
            },
            RawKind::Usage => {
                ev.usage = Some(
                    ChatUsage {
                        input_tokens: match raw.input_tokens {
                            Some(v) => v,
                            None => 0,
                        },
                        output_tokens: match raw.output_tokens {
                            Some(v) => v,
                            None => 0,
                        },
                        cost_ticks: match raw.cost_ticks {
                            Some(v) => v,
                            None => 0,
                        },
                        cached_tokens: raw.cached_tokens,
                        cache_write_tokens: raw.cache_write_tokens,
                        audio_tokens: raw.audio_tokens,
                        cached_audio_tokens: raw.cached_audio_tokens,
                        reasoning_tokens: raw.reasoning_tokens,
                    },
                );
            },
            RawKind::Failure => {
                // The gateway classifies a failed stream as one of three types;
                // the message rides the same field on all of them.
                ev.error = Some(unwrap_or_empty(raw.message));
            },
            RawKind::Citations => {
                ev.citations = match raw.citations {
                    Some(c) => c,
                    None => Vec::new(),
                };
            },
            RawKind::Session => {
                ev.session = Some(
                    StreamSession {
                        session_id: unwrap_or_empty(raw.session_id),
                        compacted: match raw.compacted {
                            Some(b) => b,
                            None => false,
                        },
                    },
                );
            },
            RawKind::ThoughtSignature => {
                ev.thought_signature = raw.thought_signature;
            },
            RawKind::Other => {},
        }
        ev
    }
}

/// Which reading a payload's `type` selects.
#[derive(Debug, Clone, Copy, PartialEq, Eq, Structural)]
pub enum RawKind {
    /// `content_delta` or `thinking_delta`: text rides `delta`.
    Delta,
    ToolUse,
    ToolUseStart,
    ToolUseInputDelta,
    ToolUseComplete,
    Usage,
    /// `error`, `invalid_request` or `rate_limit`.
    Failure,
    Citations,
    Session,
    ThoughtSignature,
    /// Any other type (`heartbeat`, `done`, ...): no field is read.
    Other,
}

/// The reading selected by the wire `type` `t`.
pub open spec fn raw_kind(t: Seq<char>) -> RawKind {
    if t == "content_delta"@ || t == "thinking_delta"@ {
        RawKind::Delta
    } else if t == "tool_use"@ {
        RawKind::ToolUse
    } else if t == "tool_use_start"@ {
        RawKind::ToolUseStart
    } else if t == "tool_use_input_delta"@ {
        RawKind::ToolUseInputDelta
    } else if t == "tool_use_complete"@ {
        RawKind::ToolUseComplete
    } else if t == "usage"@ {
        RawKind::Usage
    } else if t == "error"@ || t == "invalid_request"@ || t == "rate_limit"@ {
        RawKind::Failure
    } else if t == "citations"@ {
        RawKind::Citations
    } else if t == "session"@ {
        RawKind::Session
    } else if t == "thought_signature"@ {
        RawKind::ThoughtSignature
    } else {
        RawKind::Other
    }
}

/// Classifies a wire `type`.
pub fn raw_kind_of(t: &str) -> (k: RawKind)
    ensures
        k == raw_kind(t@),
{
    if str_eq(t, "content_delta") || str_eq(t, "thinking_delta") {
        RawKind::Delta
    } else if str_eq(t, "tool_use") {
        RawKind::ToolUse
    } else if str_eq(t, "tool_use_start") {
        RawKind::ToolUseStart
    } else if str_eq(t, "tool_use_input_delta") {
        RawKind::ToolUseInputDelta
    } else if str_eq(t, "tool_use_complete") {
        RawKind::ToolUseComplete
    } else if str_eq(t, "usage") {
        RawKind::Usage
    } else if str_eq(t, "error") || str_eq(t, "invalid_request") || str_eq(t, "rate_limit") {
        RawKind::Failure
    } else if str_eq(t, "citations") {
        RawKind::Citations
    } else if str_eq(t, "session") {
        RawKind::Session
    } else if str_eq(t, "thought_signature") {
        RawKind::ThoughtSignature
    } else {
        RawKind::Other
    }
}

/// The event a decoded payload becomes, field by field.
pub open spec fn raw_event_becomes(raw: RawStreamEvent, ev: StreamEvent) -> bool {
    let k = raw_kind(raw.event_type@);
    &&& ev.event_type@ == raw.event_type@
    &&& !ev.done
    &&& ev.delta == (if k == RawKind::Delta {
        raw.delta
    } else {
        None
    })
    &&& ev.thought_signature == (if k == RawKind::ToolUse || k == RawKind::ThoughtSignature {
        raw.thought_signature
    } else {
        None
    })
    &&& (k == RawKind::ToolUse <==> ev.tool_use is Some)
    &&& (ev.tool_use matches Some(u) ==> u.id@ == or_empty(raw.id) && u.name@ == or_empty(raw.name)
        && (raw.input matches Some(m) ==> u.input == m) && (raw.input is None ==> u.input@.len()
        == 0))
    &&& (k == RawKind::ToolUseStart <==> ev.tool_use_start is Some)
    &&& (ev.tool_use_start matches Some(u) ==> u.id@ == or_empty(raw.id) && u.name@ == or_empty(
        raw.name,
    ))
    &&& (k == RawKind::ToolUseInputDelta <==> ev.tool_use_input_delta is Some)
    &&& (ev.tool_use_input_delta matches Some(u) ==> u.id@ == or_empty(raw.id) && u.partial_json@
        == or_empty(raw.partial_json))
    &&& (k == RawKind::ToolUseComplete <==> ev.tool_use_complete is Some)
    &&& (ev.tool_use_complete matches Some(u) ==> u.id@ == or_empty(raw.id) && u.name@ == or_empty(
        raw.name,
    ) && (raw.input matches Some(m) ==> u.input == m) && (raw.input is None ==> u.input@.len()
        == 0))
    &&& (k == RawKind::Usage <==> ev.usage is Some)
    &&& (ev.usage matches Some(u) ==> u.input_tokens == (match raw.input_tokens {
        Some(v) => v,
        None => 0,
    }) && u.output_tokens == (match raw.output_tokens {
        Some(v) => v,
        None => 0,
    }) && u.cost_ticks == (match raw.cost_ticks {
        Some(v) => v,
        None => 0,
    }) && u.cached_tokens == raw.cached_tokens && u.cache_write_tokens == raw.cache_write_tokens
        && u.audio_tokens == raw.audio_tokens && u.cached_audio_tokens == raw.cached_audio_tokens
        && u.reasoning_tokens == raw.reasoning_tokens)
    &&& (k == RawKind::Failure <==> ev.error is Some)
    &&& (ev.error matches Some(m) ==> m@ == or_empty(raw.message))
    &&& (if k == RawKind::Citations && raw.citations is Some {
        ev.citations@ == raw.citations->0@
    } else {
        ev.citations@.len() == 0
    })
    &&& (k == RawKind::Session <==> ev.session is Some)
    &&& (ev.session matches Some(s) ==> s.session_id@ == or_empty(raw.session_id) && s.compacted
        == (raw.compacted == Some(true)))
}

/// What each payload type carries into the event: a `tool_use_complete`
/// payload yields the finished tool call with the payload's id, name and
/// input; `tool_use_start` and `tool_use_input_delta` yield their own
/// records, `tool_use` the whole call; `content_delta` and `thinking_delta`
/// carry the payload's delta; `usage` yields the usage record; `error`,
/// `invalid_request` and `rate_limit` yield the payload's message as the
/// error; `session` yields the session record; `thought_signature` carries
/// the payload's signature.
pub proof fn lemma_payload_types(raw: RawStreamEvent, ev: StreamEvent)
    requires
        raw_event_becomes(raw, ev),
    ensures
        raw.event_type@ == "tool_use_complete"@ ==> (ev.tool_use_complete matches Some(u) && u.id@
            == or_empty(raw.id) && u.name@ == or_empty(raw.name) && (raw.input matches Some(m)
            ==> u.input == m)),
        raw.event_type@ == "tool_use_start"@ ==> (ev.tool_use_start matches Some(u) && u.id@
            == or_empty(raw.id) && u.name@ == or_empty(raw.name)),
        raw.event_type@ == "tool_use_input_delta"@ ==> (ev.tool_use_input_delta matches Some(u)
            && u.id@ == or_empty(raw.id) && u.partial_json@ == or_empty(raw.partial_json)),
        raw.event_type@ == "tool_use"@ ==> (ev.tool_use matches Some(u) && u.id@ == or_empty(
            raw.id,
        ) && u.name@ == or_empty(raw.name) && ev.thought_signature == raw.thought_signature),
        raw.event_type@ == "content_delta"@ || raw.event_type@ == "thinking_delta"@ ==> ev.delta
            == raw.delta,
        raw.event_type@ == "usage"@ ==> ev.usage is Some,
        raw.event_type@ == "error"@ || raw.event_type@ == "invalid_request"@ || raw.event_type@
            == "rate_limit"@ ==> (ev.error matches Some(m) && m@ == or_empty(raw.message)),
        raw.event_type@ == "session"@ ==> (ev.session matches Some(s) && s.session_id@ == or_empty(
            raw.session_id,
        )),
        raw.event_type@ == "citations"@ && raw.citations is Some ==> ev.citations@
            == raw.citations->0@,
        raw.event_type@ == "thought_signature"@ ==> ev.thought_signature == raw.thought_signature,
{
    lemma_raw_kinds();
}

/// The reading each known wire `type` selects.
proof fn lemma_raw_kinds()
    ensures
        raw_kind("content_delta"@) == RawKind::Delta,
        raw_kind("thinking_delta"@) == RawKind::Delta,
        raw_kind("tool_use"@) == RawKind::ToolUse,
        raw_kind("tool_use_start"@) == RawKind::ToolUseStart,
        raw_kind("tool_use_input_delta"@) == RawKind::ToolUseInputDelta,
        raw_kind("tool_use_complete"@) == RawKind::ToolUseComplete,
        raw_kind("usage"@) == RawKind::Usage,
        raw_kind("error"@) == RawKind::Failure,
        raw_kind("invalid_request"@) == RawKind::Failure,
        raw_kind("rate_limit"@) == RawKind::Failure,
        raw_kind("citations"@) == RawKind::Citations,
        raw_kind("session"@) == RawKind::Session,
        raw_kind("thought_signature"@) == RawKind::ThoughtSignature,
{
    reveal_strlit("content_delta");
    reveal_strlit("thinking_delta");
    reveal_strlit("tool_use");
    reveal_strlit("tool_use_start");
    reveal_strlit("tool_use_input_delta");
    reveal_strlit("tool_use_complete");
    reveal_strlit("usage");
    reveal_strlit("error");
    reveal_strlit("invalid_request");
    reveal_strlit("rate_limit");
    reveal_strlit("citations");
    reveal_strlit("session");
    reveal_strlit("thought_signature");
    assert("content_delta"@.len() == 13);
    assert("thinking_delta"@.len() == 14);
    assert("tool_use"@.len() == 8);
    assert("tool_use_start"@.len() == 14);
    assert("tool_use_input_delta"@.len() == 20);
    assert("tool_use_complete"@.len() == 17);
    assert("usage"@.len() == 5);
    assert("error"@.len() == 5);
    assert("invalid_request"@.len() == 15);
    assert("rate_limit"@.len() == 10);
    assert("citations"@.len() == 9);
    assert("session"@.len() == 7);
    assert("thought_signature"@.len() == 17);
    assert("thinking_delta"@[1] != "tool_use_start"@[1]);
    assert("usage"@[0] != "error"@[0]);
    assert("tool_use_complete"@[1] != "thought_signature"@[1]);
}

/// A `data:` payload of a chat stream, decoded: the `type` and every field
/// any event type reads.
#[derive(Debug, Clone, Default)]
pub struct RawStreamEvent {
    /// Wire name: `type`.
    pub event_type: String,
    pub delta: Option<StreamDelta>,
    pub id: Option<String>,
    pub name: Option<String>,
    pub input: Option<HashMap<String, serde_json::Value>>,
    /// Carried by `tool_use_input_delta` events: a raw JSON fragment.
    pub partial_json: Option<String>,
    pub input_tokens: Option<i64>,
    pub output_tokens: Option<i64>,
    /// Portion of `output_tokens` spent on reasoning; carried by `usage`
    /// events, absent on non-reasoning models.
    pub reasoning_tokens: Option<i64>,
    pub cost_ticks: Option<i64>,
    /// Input tokens served from the provider's prompt cache.
    pub cached_tokens: Option<i64>,
    /// Input tokens that triggered a cache write.
    pub cache_write_tokens: Option<i64>,
    /// The audio share of the input, and of the cached input.
    pub audio_tokens: Option<i64>,
    pub cached_audio_tokens: Option<i64>,
    pub message: Option<String>,
    /// Carried by the `citations` event.
    pub citations: Option<Vec<Citation>>,
    /// Carried by the `thought_signature` event (and, for back-compat, by
    /// `tool_use` events): base64 Gemini 3 signature.
    pub thought_signature: Option<String>,
    /// Carried by the `session` event that opens a session stream.
    pub session_id: Option<String>,
    pub compacted: Option<bool>,
}

impl ChatResponse {
    /// Fills the cost, the request id and the model from the response
    /// headers where the body left them empty; a value the body carried is
    /// kept.
    pub fn backfill(&mut self, meta: &ResponseMeta)
        ensures
            final(self).cost_ticks == (if old(self).cost_ticks == 0 {
                meta.cost_ticks
            } else {
                old(self).cost_ticks
            }),
            final(self).request_id@ == (if old(self).request_id@.len() == 0 {
                meta.request_id@
            } else {
                old(self).request_id@
            }),
            final(self).model@ == (if old(self).model@.len() == 0 {
                meta.model@
            } else {
                old(self).model@
            }),
            *final(self) == (ChatResponse {
                cost_ticks: final(self).cost_ticks,
                request_id: final(self).request_id,
                model: final(self).model,
                ..*old(self)
            }),
    {
        self.cost_ticks = backfill_ticks(self.cost_ticks, meta.cost_ticks);
        let mut id = String::new();
        std::mem::swap(&mut id, &mut self.request_id);
        self.request_id = backfill_text(id, meta.request_id.as_str());
        let mut model = String::new();
        std::mem::swap(&mut model, &mut self.model);
        self.model = backfill_text(model, meta.model.as_str());
    }
}

} // verus!

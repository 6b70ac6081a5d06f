//! Canonical `stop_reason` values emitted by the gateway.
//!
//! Every provider's native finish reason is normalized into this
//! Anthropic-flavored space before it reaches you, so matching these
//! constants works regardless of which model served the request. The
//! gateway may still pass through a provider-specific reason it cannot map
//! (lowercased); treat any value outside this set as terminal.

use vstd::prelude::*;

verus! {

/// Natural completion.
pub const END_TURN: &'static str = "end_turn";

/// Model is requesting tool execution (tool_use blocks present).
pub const TOOL_USE: &'static str = "tool_use";

/// Output token cap reached: the response is truncated.
pub const MAX_TOKENS: &'static str = "max_tokens";

/// A requested stop sequence matched.
pub const STOP_SEQUENCE: &'static str = "stop_sequence";

/// Provider-side safety/policy stop.
pub const CONTENT_FILTER: &'static str = "content_filter";

/// A safety classifier declined the request; discard any partial output.
pub const REFUSAL: &'static str = "refusal";

/// Provider reported a terminal failure.
pub const ERROR: &'static str = "error";

} // verus!

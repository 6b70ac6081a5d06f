//! Client configuration and the transport policy: which headers every
//! request carries, how response headers are read, and when a failed
//! request is replayed.

use std::time::Duration;

use vstd::prelude::*;

use crate::error::{local_error, Error, Result};
use crate::region::Region;
use crate::text::{
    ascii_lower_seq, ascii_lowercase, chars_eq_str, chars_of, contains, contains_chars,
    contains_str, parse_i64, parse_i64_spec, parse_u64, parse_u64_spec, push_str,
    string_from_chars, trim, trim_chars,
};

verus! {

/// How many times one request may be replayed after its first attempt.
pub const MAX_RETRIES: u32 = 3;

/// Backoff before the first replay, in milliseconds; doubles on each
/// further replay.
pub const INITIAL_BACKOFF_MS: u64 = 500;

/// Longest `Retry-After` the SDK honours, in seconds. A larger value is
/// clamped so a misbehaving server cannot park a caller indefinitely.
pub const MAX_RETRY_AFTER_SECS: u64 = 30;

/// The default Quantum AI API base URL.
pub const DEFAULT_BASE_URL: &'static str = "https://api.quantumencoding.ai";

/// The number of ticks in one US dollar (10 billion).
pub const TICKS_PER_USD: i64 = 10_000_000_000;

// ---------------------------------------------------------------------------
// Replay policy
// ---------------------------------------------------------------------------

/// Which responses a request may be replayed on.
///
/// The gateway bills chat, session chat and every media route through a
/// reserve->settle rail that never reads `Idempotency-Key`, and key-minting
/// and Stripe checkout routes have no dedupe at all. Replaying such a POST
/// after a 502/503/504 that masked a completed operation runs it, and
/// charges for it, again. So a POST is replayed on 429 only, unless the
/// caller opted in with a key on a route that honours it.
#[derive(Debug, Clone, Copy, PartialEq, Eq, Structural)]
pub enum Replay {
    /// Replay on 429 only. A 429 is answered before any provider call or
    /// charge, so replaying it can never duplicate work.
    RateLimitOnly,
    /// Replay on 429, 502, 503 and 504.
    Transient,
}

pub open spec fn retryable(status: u16, replay: Replay) -> bool {
    match replay {
        Replay::RateLimitOnly => status == 429,
        Replay::Transient => status == 429 || status == 502 || status == 503 || status == 504,
    }
}

/// Whether a response with this status may be replayed under `replay`.
pub fn is_retryable(status: u16, replay: Replay) -> (r: bool)
    ensures
        r == retryable(status, replay),
{
    match replay {
        Replay::RateLimitOnly => status == 429,
        Replay::Transient => status == 429 || status == 502 || status == 503 || status == 504,
    }
}

/// The replay policy of a POST: an explicit idempotency key opts it into
/// replay on 5xx, no key keeps it at 429 only.
pub fn replay_for_post(idempotency_key: &Option<String>) -> (r: Replay)
    ensures
        r == (if idempotency_key is Some {
            Replay::Transient
        } else {
            Replay::RateLimitOnly
        }),
{
    if idempotency_key.is_some() {
        Replay::Transient
    } else {
        Replay::RateLimitOnly
    }
}

/// Unicode lower case of a string, as `str::to_lowercase` computes it.
pub uninterp spec fn unicode_lowercase(s: Seq<char>) -> Seq<char>;

/// `str::to_lowercase`: Unicode lower case; on ASCII text it folds `A`..`Z`
/// to `a`..`z` and leaves every other character alone.
#[verifier::external_body]
fn to_lowercase(s: &str) -> (r: String)
    ensures
        r@ == unicode_lowercase(s@),
        (forall|i: int| 0 <= i < s@.len() ==> (#[trigger] s@[i] as u32) < 128) ==> r@
            == ascii_lower_seq(s@),
{
    s.to_lowercase()
}

/// Whether an error body names a failure that no replay can cure, whatever
/// status wraps it.
pub open spec fn permanent_error(body: Seq<char>) -> bool {
    let lower = unicode_lowercase(body);
    contains(lower, "content moderation"@) || contains(lower, "content_policy"@) || contains(
        lower,
        "safety_block"@,
    ) || contains(lower, "invalid argument"@) || contains(lower, "invalid_request"@) || (
    contains(lower, "status 400"@) && contains(lower, "rejected"@))
}

/// Check if an error response body contains a permanent (non-retryable)
/// error even when wrapped in a retryable status code (e.g. 502 wrapping
/// a provider 400).
pub fn is_permanent_error(body: &str) -> (r: bool)
    ensures
        r == permanent_error(body@),
        (forall|i: int| 0 <= i < body@.len() ==> (#[trigger] body@[i] as u32) < 128)
            ==> unicode_lowercase(body@) == ascii_lower_seq(body@),
        contains(unicode_lowercase(body@), "content moderation"@) ==> r,
        contains(unicode_lowercase(body@), "content_policy"@) ==> r,
        contains(unicode_lowercase(body@), "safety_block"@) ==> r,
        contains(unicode_lowercase(body@), "invalid argument"@) ==> r,
        contains(unicode_lowercase(body@), "invalid_request"@) ==> r,
        contains(unicode_lowercase(body@), "status 400"@) && contains(
            unicode_lowercase(body@),
            "rejected"@,
        ) ==> r,
{
    proof {
        lemma_permanent_markers(body@, None, 0);
    }
    let lower_s = to_lowercase(body);
    let lower = chars_of(lower_s.as_str());
    contains_str(&lower, "content moderation") || contains_str(&lower, "content_policy")
        || contains_str(&lower, "safety_block") || contains_str(&lower, "invalid argument")
        || contains_str(&lower, "invalid_request") || (contains_str(&lower, "status 400")
        && contains_str(&lower, "rejected"))
}

// ---------------------------------------------------------------------------
// Response headers
// ---------------------------------------------------------------------------

/// A header byte `HeaderValue::to_str` accepts: visible ASCII or tab.
pub open spec fn visible_ascii(b: u8) -> bool {
    (32 <= b && b < 127) || b == 9
}

/// A header value as text: `Some` exactly when every byte is visible
/// ASCII (what `HeaderValue::to_str` requires), each byte then one
/// character.
pub open spec fn header_text(bytes: Seq<u8>) -> Option<Seq<char>> {
    if forall|i: int| 0 <= i < bytes.len() ==> visible_ascii(#[trigger] bytes[i]) {
        Some(Seq::new(bytes.len(), |i: int| (bytes[i] as u32) as char))
    } else {
        None
    }
}

/// `HeaderValue::to_str` over the value's bytes.
pub fn header_value_text(bytes: &[u8]) -> (r: Option<Vec<char>>)
    ensures
        match r {
            Some(v) => header_text(bytes@) == Some(v@),
            None => header_text(bytes@) is None,
        },
{
    let mut v: Vec<char> = Vec::new();
    let mut i: usize = 0;
    while i < bytes.len()
        invariant
            i <= bytes.len(),
            v@.len() == i,
            forall|j: int| 0 <= j < i ==> visible_ascii(#[trigger] bytes@[j]),
            forall|j: int| 0 <= j < i ==> v@[j] == (bytes@[j] as u32) as char,
        decreases bytes.len() - i,
    {
        let b = bytes[i];
        if !((32 <= b && b < 127) || b == 9) {
            assert(!visible_ascii(bytes@[i as int]));
            return None;
        }
        v.push(b as char);
        i = i + 1;
    }
    assert(v@ =~= Seq::new(bytes@.len(), |i: int| (bytes@[i] as u32) as char));
    Some(v)
}

/// The delay a `Retry-After` value asks for, in seconds: the
/// delay-seconds form the gateway uses (it sends `5` per credential and
/// `10` per IP), trimmed, clamped to [`MAX_RETRY_AFTER_SECS`]. The
/// HTTP-date form, an absent header and an unreadable one give `None`.
pub open spec fn retry_after_spec(value: Option<Seq<u8>>) -> Option<u64> {
    match value {
        None => None,
        Some(bytes) => match header_text(bytes) {
            None => None,
            Some(t) => match parse_u64_spec(trim(t)) {
                None => None,
                Some(secs) => Some(
                    if secs < MAX_RETRY_AFTER_SECS {
                        secs
                    } else {
                        MAX_RETRY_AFTER_SECS
                    },
                ),
            },
        },
    }
}

pub open spec fn opt_bytes_view(value: Option<&[u8]>) -> Option<Seq<u8>> {
    match value {
        Some(b) => Some(b@),
        None => None,
    }
}

/// Reads a `Retry-After` header value (see [`retry_after_spec`]).
pub fn retry_after(value: Option<&[u8]>) -> (r: Option<u64>)
    ensures
        r == retry_after_spec(opt_bytes_view(value)),
{
    let bytes = match value {
        Some(b) => b,
        None => return None,
    };
    let text = match header_value_text(bytes) {
        Some(t) => t,
        None => return None,
    };
    let trimmed = trim_chars(&text);
    match parse_u64(&trimmed) {
        Some(secs) => Some(
            if secs < MAX_RETRY_AFTER_SECS {
                secs
            } else {
                MAX_RETRY_AFTER_SECS
            },
        ),
        None => None,
    }
}

/// Milliseconds to wait before replay number `attempt` (1-based) when
/// the response carried no usable `Retry-After`.
pub open spec fn backoff_ms(attempt: u32) -> int {
    INITIAL_BACKOFF_MS * vstd::arithmetic::power2::pow2(
        (if attempt == 0 {
            0
        } else {
            attempt - 1
        }) as nat,
    )
}

/// Delay before replay number `attempt` (1-based), in milliseconds:
/// 500, 1000, 2000, ... doubling per replay.
pub fn backoff(attempt: u32) -> (ms: u64)
    requires
        attempt <= 56,
    ensures
        ms == backoff_ms(attempt),
{
    let k: u32 = if attempt == 0 {
        0
    } else {
        attempt - 1
    };
    let mut ms: u64 = INITIAL_BACKOFF_MS;
    let mut i: u32 = 0;
    proof {
        vstd::arithmetic::power2::lemma2_to64();
    }
    while i < k
        invariant
            i <= k <= 55,
            ms == INITIAL_BACKOFF_MS * vstd::arithmetic::power2::pow2(i as nat),
        decreases k - i,
    {
        proof {
            vstd::arithmetic::power2::lemma_pow2_unfold((i + 1) as nat);
            if i + 1 < 55 {
                vstd::arithmetic::power2::lemma_pow2_strictly_increases((i + 1) as nat, 55);
            }
            vstd::arithmetic::power2::lemma2_to64_rest();
        }
        ms = ms * 2;
        i = i + 1;
    }
    ms
}

// ---------------------------------------------------------------------------
// Replay state machine
// ---------------------------------------------------------------------------

/// What to do with a response that just arrived.
#[derive(Debug, Clone, Copy, PartialEq, Eq, Structural)]
pub enum AfterStatus {
    /// A 2xx: hand the response to the caller.
    Deliver,
    /// Not replayable, or out of replays: turn the response into an error.
    Fail,
    /// Replayable: read the body and decide with [`after_body`].
    ReadBody,
}

pub open spec fn is_success(status: u16) -> bool {
    200 <= status && status <= 299
}

pub open spec fn after_status_spec(status: u16, replay: Replay, attempt: u32) -> AfterStatus {
    if is_success(status) {
        AfterStatus::Deliver
    } else if !retryable(status, replay) || attempt >= MAX_RETRIES {
        AfterStatus::Fail
    } else {
        AfterStatus::ReadBody
    }
}

/// The first decision on a response: deliver a 2xx; fail on a status the
/// policy does not replay or once `attempt` replays have been spent;
/// otherwise read the body.
pub fn after_status(status: u16, replay: Replay, attempt: u32) -> (r: AfterStatus)
    ensures
        r == after_status_spec(status, replay, attempt),
{
    if 200 <= status && status <= 299 {
        AfterStatus::Deliver
    } else if !is_retryable(status, replay) || attempt >= MAX_RETRIES {
        AfterStatus::Fail
    } else {
        AfterStatus::ReadBody
    }
}

/// What to do after reading the body of a replayable failure.
#[derive(Debug, Clone, Copy, PartialEq, Eq, Structural)]
pub enum AfterBody {
    /// The body names a permanent failure: return it as an error.
    Fail,
    /// Wait `delay_ms`, then send replay number `next_attempt`.
    Replay { delay_ms: u64, next_attempt: u32 },
}

pub open spec fn after_body_spec(body: Seq<char>, retry_after_secs: Option<u64>, attempt: u32) -> AfterBody {
    if permanent_error(body) {
        AfterBody::Fail
    } else {
        AfterBody::Replay {
            delay_ms: match retry_after_secs {
                Some(s) => (s * 1000) as u64,
                None => backoff_ms((attempt + 1) as u32) as u64,
            },
            next_attempt: (attempt + 1) as u32,
        }
    }
}

/// The second decision on a replayable failure: a permanent error in the
/// body ends the request; otherwise wait what `Retry-After` asked (in
/// seconds, already clamped) or the backoff for the next attempt, then
/// replay.
pub fn after_body(body: &str, retry_after_secs: Option<u64>, attempt: u32) -> (r: AfterBody)
    requires
        attempt < MAX_RETRIES,
        retry_after_secs matches Some(s) ==> s <= MAX_RETRY_AFTER_SECS,
    ensures
        r == after_body_spec(body@, retry_after_secs, attempt),
{
    if is_permanent_error(body) {
        AfterBody::Fail
    } else {
        let next = attempt + 1;
        let delay_ms = match retry_after_secs {
            Some(s) => s * 1000,
            None => backoff(next),
        };
        AfterBody::Replay { delay_ms, next_attempt: next }
    }
}

/// The number of requests a call sends when the server answers with
/// `statuses` in turn and the bodies of replayable failures name a
/// permanent failure as `permanent` says, starting from replay `attempt`.
pub open spec fn requests_sent(
    replay: Replay,
    attempt: u32,
    statuses: Seq<u16>,
    permanent: Seq<bool>,
) -> nat
    decreases statuses.len(),
{
    if statuses.len() == 0 {
        0
    } else {
        match after_status_spec(statuses[0], replay, attempt) {
            AfterStatus::ReadBody => if permanent.len() > 0 && permanent[0] {
                1
            } else {
                1 + requests_sent(
                    replay,
                    (attempt + 1) as u32,
                    statuses.drop_first(),
                    permanent.drop_first(),
                )
            },
            _ => 1,
        }
    }
}

/// A call sends at most `MAX_RETRIES + 1` requests, whatever the server
/// answers: the first attempt and at most three replays.
pub proof fn lemma_replays_are_bounded(
    replay: Replay,
    attempt: u32,
    statuses: Seq<u16>,
    permanent: Seq<bool>,
)
    requires
        attempt <= MAX_RETRIES,
    ensures
        requests_sent(replay, attempt, statuses, permanent) <= MAX_RETRIES + 1 - attempt,
    decreases statuses.len(),
{
    if statuses.len() > 0 {
        if after_status_spec(statuses[0], replay, attempt) == AfterStatus::ReadBody {
            if !(permanent.len() > 0 && permanent[0]) {
                lemma_replays_are_bounded(
                    replay,
                    (attempt + 1) as u32,
                    statuses.drop_first(),
                    permanent.drop_first(),
                );
            }
        }
    }
}

/// One answer of the server to one request: its status, its body, and
/// the `Retry-After` it carried (in seconds, already clamped).
pub type Answer = (u16, Seq<char>, Option<u64>);

/// How a call ends when the server gives `answers` in turn, starting from
/// replay `attempt`: how many answers it reads, whether it hands the last
/// one to the caller (else it turns it into an error), and the waits, in
/// milliseconds, before each replay. Each step is the decision of
/// [`after_status`] and then, for a replayable failure, [`after_body`].
pub open spec fn replay_run(replay: Replay, attempt: u32, answers: Seq<Answer>) -> (nat, bool, Seq<u64>)
    decreases answers.len(),
{
    if answers.len() == 0 {
        (0, false, Seq::empty())
    } else {
        let a = answers[0];
        match after_status_spec(a.0, replay, attempt) {
            AfterStatus::Deliver => (1, true, Seq::empty()),
            AfterStatus::Fail => (1, false, Seq::empty()),
            AfterStatus::ReadBody => match after_body_spec(a.1, a.2, attempt) {
                AfterBody::Fail => (1, false, Seq::empty()),
                AfterBody::Replay { delay_ms, next_attempt } => {
                    let rest = replay_run(replay, next_attempt, answers.drop_first());
                    (1 + rest.0, rest.1, seq![delay_ms] + rest.2)
                },
            },
        }
    }
}

/// The wait before the replay that follows answer `a`, read as the
/// `attempt`-th: what `Retry-After` asked, else the backoff.
pub open spec fn wait_after(a: Answer, attempt: u32) -> u64 {
    match a.2 {
        Some(s) => (s * 1000) as u64,
        None => backoff_ms((attempt + 1) as u32) as u64,
    }
}

/// The replay law. Whatever the server answers, a call that starts at
/// replay `attempt` reads between 1 and `MAX_RETRIES + 1 - attempt`
/// answers; it hands the last one to the caller exactly when that one is a
/// 2xx; every earlier one was a failure that the policy replays and whose
/// body named no permanent error; and before each replay it waits what
/// that answer's `Retry-After` asked, else the backoff for that replay.
pub proof fn lemma_replay_run(replay: Replay, attempt: u32, answers: Seq<Answer>)
    requires
        attempt <= MAX_RETRIES,
        answers.len() >= MAX_RETRIES + 1 - attempt,
    ensures
        ({
            let (k, delivered, waits) = replay_run(replay, attempt, answers);
            &&& 1 <= k <= MAX_RETRIES + 1 - attempt
            &&& delivered <==> is_success(answers[k - 1].0)
            &&& forall|j: int|
                0 <= j < k - 1 ==> !is_success((#[trigger] answers[j]).0) && retryable(
                    answers[j].0,
                    replay,
                ) && !permanent_error(answers[j].1)
            &&& waits.len() == k - 1
            &&& forall|j: int| 0 <= j < k - 1 ==> #[trigger] waits[j] == wait_after(answers[j], (attempt + j) as u32)
        }),
    decreases answers.len(),
{
    let a = answers[0];
    if after_status_spec(a.0, replay, attempt) == AfterStatus::ReadBody && !permanent_error(a.1) {
        let rest = answers.drop_first();
        let next: u32 = (attempt + 1) as u32;
        lemma_replay_run(replay, next, rest);
        let r = replay_run(replay, next, rest);
        let whole = replay_run(replay, attempt, answers);
        assert(whole.0 == 1 + r.0);
        assert(whole.2 == seq![wait_after(a, attempt)] + r.2);
        assert forall|j: int| 0 <= j < whole.0 - 1 implies !is_success((#[trigger] answers[j]).0)
            && retryable(answers[j].0, replay) && !permanent_error(answers[j].1) by {
            if j > 0 {
                assert(answers[j] == rest[j - 1]);
            }
        }
        assert forall|j: int| 0 <= j < whole.0 - 1 implies #[trigger] whole.2[j] == wait_after(
            answers[j],
            (attempt + j) as u32,
        ) by {
            if j > 0 {
                assert(answers[j] == rest[j - 1]);
                assert(whole.2[j] == r.2[j - 1]);
                assert((next + (j - 1)) as u32 == (attempt + j) as u32);
            }
        }
        assert(answers[whole.0 - 1] == rest[r.0 - 1]);
    }
}

/// A request without an idempotency key is replayed on 429 only: a 5xx
/// that may have masked a completed, billed operation is never replayed.
pub proof fn lemma_post_without_key_replays_only_rate_limits(status: u16, attempt: u32)
    ensures
        after_status_spec(status, Replay::RateLimitOnly, attempt) == AfterStatus::ReadBody
            ==> status == 429,
{
}

/// While replays remain, a rate limit (429) is replayed under either
/// policy, and a 502, 503 or 504 under the transient policy; any other
/// failure, a 500 or a 4xx among them, is returned as an error at once.
pub proof fn lemma_replayed_statuses(status: u16, attempt: u32)
    requires
        attempt < MAX_RETRIES,
    ensures
        after_status_spec(429, Replay::RateLimitOnly, attempt) == AfterStatus::ReadBody,
        after_status_spec(429, Replay::Transient, attempt) == AfterStatus::ReadBody,
        after_status_spec(502, Replay::Transient, attempt) == AfterStatus::ReadBody,
        after_status_spec(503, Replay::Transient, attempt) == AfterStatus::ReadBody,
        after_status_spec(504, Replay::Transient, attempt) == AfterStatus::ReadBody,
        !(200 <= status <= 299) && status != 429 && status != 502 && status != 503 && status
            != 504 ==> after_status_spec(status, Replay::Transient, attempt) == AfterStatus::Fail,
{
}

/// A 2xx is handed to the caller at once, on any attempt and under any
/// policy.
pub proof fn lemma_success_is_delivered(status: u16, replay: Replay, attempt: u32)
    requires
        200 <= status <= 299,
    ensures
        after_status_spec(status, replay, attempt) == AfterStatus::Deliver,
{
}

/// A body naming a permanent failure ends the request even under a
/// policy that replays its status.
pub proof fn lemma_permanent_errors_are_not_replayed(
    body: Seq<char>,
    retry_after_secs: Option<u64>,
    attempt: u32,
)
    requires
        permanent_error(body),
    ensures
        after_body_spec(body, retry_after_secs, attempt) == AfterBody::Fail,
{
}

/// Each marker of a permanent failure, found anywhere in the lower-cased
/// body, makes the body a permanent error on its own, and such a body is
/// never replayed: `content moderation`, `content_policy`, `safety_block`,
/// `invalid argument`, `invalid_request`, and `status 400` together with
/// `rejected`.
pub proof fn lemma_permanent_markers(body: Seq<char>, retry_after_secs: Option<u64>, attempt: u32)
    ensures
        contains(unicode_lowercase(body), "content moderation"@) ==> permanent_error(body)
            && after_body_spec(body, retry_after_secs, attempt) == AfterBody::Fail,
        contains(unicode_lowercase(body), "content_policy"@) ==> permanent_error(body)
            && after_body_spec(body, retry_after_secs, attempt) == AfterBody::Fail,
        contains(unicode_lowercase(body), "safety_block"@) ==> permanent_error(body)
            && after_body_spec(body, retry_after_secs, attempt) == AfterBody::Fail,
        contains(unicode_lowercase(body), "invalid argument"@) ==> permanent_error(body)
            && after_body_spec(body, retry_after_secs, attempt) == AfterBody::Fail,
        contains(unicode_lowercase(body), "invalid_request"@) ==> permanent_error(body)
            && after_body_spec(body, retry_after_secs, attempt) == AfterBody::Fail,
        contains(unicode_lowercase(body), "status 400"@) && contains(
            unicode_lowercase(body),
            "rejected"@,
        ) ==> permanent_error(body) && after_body_spec(body, retry_after_secs, attempt)
            == AfterBody::Fail,
{
}

/// Without `Retry-After`, the wait doubles from one replay to the next,
/// starting at half a second.
pub proof fn lemma_backoff_doubles(attempt: u32)
    requires
        1 <= attempt < u32::MAX,
    ensures
        backoff_ms(1) == 500,
        backoff_ms((attempt + 1) as u32) == 2 * backoff_ms(attempt),
{
    vstd::arithmetic::power2::lemma_pow2_unfold((attempt) as nat);
    vstd::arithmetic::power2::lemma2_to64();
}

/// A `Retry-After` never makes a request wait more than
/// [`MAX_RETRY_AFTER_SECS`].
pub proof fn lemma_retry_after_is_capped(value: Option<Seq<u8>>)
    ensures
        retry_after_spec(value) matches Some(s) ==> s <= MAX_RETRY_AFTER_SECS,
{
}

// ---------------------------------------------------------------------------
// Response metadata
// ---------------------------------------------------------------------------

/// Common response metadata parsed from HTTP headers.
#[derive(Debug, Clone, Default)]
pub struct ResponseMeta {
    /// Cost in ticks from the `X-QAI-Cost-Ticks` header. Zero when the
    /// route sends no cost header: a semantic-cache hit on chat, or a
    /// route that does not bill.
    pub cost_ticks: i64,
    /// Post-deduction credit balance in ticks from the
    /// `X-QAI-Balance-After` header. Only the media routes (image, video,
    /// audio, avatar) send it; on chat, session chat, search, keys,
    /// credits and account calls this is always zero. Use
    /// `credit_balance` / `account_balance` for the balance after a chat.
    pub balance_after: i64,
    /// Request identifier from the `X-QAI-Request-Id` header, set on every
    /// response.
    pub request_id: String,
    /// Model identifier from the `X-QAI-Model` header (chat routes).
    pub model: String,
}

/// A text header: its text when present and readable, else empty.
pub open spec fn header_string(value: Option<Seq<u8>>) -> Seq<char> {
    match value {
        Some(b) => match header_text(b) {
            Some(t) => t,
            None => Seq::empty(),
        },
        None => Seq::empty(),
    }
}

/// A numeric header: its value when present, readable and a valid `i64`
/// (no surrounding space allowed), else zero.
pub open spec fn header_i64(value: Option<Seq<u8>>) -> i64 {
    match value {
        Some(b) => match header_text(b) {
            Some(t) => match parse_i64_spec(t) {
                Some(v) => v,
                None => 0,
            },
            None => 0,
        },
        None => 0,
    }
}

fn read_header_string(value: Option<&[u8]>) -> (r: String)
    ensures
        r@ == header_string(opt_bytes_view(value)),
{
    match value {
        Some(b) => match header_value_text(b) {
            Some(t) => string_from_chars(t),
            None => String::new(),
        },
        None => String::new(),
    }
}

fn read_header_i64(value: Option<&[u8]>) -> (r: i64)
    ensures
        r == header_i64(opt_bytes_view(value)),
{
    match value {
        Some(b) => match header_value_text(b) {
            Some(t) => match parse_i64(&t) {
                Some(v) => v,
                None => 0,
            },
            None => 0,
        },
        None => 0,
    }
}

/// Builds the metadata of a response from the raw values of its
/// `X-QAI-Request-Id`, `X-QAI-Model`, `X-QAI-Cost-Ticks` and
/// `X-QAI-Balance-After` headers.
pub fn parse_response_meta(
    request_id: Option<&[u8]>,
    model: Option<&[u8]>,
    cost_ticks: Option<&[u8]>,
    balance_after: Option<&[u8]>,
) -> (m: ResponseMeta)
    ensures
        m.request_id@ == header_string(opt_bytes_view(request_id)),
        m.model@ == header_string(opt_bytes_view(model)),
        m.cost_ticks == header_i64(opt_bytes_view(cost_ticks)),
        m.balance_after == header_i64(opt_bytes_view(balance_after)),
{
    ResponseMeta {
        cost_ticks: read_header_i64(cost_ticks),
        balance_after: read_header_i64(balance_after),
        request_id: read_header_string(request_id),
        model: read_header_string(model),
    }
}


// ---------------------------------------------------------------------------
// Client configuration
// ---------------------------------------------------------------------------

/// A header value `HeaderValue::from_str` accepts: every character is
/// tab, or at least a space and not DEL.
pub open spec fn header_value_valid(s: Seq<char>) -> bool {
    forall|i: int|
        0 <= i < s.len() ==> (#[trigger] s[i] == '\t' || (' ' <= s[i] && s[i] != '\x7f'))
}

/// A character a header name may hold (an HTTP token character): a
/// letter, a digit, or one of `!#$%&'*+-.^_`|~`.
pub open spec fn header_name_char(c: char) -> bool {
    ||| ('a' <= c && c <= 'z')
    ||| ('A' <= c && c <= 'Z')
    ||| ('0' <= c && c <= '9')
    ||| c == '!' || ('#' <= c && c <= '\'')
    ||| c == '*' || c == '+' || c == '-' || c == '.'
    ||| c == '^' || c == '_' || c == '`' || c == '|' || c == '~'
}

/// Whether `HeaderName::from_bytes` accepts this name: between 1 and
/// 65535 characters, every one a token character (so no space, no
/// separator, nothing outside ASCII).
pub open spec fn header_name_accepts(name: Seq<char>) -> bool {
    &&& 1 <= name.len() <= 65535
    &&& forall|i: int| 0 <= i < name.len() ==> header_name_char(#[trigger] name[i])
}

/// `HeaderValue::from_str`: `None` when the value is accepted, else the
/// error's text.
#[verifier::external_body]
fn check_header_value(value: &str) -> (r: Option<String>)
    ensures
        r is None <==> header_value_valid(value@),
        r matches Some(t) ==> t@ == "failed to parse header value"@,
{
    match reqwest::header::HeaderValue::from_str(value) {
        Ok(_) => None,
        Err(e) => Some(e.to_string()),
    }
}

/// `HeaderName::from_bytes`: `None` when the name is accepted, else the
/// error's text. The name's bytes are mapped through the crate's table of
/// token characters (upper case folded to lower); a byte the table maps
/// to nothing, an empty name or one longer than 65535 bytes is refused.
#[verifier::external_body]
fn check_header_name(name: &str) -> (r: Option<String>)
    ensures
        r is None <==> header_name_accepts(name@),
        r matches Some(t) ==> t@ == "invalid HTTP header name"@,
{
    match reqwest::header::HeaderName::from_bytes(name.as_bytes()) {
        Ok(_) => None,
        Err(e) => Some(e.to_string()),
    }
}

/// The duration of `secs` whole seconds.
pub uninterp spec fn duration_of_secs(secs: u64) -> Duration;

/// `Duration::from_secs`.
#[verifier::external_body]
fn duration_from_secs(secs: u64) -> (r: Duration)
    ensures
        r == duration_of_secs(secs),
{
    Duration::from_secs(secs)
}

/// Builder for constructing a client with custom configuration.
#[derive(Debug, Clone)]
pub struct ClientBuilder {
    api_key: String,
    base_url: String,
    timeout: Duration,
    app: Option<String>,
    region: Option<Region>,
    extra_headers: Vec<(String, String)>,
}

/// What a [`ClientBuilder`] holds.
pub ghost struct ClientBuilderView {
    pub api_key: Seq<char>,
    pub base_url: Seq<char>,
    pub timeout: Duration,
    pub app: Option<Seq<char>>,
    pub region: Option<Region>,
    pub extra_headers: Seq<(Seq<char>, Seq<char>)>,
}

impl View for ClientBuilder {
    type V = ClientBuilderView;

    closed spec fn view(&self) -> ClientBuilderView {
        ClientBuilderView {
            api_key: self.api_key@,
            base_url: self.base_url@,
            timeout: self.timeout,
            app: match self.app {
                Some(a) => Some(a@),
                None => None,
            },
            region: self.region,
            extra_headers: headers_seq(self.extra_headers@),
        }
    }
}

impl ClientBuilderView {
    /// The headers the caller asked for, in the order they are applied:
    /// the extra headers, then `X-Quantum-App` when an app is set, so the
    /// app's value wins over an extra header of the same name.
    pub open spec fn caller_headers(self) -> Seq<(Seq<char>, Seq<char>)> {
        match self.app {
            Some(a) => self.extra_headers.push(("X-Quantum-App"@, a)),
            None => self.extra_headers,
        }
    }
}

impl ClientBuilder {
    /// Creates a new builder with the given API key.
    pub fn new(api_key: &str) -> (b: ClientBuilder)
        ensures
            b@.api_key == api_key@,
            b@.base_url == DEFAULT_BASE_URL@,
            b@.timeout == duration_of_secs(600),
            b@.app is None,
            b@.region is None,
            b@.extra_headers.len() == 0,
    {
        ClientBuilder {
            api_key: api_key.to_owned(),
            base_url: DEFAULT_BASE_URL.to_owned(),
            // Buffered media generation (image/video) returns a single JSON
            // blob only when the provider finishes; 600s outlasts the
            // backend's 5-minute media deadline so the server errors first.
            // Streaming uses a separate no-timeout client.
            timeout: duration_from_secs(600),
            app: None,
            region: None,
            extra_headers: Vec::new(),
        }
    }

    /// Sets the API base URL (default: `https://api.quantumencoding.ai`).
    pub fn base_url(self, url: &str) -> (b: ClientBuilder)
        ensures
            b@ == (ClientBuilderView { base_url: url@, ..self@ }),
    {
        ClientBuilder { base_url: url.to_owned(), ..self }
    }

    /// Sets the request timeout for non-streaming requests (default: 600s).
    ///
    /// The default outlasts the backend's 5-minute media deadline, so
    /// buffered media generation (video, dubbing, 3D) fails server-side
    /// rather than here. Lower it for latency-sensitive callers, or use the
    /// async jobs API (`create_job` / `poll_job`) which doesn't block.
    pub fn timeout(self, timeout: Duration) -> (b: ClientBuilder)
        ensures
            b@ == (ClientBuilderView { timeout, ..self@ }),
    {
        ClientBuilder { timeout, ..self }
    }

    /// Tags every request with the calling app's identifier.
    ///
    /// Sent as `X-Quantum-App: <app>` on every HTTP request (including
    /// streaming). The server uses this to route requests through
    /// app-specific paywall, quota, or dispatch logic. If both `app(...)`
    /// and `extra_header("X-Quantum-App", ...)` are set, the value from
    /// `app(...)` wins.
    pub fn app(self, app: &str) -> (b: ClientBuilder)
        ensures
            b@ == (ClientBuilderView { app: Some(app@), ..self@ }),
    {
        ClientBuilder { app: Some(app.to_owned()), ..self }
    }

    /// Routes this client's chat calls through a region (region-scoped
    /// inference routing).
    ///
    /// The region rides `provider_options.region` on every chat request the
    /// client sends, streaming included, unless the request itself already
    /// sets one (the request's own region wins). Only `/qai/v1/chat` honors
    /// the override; the agent endpoint routes by the key's scope.
    pub fn region(self, region: Region) -> (b: ClientBuilder)
        ensures
            b@ == (ClientBuilderView { region: Some(region), ..self@ }),
    {
        ClientBuilder { region: Some(region), ..self }
    }

    /// Adds an extra HTTP header to every request from this client.
    ///
    /// Standard headers (`Authorization`, `X-API-Key`) are managed by the
    /// builder and cannot be overridden: passing either here makes
    /// [`settings`](Self::settings) return an `invalid_header` error.
    /// Header names and values are validated there, not here.
    pub fn extra_header(self, name: &str, value: &str) -> (b: ClientBuilder)
        ensures
            b@ == (ClientBuilderView {
                extra_headers: self@.extra_headers.push((name@, value@)),
                ..self@
            }),
    {
        let mut b = self;
        b.extra_headers.push((name.to_owned(), value.to_owned()));
        assert(headers_seq(b.extra_headers@) =~= self@.extra_headers.push((name@, value@)));
        b
    }

    /// Validates the configuration and resolves what every request of the
    /// client carries.
    ///
    /// Fails with an `invalid_api_key` error when the key cannot be sent as
    /// a header value, and with `invalid_header` when a caller-supplied
    /// header is reserved or malformed (the first such header, in the order
    /// they are applied).
    pub fn settings(&self) -> (r: Result<ClientSettings>)
        ensures
            !api_key_valid(self@.api_key) ==> (r matches Err(Error::Api(e)) && e.code@
                == "invalid_api_key"@ && e.status_code == 0 && e.request_id@.len() == 0
                && e.message@ == invalid_api_key_message()),
            api_key_valid(self@.api_key) ==> match first_header_problem(self@.caller_headers()) {
                Some(msg) => (r matches Err(Error::Api(e)) && e.code@ == "invalid_header"@
                    && e.status_code == 0 && e.message@ == msg && e.request_id@.len() == 0),
                None => (r matches Ok(s) && s.api_key@ == self@.api_key && s.base_url@
                    == self@.base_url && s.timeout == self@.timeout && s.region == self@.region
                    && s.auth_header@ == "Bearer "@ + self@.api_key && s.headers_view()
                    == self@.caller_headers()),
            },
    {
        let mut auth: Vec<char> = Vec::new();
        push_str(&mut auth, "Bearer ");
        push_str(&mut auth, self.api_key.as_str());
        let auth_header = string_from_chars(auth);
        if check_header_value(auth_header.as_str()).is_some() || check_header_value(
            self.api_key.as_str(),
        ).is_some() {
            proof {
                lemma_bearer_valid(self.api_key@);
            }
            return Err(invalid_api_key_error());
        }
        proof {
            lemma_bearer_valid(self.api_key@);
        }
        let mut headers: Vec<(String, String)> = Vec::new();
        let mut i: usize = 0;
        while i < self.extra_headers.len()
            invariant
                i <= self.extra_headers@.len(),
                headers@.len() == i,
                forall|j: int|
                    0 <= j < i ==> (#[trigger] headers@[j]).0@ == self.extra_headers@[j].0@
                        && headers@[j].1@ == self.extra_headers@[j].1@,
            decreases self.extra_headers@.len() - i,
        {
            let (n, v) = &self.extra_headers[i];
            headers.push((n.clone(), v.clone()));
            i = i + 1;
        }
        match &self.app {
            Some(a) => headers.push(("X-Quantum-App".to_owned(), a.clone())),
            None => {},
        }
        let ghost hs = self@.caller_headers();
        assert(headers_seq(headers@) =~= hs);
        assert(hs.skip(0) =~= hs);
        let mut k: usize = 0;
        while k < headers.len()
            invariant
                hs == self@.caller_headers(),
                api_key_valid(self@.api_key),
                k <= headers@.len(),
                headers_seq(headers@) == hs,
                first_header_problem(hs) == first_header_problem(hs.skip(k as int)),
            decreases headers@.len() - k,
        {
            let (name, value) = &headers[k];
            proof {
                assert(hs.skip(k as int)[0] == hs[k as int]);
                assert(hs.skip(k as int).drop_first() =~= hs.skip(k + 1));
            }
            match header_problem(name.as_str(), value.as_str()) {
                Some(msg) => {
                    return Err(invalid_header_error(msg));
                },
                None => {},
            }
            k = k + 1;
        }
        assert(hs.skip(k as int) =~= Seq::<(Seq<char>, Seq<char>)>::empty());
        Ok(
            ClientSettings {
                api_key: self.api_key.clone(),
                base_url: self.base_url.clone(),
                timeout: self.timeout,
                region: self.region,
                auth_header,
                headers,
            },
        )
    }
}

/// Whether an API key can be sent: both as `Bearer <key>` and on its own.
pub open spec fn api_key_valid(key: Seq<char>) -> bool {
    header_value_valid("Bearer "@ + key) && header_value_valid(key)
}

proof fn lemma_bearer_valid(key: Seq<char>)
    ensures
        header_value_valid("Bearer "@ + key) <==> header_value_valid(key),
{
    reveal_strlit("Bearer ");
    let b = "Bearer "@ + key;
    if header_value_valid(key) {
        assert forall|i: int| 0 <= i < b.len() implies (#[trigger] b[i] == '\t' || (' ' <= b[i]
            && b[i] != '\x7f')) by {
            if i >= 7 {
                assert(b[i] == key[i - 7]);
            }
        }
    }
    if header_value_valid(b) {
        assert forall|i: int| 0 <= i < key.len() implies (#[trigger] key[i] == '\t' || (' '
            <= key[i] && key[i] != '\x7f')) by {
            assert(b[i + 7] == key[i]);
        }
    }
}

/// What the resolved configuration gives every request.
#[derive(Debug, Clone)]
pub struct ClientSettings {
    pub api_key: String,
    pub base_url: String,
    /// Timeout of non-streaming requests.
    pub timeout: Duration,
    /// Region applied to chat requests.
    pub region: Option<Region>,
    /// The `Authorization` value: `Bearer <key>`.
    pub auth_header: String,
    /// Caller-supplied headers, in the order they are applied (a later one
    /// replaces an earlier one of the same name).
    pub headers: Vec<(String, String)>,
}

impl ClientSettings {
    pub open spec fn headers_view(&self) -> Seq<(Seq<char>, Seq<char>)> {
        headers_seq(self.headers@)
    }
}

pub open spec fn headers_seq(h: Seq<(String, String)>) -> Seq<(Seq<char>, Seq<char>)> {
    Seq::new(h.len(), |i: int| (h[i].0@, h[i].1@))
}

/// Header names that callers may not override via `extra_header` / `app`,
/// compared ignoring ASCII case.
pub open spec fn reserved_header(name: Seq<char>) -> bool {
    ascii_lower_seq(name) == "authorization"@ || ascii_lower_seq(name) == "x-api-key"@
}

/// Whether a caller may not set this header: `Authorization` and
/// `X-API-Key` are the SDK's, so auth can never be silently clobbered.
pub fn is_reserved_header(name: &str) -> (r: bool)
    ensures
        r == reserved_header(name@),
{
    let lower = ascii_lowercase(&chars_of(name));
    chars_eq_str(&lower, "authorization") || chars_eq_str(&lower, "x-api-key")
}

/// What is wrong with one caller header, if anything: it is reserved, its
/// name is not a valid header name, or its value is not a valid header
/// value (checked in that order).
pub open spec fn header_problem_spec(h: (Seq<char>, Seq<char>)) -> Option<Seq<char>> {
    if reserved_header(h.0) {
        Some(
            "header '"@ + h.0
                + "' is reserved by the SDK and cannot be overridden via extra_header"@,
        )
    } else if !header_name_accepts(h.0) {
        Some("invalid header name '"@ + h.0 + "': "@ + "invalid HTTP header name"@)
    } else if !header_value_valid(h.1) {
        Some("invalid header value for '"@ + h.0 + "': "@ + "failed to parse header value"@)
    } else {
        None
    }
}

/// The problem of the first faulty header, if any.
pub open spec fn first_header_problem(hs: Seq<(Seq<char>, Seq<char>)>) -> Option<Seq<char>>
    decreases hs.len(),
{
    if hs.len() == 0 {
        None
    } else {
        match header_problem_spec(hs[0]) {
            Some(m) => Some(m),
            None => first_header_problem(hs.drop_first()),
        }
    }
}

fn header_problem(name: &str, value: &str) -> (r: Option<String>)
    ensures
        match r {
            Some(m) => header_problem_spec((name@, value@)) == Some(m@),
            None => header_problem_spec((name@, value@)) is None,
        },
{
    if is_reserved_header(name) {
        let mut v: Vec<char> = Vec::new();
        push_str(&mut v, "header '");
        push_str(&mut v, name);
        push_str(&mut v, "' is reserved by the SDK and cannot be overridden via extra_header");
        return Some(string_from_chars(v));
    }
    match check_header_name(name) {
        Some(e) => {
            let mut v: Vec<char> = Vec::new();
            push_str(&mut v, "invalid header name '");
            push_str(&mut v, name);
            push_str(&mut v, "': ");
            push_str(&mut v, e.as_str());
            return Some(string_from_chars(v));
        },
        None => {},
    }
    match check_header_value(value) {
        Some(e) => {
            let mut v: Vec<char> = Vec::new();
            push_str(&mut v, "invalid header value for '");
            push_str(&mut v, name);
            push_str(&mut v, "': ");
            push_str(&mut v, e.as_str());
            Some(string_from_chars(v))
        },
        None => None,
    }
}

/// The local error for a reserved or malformed caller header.
pub fn invalid_header_error(message: String) -> (e: Error)
    ensures
        e matches Error::Api(a) && a.status_code == 0 && a.code@ == "invalid_header"@
            && a.message@ == message@ && a.request_id@.len() == 0,
{
    local_error("invalid_header", message)
}

/// The message an API key that cannot be sent as a header is refused with.
pub open spec fn invalid_api_key_message() -> Seq<char> {
    "API key contains characters not allowed in an HTTP header (a trailing newline read from a file is the usual cause)"@
}

/// The local error for an API key that cannot be sent as a header value.
pub fn invalid_api_key_error() -> (e: Error)
    ensures
        e matches Error::Api(a) && a.status_code == 0 && a.code@ == "invalid_api_key"@
            && a.request_id@.len() == 0 && a.message@ == invalid_api_key_message(),
{
    local_error(
        "invalid_api_key",
        "API key contains characters not allowed in an HTTP header (a trailing newline read from a file is the usual cause)".to_owned(),
    )
}

/// A caller's own header never replaces the SDK's credential headers: a
/// configuration that resolves carries no reserved header among the
/// caller's.
pub proof fn lemma_resolved_headers_are_not_reserved(hs: Seq<(Seq<char>, Seq<char>)>, i: int)
    requires
        first_header_problem(hs) is None,
        0 <= i < hs.len(),
    ensures
        !reserved_header(hs[i].0),
        header_name_accepts(hs[i].0),
        header_value_valid(hs[i].1),
    decreases hs.len(),
{
    if i > 0 {
        lemma_resolved_headers_are_not_reserved(hs.drop_first(), i - 1);
    }
}

/// The app tag is applied last, so `app(...)` wins over an extra header of
/// the same name.
pub proof fn lemma_app_header_applies_last(b: ClientBuilderView)
    requires
        b.app is Some,
    ensures
        b.caller_headers().len() > 0,
        b.caller_headers().last() == ("X-Quantum-App"@, b.app->0),
{
}

/// The value a list of headers, applied in order, leaves for `name`: the
/// last one whose name matches, ignoring ASCII case (a later header
/// replaces an earlier one of the same name).
pub open spec fn resolved_value(hs: Seq<(Seq<char>, Seq<char>)>, name: Seq<char>) -> Option<Seq<char>>
    decreases hs.len(),
{
    if hs.len() == 0 {
        None
    } else if ascii_lower_seq(hs.last().0) == ascii_lower_seq(name) {
        Some(hs.last().1)
    } else {
        resolved_value(hs.drop_last(), name)
    }
}

/// Every request of a client built with `app(a)` carries `X-Quantum-App:
/// a`, never the value of an extra header of that name; every other extra
/// header resolves as the caller set it.
pub proof fn lemma_app_tag_wins(b: ClientBuilderView, name: Seq<char>)
    requires
        b.app is Some,
    ensures
        resolved_value(b.caller_headers(), "X-Quantum-App"@) == Some(b.app->0),
        ascii_lower_seq(name) != ascii_lower_seq("X-Quantum-App"@) ==> resolved_value(
            b.caller_headers(),
            name,
        ) == resolved_value(b.extra_headers, name),
{
    assert(b.caller_headers().drop_last() =~= b.extra_headers);
}

/// Setting the app and adding an extra header give the same builder in
/// either order.
pub proof fn lemma_app_and_extra_header_commute(
    b: ClientBuilderView,
    app: Seq<char>,
    name: Seq<char>,
    value: Seq<char>,
)
    ensures
        (ClientBuilderView {
            extra_headers: (ClientBuilderView { app: Some(app), ..b }).extra_headers.push(
                (name, value),
            ),
            ..(ClientBuilderView { app: Some(app), ..b })
        }) == (ClientBuilderView {
            app: Some(app),
            ..(ClientBuilderView { extra_headers: b.extra_headers.push((name, value)), ..b })
        }),
{
}

/// The routing region a chat request ends up with: the request's own
/// choice wins; otherwise the client's region, when it has one.
pub fn region_override(client_region: Option<Region>, request_has_region: bool) -> (r: Option<Region>)
    ensures
        r == (if request_has_region {
            None
        } else {
            client_region
        }),
{
    if request_has_region {
        None
    } else {
        client_region
    }
}

/// The count the body carried, or the header's when the body left it zero:
/// the header fills a value in, it never overwrites one.
pub fn backfill_ticks(body: i64, header: i64) -> (r: i64)
    ensures
        r == (if body == 0 {
            header
        } else {
            body
        }),
{
    if body == 0 {
        header
    } else {
        body
    }
}

/// The text the body carried, or the header's when the body left it
/// empty.
pub fn backfill_text(body: String, header: &str) -> (r: String)
    ensures
        r@ == (if body@.len() == 0 {
            header@
        } else {
            body@
        }),
{
    if body.as_str().is_empty() {
        header.to_owned()
    } else {
        body
    }
}

/// A fresh random idempotency key: a version-4 UUID in its hyphenated
/// form.
#[verifier::external_body]
fn fresh_idempotency_key() -> (r: String)
    ensures
        r@.len() == 36,
{
    uuid::Uuid::new_v4().to_string()
}

/// The `Idempotency-Key` a request carries: the caller's, else a fresh
/// random one, reused across the request's replays.
pub fn idempotency_key(given: Option<String>) -> (r: String)
    ensures
        match given {
            Some(k) => r == k,
            None => r@.len() == 36,
        },
{
    match given {
        Some(k) => k,
        None => fresh_idempotency_key(),
    }
}

} // verus!

//! Errors: the API's error envelope, the stable error-code taxonomy, and
//! the transport, decoding and WebSocket failures the client can meet.

use vstd::prelude::*;

use crate::text::{chars_eq_str, chars_of, decimal, has_prefix, push_decimal, push_str, string_from_chars};

verus! {

/// Error types returned by the Quantum AI SDK.
#[derive(Debug)]
pub enum Error {
    /// The API returned a non-2xx status code.
    Api(ApiError),
    /// An HTTP transport error occurred.
    Http(reqwest::Error),
    /// A serialization or deserialization error occurred.
    Json(serde_json::Error),
    /// A WebSocket error occurred (realtime sessions).
    WebSocket(tokio_tungstenite::tungstenite::Error),
}

/// Result type alias for Quantum AI SDK operations.
pub type Result<T> = std::result::Result<T, Error>;

impl From<reqwest::Error> for Error {
    fn from(err: reqwest::Error) -> (r: Self) {
        Error::Http(err)
    }
}

impl vstd::std_specs::convert::FromSpecImpl<reqwest::Error> for Error {
    open spec fn obeys_from_spec() -> bool {
        true
    }

    open spec fn from_spec(err: reqwest::Error) -> Self {
        Error::Http(err)
    }
}

impl From<serde_json::Error> for Error {
    fn from(err: serde_json::Error) -> (r: Self) {
        Error::Json(err)
    }
}

impl vstd::std_specs::convert::FromSpecImpl<serde_json::Error> for Error {
    open spec fn obeys_from_spec() -> bool {
        true
    }

    open spec fn from_spec(err: serde_json::Error) -> Self {
        Error::Json(err)
    }
}

impl From<tokio_tungstenite::tungstenite::Error> for Error {
    fn from(err: tokio_tungstenite::tungstenite::Error) -> (r: Self) {
        Error::WebSocket(err)
    }
}

impl vstd::std_specs::convert::FromSpecImpl<tokio_tungstenite::tungstenite::Error> for Error {
    open spec fn obeys_from_spec() -> bool {
        true
    }

    open spec fn from_spec(err: tokio_tungstenite::tungstenite::Error) -> Self {
        Error::WebSocket(err)
    }
}

/// What a `reqwest` error displays as.
pub uninterp spec fn reqwest_error_display(e: reqwest::Error) -> Seq<char>;

/// The `Display` text of a `reqwest` error.
#[verifier::external_body]
pub(crate) fn reqwest_error_text(e: &reqwest::Error) -> (r: String)
    ensures
        r@ == reqwest_error_display(*e),
{
    e.to_string()
}

/// The `Display` text of a `serde_json` error. That text can hold the
/// operating system's message for an underlying I/O error, which depends
/// on the C library and the locale, so nothing is stated of it.
#[verifier::external_body]
pub(crate) fn json_error_text(e: &serde_json::Error) -> (r: String) {
    e.to_string()
}

/// The `Display` text of a `tungstenite` error. That text can hold the
/// operating system's message for an underlying I/O error, which depends
/// on the C library and the locale, so nothing is stated of it.
#[verifier::external_body]
pub(crate) fn websocket_error_text(e: &tokio_tungstenite::tungstenite::Error) -> (r: String) {
    e.to_string()
}

/// Whether `text` is what an error displays as: an API error as
/// [`api_error_text`], a transport error as `qai: http error: ` followed by
/// the `reqwest` error's own text, and a decoding or WebSocket error as a
/// `qai: json error: ` or `qai: websocket error: ` prefix followed by the
/// underlying error's text.
pub open spec fn displays_as(e: Error, text: Seq<char>) -> bool {
    match e {
        Error::Api(a) => text == api_error_text(a),
        Error::Http(h) => text == "qai: http error: "@ + reqwest_error_display(h),
        Error::Json(_) => has_prefix(text, "qai: json error: "@),
        Error::WebSocket(_) => has_prefix(text, "qai: websocket error: "@),
    }
}

impl Error {
    /// The error as text (what `Display` writes).
    pub fn to_string(&self) -> (s: String)
        ensures
            displays_as(*self, s@),
    {
        match self {
            Error::Api(e) => e.to_string(),
            Error::Http(e) => {
                let mut v: Vec<char> = Vec::new();
                push_str(&mut v, "qai: http error: ");
                let t = reqwest_error_text(e);
                push_str(&mut v, t.as_str());
                string_from_chars(v)
            },
            Error::Json(e) => {
                let mut v: Vec<char> = Vec::new();
                push_str(&mut v, "qai: json error: ");
                let t = json_error_text(e);
                push_str(&mut v, t.as_str());
                assert(v@.take("qai: json error: "@.len() as int) =~= "qai: json error: "@);
                string_from_chars(v)
            },
            Error::WebSocket(e) => {
                let mut v: Vec<char> = Vec::new();
                push_str(&mut v, "qai: websocket error: ");
                let t = websocket_error_text(e);
                push_str(&mut v, t.as_str());
                assert(v@.take("qai: websocket error: "@.len() as int) =~= "qai: websocket error: "@);
                string_from_chars(v)
            },
        }
    }
}

/// An error returned by the Quantum AI API (non-2xx response).
#[derive(Debug, Clone)]
pub struct ApiError {
    /// The HTTP status code from the response.
    pub status_code: u16,
    /// The error type from the API (e.g. "invalid_request", "rate_limit").
    pub code: String,
    /// The human-readable error description.
    pub message: String,
    /// The unique request identifier from the X-QAI-Request-Id header.
    pub request_id: String,
}

/// `qai: <status> <code>: <message>`, followed by ` (request_id=<id>)`
/// when the error carries a request id.
pub open spec fn api_error_text(e: ApiError) -> Seq<char> {
    let head = "qai: "@ + decimal(e.status_code as nat) + " "@ + e.code@ + ": "@ + e.message@;
    if e.request_id@.len() == 0 {
        head
    } else {
        head + " (request_id="@ + e.request_id@ + ")"@
    }
}

impl ApiError {
    /// The error as text (what `Display` shows).
    pub fn to_string(&self) -> (s: String)
        ensures
            s@ == api_error_text(*self),
    {
        let mut v: Vec<char> = Vec::new();
        push_str(&mut v, "qai: ");
        push_decimal(&mut v, self.status_code as u64);
        push_str(&mut v, " ");
        push_str(&mut v, self.code.as_str());
        push_str(&mut v, ": ");
        push_str(&mut v, self.message.as_str());
        if self.request_id.as_str().is_empty() == false {
            push_str(&mut v, " (request_id=");
            push_str(&mut v, self.request_id.as_str());
            push_str(&mut v, ")");
        }
        string_from_chars(v)
    }

    /// Returns true if this is a 429 rate limit response.
    pub fn is_rate_limit(&self) -> (r: bool)
        ensures
            r == (self.status_code == 429),
    {
        self.status_code == 429
    }

    /// Returns true if this is a 401 or 403 authentication/authorization failure.
    pub fn is_auth(&self) -> (r: bool)
        ensures
            r == (self.status_code == 401 || self.status_code == 403),
    {
        self.status_code == 401 || self.status_code == 403
    }

    /// Returns true if this is a 404 not found response.
    pub fn is_not_found(&self) -> (r: bool)
        ensures
            r == (self.status_code == 404),
    {
        self.status_code == 404
    }

    /// Returns the strongly-typed error code. Convenience wrapper
    /// over `ErrorCode::from_wire(&self.code)`.
    pub fn typed_code(&self) -> (r: ErrorCode)
        ensures
            r == error_code_of(self.code@),
    {
        ErrorCode::from_wire(self.code.as_str())
    }
}

/// Checks whether an error is a rate limit APIError.
pub fn is_rate_limit_error(err: &Error) -> (r: bool)
    ensures
        r == (err matches Error::Api(e) && e.status_code == 429),
{
    match err {
        Error::Api(e) => e.is_rate_limit(),
        _ => false,
    }
}

/// Checks whether an error is an authentication APIError.
pub fn is_auth_error(err: &Error) -> (r: bool)
    ensures
        r == (err matches Error::Api(e) && (e.status_code == 401 || e.status_code == 403)),
{
    match err {
        Error::Api(e) => e.is_auth(),
        _ => false,
    }
}

/// Checks whether an error is a not found APIError.
pub fn is_not_found_error(err: &Error) -> (r: bool)
    ensures
        r == (err matches Error::Api(e) && e.status_code == 404),
{
    match err {
        Error::Api(e) => e.is_not_found(),
        _ => false,
    }
}

/// An error raised by the SDK itself, before or instead of a request:
/// status 0 marks it as local.
pub fn local_error(code: &str, message: String) -> (e: Error)
    ensures
        e matches Error::Api(a) && a.status_code == 0 && a.code@ == code@ && a.message@
            == message@ && a.request_id@.len() == 0,
{
    Error::Api(
        ApiError {
            status_code: 0,
            code: code.to_owned(),
            message,
            request_id: String::new(),
        },
    )
}

/// Raw API error body envelope: `{"error": {message, type, code}}`.
#[derive(Debug, Clone, Default)]
pub struct ApiErrorBody {
    pub error: ApiErrorInner,
}

/// The inner object of the usual error envelope.
#[derive(Debug, Clone, Default)]
pub struct ApiErrorInner {
    pub message: String,
    pub code: String,
    /// Wire name: `type`.
    pub error_type: String,
}

/// The flat error envelope: `error` is the code itself.
#[derive(Debug, Clone, Default)]
pub struct FlatApiErrorBody {
    pub error: String,
    pub message: String,
}

/// The HTTP reason phrase of a status code, when the status has one.
pub uninterp spec fn status_reason(status: u16) -> Option<Seq<char>>;

/// `StatusCode::canonical_reason` of the status: the registered reason
/// phrase, if there is one.
#[verifier::external_body]
fn canonical_reason(status: u16) -> (r: Option<&'static str>)
    ensures
        match r {
            Some(s) => status_reason(status) == Some(s@),
            None => status_reason(status) is None,
        },
{
    match reqwest::StatusCode::from_u16(status) {
        Ok(s) => s.canonical_reason(),
        Err(_) => None,
    }
}

/// The reason phrase of a status, `Unknown` when it has none.
pub open spec fn status_text(status: u16) -> Seq<char> {
    match status_reason(status) {
        Some(r) => r,
        None => "Unknown"@,
    }
}

/// The reason phrase of a status, `Unknown` when it has none.
pub fn status_text_of(status: u16) -> (r: String)
    ensures
        r@ == status_text(status),
{
    match canonical_reason(status) {
        Some(r) => r.to_owned(),
        None => "Unknown".to_owned(),
    }
}

/// The error for a non-2xx answer whose body is not read as an error
/// envelope: the status, its reason phrase as the code, the body as the
/// message.
pub fn status_failure(status: u16, body: String, request_id: String) -> (e: Error)
    ensures
        e matches Error::Api(a) && a.status_code == status && a.code@ == status_text(status)
            && a.message@ == body@ && a.request_id@ == request_id@,
{
    Error::Api(ApiError { status_code: status, code: status_text_of(status), message: body, request_id })
}

/// What a request answered without a body comes to: `Ok` on a 2xx status;
/// otherwise the status failure carrying the body and the request id.
pub fn delete_outcome(status: u16, body: String, request_id: String) -> (r: Result<()>)
    ensures
        200 <= status <= 299 ==> r is Ok,
        !(200 <= status <= 299) ==> (r matches Err(Error::Api(a)) && a.status_code == status
            && a.code@ == status_text(status) && a.message@ == body@ && a.request_id@
            == request_id@),
{
    if 200 <= status && status <= 299 {
        Ok(())
    } else {
        Err(status_failure(status, body, request_id))
    }
}

/// The code and message an error response carries. The usual envelope
/// wins over the flat one; an empty message is replaced by the whole body,
/// and an empty code by the envelope's `type`, then by the status text.
pub open spec fn error_code_and_message(
    status: u16,
    body: Seq<char>,
    nested: Option<ApiErrorBody>,
    flat: Option<FlatApiErrorBody>,
) -> (Seq<char>, Seq<char>) {
    match nested {
        Some(b) => {
            let msg = if b.error.message@.len() == 0 {
                body
            } else {
                b.error.message@
            };
            let code = if b.error.code@.len() != 0 {
                b.error.code@
            } else if b.error.error_type@.len() != 0 {
                b.error.error_type@
            } else {
                status_text(status)
            };
            (code, msg)
        },
        None => match flat {
            Some(f) => {
                let msg = if f.message@.len() == 0 {
                    body
                } else {
                    f.message@
                };
                let code = if f.error@.len() == 0 {
                    status_text(status)
                } else {
                    f.error@
                };
                (code, msg)
            },
            None => (status_text(status), body),
        },
    }
}

/// In the usual envelope the code names the error: a non-empty `code` is
/// the error's code whatever `type` holds, and `type` stands in only for an
/// empty `code` (the status text only when both are empty). A non-empty
/// `message` is the message, else the whole body. The flat envelope is not
/// consulted when the usual one decoded.
pub proof fn lemma_envelope_code(
    status: u16,
    body: Seq<char>,
    b: ApiErrorBody,
    flat: Option<FlatApiErrorBody>,
)
    ensures
        b.error.code@.len() != 0 ==> error_code_and_message(status, body, Some(b), flat).0
            == b.error.code@,
        b.error.code@.len() == 0 && b.error.error_type@.len() != 0 ==> error_code_and_message(
            status,
            body,
            Some(b),
            flat,
        ).0 == b.error.error_type@,
        b.error.code@.len() == 0 && b.error.error_type@.len() == 0 ==> error_code_and_message(
            status,
            body,
            Some(b),
            flat,
        ).0 == status_text(status),
        b.error.message@.len() != 0 ==> error_code_and_message(status, body, Some(b), flat).1
            == b.error.message@,
        b.error.message@.len() == 0 ==> error_code_and_message(status, body, Some(b), flat).1
            == body,
        error_code_and_message(status, body, Some(b), flat) == error_code_and_message(
            status,
            body,
            Some(b),
            None,
        ),
{
}

/// Builds the [`Error::Api`] for a non-2xx response from its status, its
/// body and request id, and the body decoded as each of the two envelopes
/// the gateway writes (`None` where it does not decode as that envelope).
pub fn parse_api_error_from_text(
    status: u16,
    body: &str,
    request_id: &str,
    nested: Option<ApiErrorBody>,
    flat: Option<FlatApiErrorBody>,
) -> (e: Error)
    ensures
        e matches Error::Api(a) && a.status_code == status && a.request_id@ == request_id@ && (
        a.code@, a.message@) == error_code_and_message(status, body@, nested, flat),
        e matches Error::Api(a) && (nested is Some && nested->0.error.code@.len() != 0 ==> a.code@
            == nested->0.error.code@),
        e matches Error::Api(a) && (nested is Some && nested->0.error.code@.len() == 0
            && nested->0.error.error_type@.len() != 0 ==> a.code@ == nested->0.error.error_type@),
{
    proof {
        if nested is Some {
            lemma_envelope_code(status, body@, nested->0, flat);
        }
    }
    let status_text = status_text_of(status);
    let (code, message) = match nested {
        Some(b) => {
            let msg = if b.error.message.as_str().is_empty() {
                body.to_owned()
            } else {
                b.error.message
            };
            let c = if b.error.code.as_str().is_empty() == false {
                b.error.code
            } else if b.error.error_type.as_str().is_empty() == false {
                b.error.error_type
            } else {
                status_text
            };
            (c, msg)
        },
        None => match flat {
            Some(f) => {
                let msg = if f.message.as_str().is_empty() {
                    body.to_owned()
                } else {
                    f.message
                };
                let c = if f.error.as_str().is_empty() {
                    status_text
                } else {
                    f.error
                };
                (c, msg)
            },
            None => (status_text, body.to_owned()),
        },
    };
    Error::Api(ApiError { status_code: status, code, message, request_id: request_id.to_owned() })
}

/// Strongly-typed view of the API's stable error-code taxonomy.
/// Match on this rather than on `ApiError::message`: the message is
/// human-readable and may change between releases, while the code is
/// part of the wire contract and is never repurposed.
///
/// `Unknown` covers a code this SDK version does not recognise (one
/// added after the SDK was built) and a response with no code field
/// at all. In both cases the raw string is preserved on
/// `ApiError::code` so callers can still match on it.
///
/// Each variant is the wire code in CamelCase, so
/// `KEY_FROZEN_BY_BUDGET` is `KeyFrozenByBudget`.
#[derive(Debug, Clone, PartialEq, Eq, Structural)]
#[non_exhaustive]
pub enum ErrorCode {
    // Auth / identity
    AuthHeaderMissing,
    AuthHeaderEmpty,
    KeyBearerMalformed,
    KeyNotFound,
    KeyExpired,
    KeyRevokedByAdmin,
    KeyRevokedByOwner,
    /// The partner's budget kill-switch fired. Unlike a self-revoke or
    /// admin-revoke the user's account is fine; the partner's billing
    /// is not, and the remedy is for the partner to top up.
    KeyFrozenByBudget,
    KeyPartnerRejected,
    SessionExpired,
    EphemeralExpired,

    // Authz / scope
    ScopeEndpointDenied,
    AdminRequired,
    ServiceAccountRequired,

    // Billing / credits
    InsufficientBalance,
    TrialExpired,
    SubscriptionLapsed,
    SpendCapExceeded,
    /// Runtime variant of partner budget freeze — fired mid-request
    /// vs. KeyFrozenByBudget which fires at auth time.
    BudgetFrozen,
    PaymentNotConfigured,
    BillingPortalNoHistory,

    // Rate / quota
    RateLimitedPerKey,
    RateLimitedPerIP,
    QuotaExceeded,

    // Provider / upstream
    ProviderRateLimited,
    ProviderUnavailable,
    ProviderAuthFailed,
    ProviderInvalidRequest,
    /// Moderation block on the request content, not on account state:
    /// the user can retry with different content.
    ContentRejected,
    ModelNotAvailable,

    // Request shape / validation
    InvalidRequestBody,
    MissingRequiredField,
    FieldTooLong,
    InvalidAttachment,
    AttachmentTooLarge,
    UnsupportedCapability,

    // System
    InternalError,
    ServiceUnavailable,
    StripeApiError,
    IdempotencyConflict,

    // Per-product paywall codes
    RecipeBoxPaywall,

    /// Unrecognised or absent code; the raw string is on
    /// `ApiError::code`.
    Unknown,
}

/// The typed code a wire code string denotes; anything else, the empty
/// string included, is `Unknown`. The match is case-sensitive.
pub open spec fn error_code_of(code: Seq<char>) -> ErrorCode {
    if code == "AUTH_HEADER_MISSING"@ {
        ErrorCode::AuthHeaderMissing
    } else if code == "AUTH_HEADER_EMPTY"@ {
        ErrorCode::AuthHeaderEmpty
    } else if code == "KEY_BEARER_MALFORMED"@ {
        ErrorCode::KeyBearerMalformed
    } else if code == "KEY_NOT_FOUND"@ {
        ErrorCode::KeyNotFound
    } else if code == "KEY_EXPIRED"@ {
        ErrorCode::KeyExpired
    } else if code == "KEY_REVOKED_BY_ADMIN"@ {
        ErrorCode::KeyRevokedByAdmin
    } else if code == "KEY_REVOKED_BY_OWNER"@ {
        ErrorCode::KeyRevokedByOwner
    } else if code == "KEY_FROZEN_BY_BUDGET"@ {
        ErrorCode::KeyFrozenByBudget
    } else if code == "KEY_PARTNER_REJECTED"@ {
        ErrorCode::KeyPartnerRejected
    } else if code == "SESSION_EXPIRED"@ {
        ErrorCode::SessionExpired
    } else if code == "EPHEMERAL_EXPIRED"@ {
        ErrorCode::EphemeralExpired
    } else if code == "SCOPE_ENDPOINT_DENIED"@ {
        ErrorCode::ScopeEndpointDenied
    } else if code == "ADMIN_REQUIRED"@ {
        ErrorCode::AdminRequired
    } else if code == "SERVICE_ACCOUNT_REQUIRED"@ {
        ErrorCode::ServiceAccountRequired
    } else if code == "INSUFFICIENT_BALANCE"@ {
        ErrorCode::InsufficientBalance
    } else if code == "TRIAL_EXPIRED"@ {
        ErrorCode::TrialExpired
    } else if code == "SUBSCRIPTION_LAPSED"@ {
        ErrorCode::SubscriptionLapsed
    } else if code == "SPEND_CAP_EXCEEDED"@ {
        ErrorCode::SpendCapExceeded
    } else if code == "BUDGET_FROZEN"@ {
        ErrorCode::BudgetFrozen
    } else if code == "PAYMENT_NOT_CONFIGURED"@ {
        ErrorCode::PaymentNotConfigured
    } else if code == "BILLING_PORTAL_NO_HISTORY"@ {
        ErrorCode::BillingPortalNoHistory
    } else if code == "RATE_LIMITED_PER_KEY"@ {
        ErrorCode::RateLimitedPerKey
    } else if code == "RATE_LIMITED_PER_IP"@ {
        ErrorCode::RateLimitedPerIP
    } else if code == "QUOTA_EXCEEDED"@ {
        ErrorCode::QuotaExceeded
    } else if code == "PROVIDER_RATE_LIMITED"@ {
        ErrorCode::ProviderRateLimited
    } else if code == "PROVIDER_UNAVAILABLE"@ {
        ErrorCode::ProviderUnavailable
    } else if code == "PROVIDER_AUTH_FAILED"@ {
        ErrorCode::ProviderAuthFailed
    } else if code == "PROVIDER_INVALID_REQUEST"@ {
        ErrorCode::ProviderInvalidRequest
    } else if code == "CONTENT_REJECTED"@ {
        ErrorCode::ContentRejected
    } else if code == "MODEL_NOT_AVAILABLE"@ {
        ErrorCode::ModelNotAvailable
    } else if code == "INVALID_REQUEST_BODY"@ {
        ErrorCode::InvalidRequestBody
    } else if code == "MISSING_REQUIRED_FIELD"@ {
        ErrorCode::MissingRequiredField
    } else if code == "FIELD_TOO_LONG"@ {
        ErrorCode::FieldTooLong
    } else if code == "INVALID_ATTACHMENT"@ {
        ErrorCode::InvalidAttachment
    } else if code == "ATTACHMENT_TOO_LARGE"@ {
        ErrorCode::AttachmentTooLarge
    } else if code == "UNSUPPORTED_CAPABILITY"@ {
        ErrorCode::UnsupportedCapability
    } else if code == "INTERNAL_ERROR"@ {
        ErrorCode::InternalError
    } else if code == "SERVICE_UNAVAILABLE"@ {
        ErrorCode::ServiceUnavailable
    } else if code == "STRIPE_API_ERROR"@ {
        ErrorCode::StripeApiError
    } else if code == "IDEMPOTENCY_CONFLICT"@ {
        ErrorCode::IdempotencyConflict
    } else if code == "RECIPE_BOX_PAYWALL"@ {
        ErrorCode::RecipeBoxPaywall
    } else {
        ErrorCode::Unknown
    }
}

/// The wire code of a typed code; `Unknown` has none and reads as empty.
pub open spec fn error_code_wire(c: ErrorCode) -> Seq<char> {
    match c {
        ErrorCode::AuthHeaderMissing => "AUTH_HEADER_MISSING"@,
        ErrorCode::AuthHeaderEmpty => "AUTH_HEADER_EMPTY"@,
        ErrorCode::KeyBearerMalformed => "KEY_BEARER_MALFORMED"@,
        ErrorCode::KeyNotFound => "KEY_NOT_FOUND"@,
        ErrorCode::KeyExpired => "KEY_EXPIRED"@,
        ErrorCode::KeyRevokedByAdmin => "KEY_REVOKED_BY_ADMIN"@,
        ErrorCode::KeyRevokedByOwner => "KEY_REVOKED_BY_OWNER"@,
        ErrorCode::KeyFrozenByBudget => "KEY_FROZEN_BY_BUDGET"@,
        ErrorCode::KeyPartnerRejected => "KEY_PARTNER_REJECTED"@,
        ErrorCode::SessionExpired => "SESSION_EXPIRED"@,
        ErrorCode::EphemeralExpired => "EPHEMERAL_EXPIRED"@,
        ErrorCode::ScopeEndpointDenied => "SCOPE_ENDPOINT_DENIED"@,
        ErrorCode::AdminRequired => "ADMIN_REQUIRED"@,
        ErrorCode::ServiceAccountRequired => "SERVICE_ACCOUNT_REQUIRED"@,
        ErrorCode::InsufficientBalance => "INSUFFICIENT_BALANCE"@,
        ErrorCode::TrialExpired => "TRIAL_EXPIRED"@,
        ErrorCode::SubscriptionLapsed => "SUBSCRIPTION_LAPSED"@,
        ErrorCode::SpendCapExceeded => "SPEND_CAP_EXCEEDED"@,
        ErrorCode::BudgetFrozen => "BUDGET_FROZEN"@,
        ErrorCode::PaymentNotConfigured => "PAYMENT_NOT_CONFIGURED"@,
        ErrorCode::BillingPortalNoHistory => "BILLING_PORTAL_NO_HISTORY"@,
        ErrorCode::RateLimitedPerKey => "RATE_LIMITED_PER_KEY"@,
        ErrorCode::RateLimitedPerIP => "RATE_LIMITED_PER_IP"@,
        ErrorCode::QuotaExceeded => "QUOTA_EXCEEDED"@,
        ErrorCode::ProviderRateLimited => "PROVIDER_RATE_LIMITED"@,
        ErrorCode::ProviderUnavailable => "PROVIDER_UNAVAILABLE"@,
        ErrorCode::ProviderAuthFailed => "PROVIDER_AUTH_FAILED"@,
        ErrorCode::ProviderInvalidRequest => "PROVIDER_INVALID_REQUEST"@,
        ErrorCode::ContentRejected => "CONTENT_REJECTED"@,
        ErrorCode::ModelNotAvailable => "MODEL_NOT_AVAILABLE"@,
        ErrorCode::InvalidRequestBody => "INVALID_REQUEST_BODY"@,
        ErrorCode::MissingRequiredField => "MISSING_REQUIRED_FIELD"@,
        ErrorCode::FieldTooLong => "FIELD_TOO_LONG"@,
        ErrorCode::InvalidAttachment => "INVALID_ATTACHMENT"@,
        ErrorCode::AttachmentTooLarge => "ATTACHMENT_TOO_LARGE"@,
        ErrorCode::UnsupportedCapability => "UNSUPPORTED_CAPABILITY"@,
        ErrorCode::InternalError => "INTERNAL_ERROR"@,
        ErrorCode::ServiceUnavailable => "SERVICE_UNAVAILABLE"@,
        ErrorCode::StripeApiError => "STRIPE_API_ERROR"@,
        ErrorCode::IdempotencyConflict => "IDEMPOTENCY_CONFLICT"@,
        ErrorCode::RecipeBoxPaywall => "RECIPE_BOX_PAYWALL"@,
        ErrorCode::Unknown => Seq::empty(),
    }
}

/// Each typed code is read back from its own wire code; the empty code is
/// `Unknown`.
pub proof fn lemma_error_code_round_trip(c: ErrorCode)
    ensures
        c != ErrorCode::Unknown ==> error_code_of(error_code_wire(c)) == c,
        error_code_of(Seq::empty()) == ErrorCode::Unknown,
{
    lemma_error_codes();
}

/// The typed code of each wire code the gateway documents.
proof fn lemma_error_codes()
    ensures
        error_code_of("AUTH_HEADER_MISSING"@) == ErrorCode::AuthHeaderMissing,
        error_code_of("AUTH_HEADER_EMPTY"@) == ErrorCode::AuthHeaderEmpty,
        error_code_of("KEY_BEARER_MALFORMED"@) == ErrorCode::KeyBearerMalformed,
        error_code_of("KEY_NOT_FOUND"@) == ErrorCode::KeyNotFound,
        error_code_of("KEY_EXPIRED"@) == ErrorCode::KeyExpired,
        error_code_of("KEY_REVOKED_BY_ADMIN"@) == ErrorCode::KeyRevokedByAdmin,
        error_code_of("KEY_REVOKED_BY_OWNER"@) == ErrorCode::KeyRevokedByOwner,
        error_code_of("KEY_FROZEN_BY_BUDGET"@) == ErrorCode::KeyFrozenByBudget,
        error_code_of("KEY_PARTNER_REJECTED"@) == ErrorCode::KeyPartnerRejected,
        error_code_of("SESSION_EXPIRED"@) == ErrorCode::SessionExpired,
        error_code_of("EPHEMERAL_EXPIRED"@) == ErrorCode::EphemeralExpired,
        error_code_of("SCOPE_ENDPOINT_DENIED"@) == ErrorCode::ScopeEndpointDenied,
        error_code_of("ADMIN_REQUIRED"@) == ErrorCode::AdminRequired,
        error_code_of("SERVICE_ACCOUNT_REQUIRED"@) == ErrorCode::ServiceAccountRequired,
        error_code_of("INSUFFICIENT_BALANCE"@) == ErrorCode::InsufficientBalance,
        error_code_of("TRIAL_EXPIRED"@) == ErrorCode::TrialExpired,
        error_code_of("SUBSCRIPTION_LAPSED"@) == ErrorCode::SubscriptionLapsed,
        error_code_of("SPEND_CAP_EXCEEDED"@) == ErrorCode::SpendCapExceeded,
        error_code_of("BUDGET_FROZEN"@) == ErrorCode::BudgetFrozen,
        error_code_of("PAYMENT_NOT_CONFIGURED"@) == ErrorCode::PaymentNotConfigured,
        error_code_of("BILLING_PORTAL_NO_HISTORY"@) == ErrorCode::BillingPortalNoHistory,
        error_code_of("RATE_LIMITED_PER_KEY"@) == ErrorCode::RateLimitedPerKey,
        error_code_of("RATE_LIMITED_PER_IP"@) == ErrorCode::RateLimitedPerIP,
        error_code_of("QUOTA_EXCEEDED"@) == ErrorCode::QuotaExceeded,
        error_code_of("PROVIDER_RATE_LIMITED"@) == ErrorCode::ProviderRateLimited,
        error_code_of("PROVIDER_UNAVAILABLE"@) == ErrorCode::ProviderUnavailable,
        error_code_of("PROVIDER_AUTH_FAILED"@) == ErrorCode::ProviderAuthFailed,
        error_code_of("PROVIDER_INVALID_REQUEST"@) == ErrorCode::ProviderInvalidRequest,
        error_code_of("CONTENT_REJECTED"@) == ErrorCode::ContentRejected,
        error_code_of("MODEL_NOT_AVAILABLE"@) == ErrorCode::ModelNotAvailable,
        error_code_of("INVALID_REQUEST_BODY"@) == ErrorCode::InvalidRequestBody,
        error_code_of("MISSING_REQUIRED_FIELD"@) == ErrorCode::MissingRequiredField,
        error_code_of("FIELD_TOO_LONG"@) == ErrorCode::FieldTooLong,
        error_code_of("INVALID_ATTACHMENT"@) == ErrorCode::InvalidAttachment,
        error_code_of("ATTACHMENT_TOO_LARGE"@) == ErrorCode::AttachmentTooLarge,
        error_code_of("UNSUPPORTED_CAPABILITY"@) == ErrorCode::UnsupportedCapability,
        error_code_of("INTERNAL_ERROR"@) == ErrorCode::InternalError,
        error_code_of("SERVICE_UNAVAILABLE"@) == ErrorCode::ServiceUnavailable,
        error_code_of("STRIPE_API_ERROR"@) == ErrorCode::StripeApiError,
        error_code_of("IDEMPOTENCY_CONFLICT"@) == ErrorCode::IdempotencyConflict,
        error_code_of("RECIPE_BOX_PAYWALL"@) == ErrorCode::RecipeBoxPaywall,
        error_code_of(Seq::empty()) == ErrorCode::Unknown,
{
    reveal_strlit("AUTH_HEADER_MISSING");
    reveal_strlit("AUTH_HEADER_EMPTY");
    reveal_strlit("KEY_BEARER_MALFORMED");
    reveal_strlit("KEY_NOT_FOUND");
    reveal_strlit("KEY_EXPIRED");
    reveal_strlit("KEY_REVOKED_BY_ADMIN");
    reveal_strlit("KEY_REVOKED_BY_OWNER");
    reveal_strlit("KEY_FROZEN_BY_BUDGET");
    reveal_strlit("KEY_PARTNER_REJECTED");
    reveal_strlit("SESSION_EXPIRED");
    reveal_strlit("EPHEMERAL_EXPIRED");
    reveal_strlit("SCOPE_ENDPOINT_DENIED");
    reveal_strlit("ADMIN_REQUIRED");
    reveal_strlit("SERVICE_ACCOUNT_REQUIRED");
    reveal_strlit("INSUFFICIENT_BALANCE");
    reveal_strlit("TRIAL_EXPIRED");
    reveal_strlit("SUBSCRIPTION_LAPSED");
    reveal_strlit("SPEND_CAP_EXCEEDED");
    reveal_strlit("BUDGET_FROZEN");
    reveal_strlit("PAYMENT_NOT_CONFIGURED");
    reveal_strlit("BILLING_PORTAL_NO_HISTORY");
    reveal_strlit("RATE_LIMITED_PER_KEY");
    reveal_strlit("RATE_LIMITED_PER_IP");
    reveal_strlit("QUOTA_EXCEEDED");
    reveal_strlit("PROVIDER_RATE_LIMITED");
    reveal_strlit("PROVIDER_UNAVAILABLE");
    reveal_strlit("PROVIDER_AUTH_FAILED");
    reveal_strlit("PROVIDER_INVALID_REQUEST");
    reveal_strlit("CONTENT_REJECTED");
    reveal_strlit("MODEL_NOT_AVAILABLE");
    reveal_strlit("INVALID_REQUEST_BODY");
    reveal_strlit("MISSING_REQUIRED_FIELD");
    reveal_strlit("FIELD_TOO_LONG");
    reveal_strlit("INVALID_ATTACHMENT");
    reveal_strlit("ATTACHMENT_TOO_LARGE");
    reveal_strlit("UNSUPPORTED_CAPABILITY");
    reveal_strlit("INTERNAL_ERROR");
    reveal_strlit("SERVICE_UNAVAILABLE");
    reveal_strlit("STRIPE_API_ERROR");
    reveal_strlit("IDEMPOTENCY_CONFLICT");
    reveal_strlit("RECIPE_BOX_PAYWALL");
    assert("AUTH_HEADER_MISSING"@.len() == 19);
    assert("AUTH_HEADER_EMPTY"@.len() == 17);
    assert("KEY_BEARER_MALFORMED"@.len() == 20);
    assert("KEY_NOT_FOUND"@.len() == 13);
    assert("KEY_EXPIRED"@.len() == 11);
    assert("KEY_REVOKED_BY_ADMIN"@.len() == 20);
    assert("KEY_REVOKED_BY_OWNER"@.len() == 20);
    assert("KEY_FROZEN_BY_BUDGET"@.len() == 20);
    assert("KEY_PARTNER_REJECTED"@.len() == 20);
    assert("SESSION_EXPIRED"@.len() == 15);
    assert("EPHEMERAL_EXPIRED"@.len() == 17);
    assert("SCOPE_ENDPOINT_DENIED"@.len() == 21);
    assert("ADMIN_REQUIRED"@.len() == 14);
    assert("SERVICE_ACCOUNT_REQUIRED"@.len() == 24);
    assert("INSUFFICIENT_BALANCE"@.len() == 20);
    assert("TRIAL_EXPIRED"@.len() == 13);
    assert("SUBSCRIPTION_LAPSED"@.len() == 19);
    assert("SPEND_CAP_EXCEEDED"@.len() == 18);
    assert("BUDGET_FROZEN"@.len() == 13);
    assert("PAYMENT_NOT_CONFIGURED"@.len() == 22);
    assert("BILLING_PORTAL_NO_HISTORY"@.len() == 25);
    assert("RATE_LIMITED_PER_KEY"@.len() == 20);
    assert("RATE_LIMITED_PER_IP"@.len() == 19);
    assert("QUOTA_EXCEEDED"@.len() == 14);
    assert("PROVIDER_RATE_LIMITED"@.len() == 21);
    assert("PROVIDER_UNAVAILABLE"@.len() == 20);
    assert("PROVIDER_AUTH_FAILED"@.len() == 20);
    assert("PROVIDER_INVALID_REQUEST"@.len() == 24);
    assert("CONTENT_REJECTED"@.len() == 16);
    assert("MODEL_NOT_AVAILABLE"@.len() == 19);
    assert("INVALID_REQUEST_BODY"@.len() == 20);
    assert("MISSING_REQUIRED_FIELD"@.len() == 22);
    assert("FIELD_TOO_LONG"@.len() == 14);
    assert("INVALID_ATTACHMENT"@.len() == 18);
    assert("ATTACHMENT_TOO_LARGE"@.len() == 20);
    assert("UNSUPPORTED_CAPABILITY"@.len() == 22);
    assert("INTERNAL_ERROR"@.len() == 14);
    assert("SERVICE_UNAVAILABLE"@.len() == 19);
    assert("STRIPE_API_ERROR"@.len() == 16);
    assert("IDEMPOTENCY_CONFLICT"@.len() == 20);
    assert("RECIPE_BOX_PAYWALL"@.len() == 18);
    assert("AUTH_HEADER_MISSING"@[0] != "SUBSCRIPTION_LAPSED"@[0]);
    assert("AUTH_HEADER_MISSING"@[0] != "RATE_LIMITED_PER_IP"@[0]);
    assert("AUTH_HEADER_MISSING"@[0] != "MODEL_NOT_AVAILABLE"@[0]);
    assert("AUTH_HEADER_MISSING"@[0] != "SERVICE_UNAVAILABLE"@[0]);
    assert("SUBSCRIPTION_LAPSED"@[0] != "RATE_LIMITED_PER_IP"@[0]);
    assert("SUBSCRIPTION_LAPSED"@[0] != "MODEL_NOT_AVAILABLE"@[0]);
    assert("SUBSCRIPTION_LAPSED"@[1] != "SERVICE_UNAVAILABLE"@[1]);
    assert("RATE_LIMITED_PER_IP"@[0] != "MODEL_NOT_AVAILABLE"@[0]);
    assert("RATE_LIMITED_PER_IP"@[0] != "SERVICE_UNAVAILABLE"@[0]);
    assert("MODEL_NOT_AVAILABLE"@[0] != "SERVICE_UNAVAILABLE"@[0]);
    assert("AUTH_HEADER_EMPTY"@[0] != "EPHEMERAL_EXPIRED"@[0]);
    assert("KEY_BEARER_MALFORMED"@[4] != "KEY_REVOKED_BY_ADMIN"@[4]);
    assert("KEY_BEARER_MALFORMED"@[4] != "KEY_REVOKED_BY_OWNER"@[4]);
    assert("KEY_BEARER_MALFORMED"@[4] != "KEY_FROZEN_BY_BUDGET"@[4]);
    assert("KEY_BEARER_MALFORMED"@[4] != "KEY_PARTNER_REJECTED"@[4]);
    assert("KEY_BEARER_MALFORMED"@[0] != "INSUFFICIENT_BALANCE"@[0]);
    assert("KEY_BEARER_MALFORMED"@[0] != "RATE_LIMITED_PER_KEY"@[0]);
    assert("KEY_BEARER_MALFORMED"@[0] != "PROVIDER_UNAVAILABLE"@[0]);
    assert("KEY_BEARER_MALFORMED"@[0] != "PROVIDER_AUTH_FAILED"@[0]);
    assert("KEY_BEARER_MALFORMED"@[0] != "INVALID_REQUEST_BODY"@[0]);
    assert("KEY_BEARER_MALFORMED"@[0] != "ATTACHMENT_TOO_LARGE"@[0]);
    assert("KEY_BEARER_MALFORMED"@[0] != "IDEMPOTENCY_CONFLICT"@[0]);
    assert("KEY_REVOKED_BY_ADMIN"@[15] != "KEY_REVOKED_BY_OWNER"@[15]);
    assert("KEY_REVOKED_BY_ADMIN"@[4] != "KEY_FROZEN_BY_BUDGET"@[4]);
    assert("KEY_REVOKED_BY_ADMIN"@[4] != "KEY_PARTNER_REJECTED"@[4]);
    assert("KEY_REVOKED_BY_ADMIN"@[0] != "INSUFFICIENT_BALANCE"@[0]);
    assert("KEY_REVOKED_BY_ADMIN"@[0] != "RATE_LIMITED_PER_KEY"@[0]);
    assert("KEY_REVOKED_BY_ADMIN"@[0] != "PROVIDER_UNAVAILABLE"@[0]);
    assert("KEY_REVOKED_BY_ADMIN"@[0] != "PROVIDER_AUTH_FAILED"@[0]);
    assert("KEY_REVOKED_BY_ADMIN"@[0] != "INVALID_REQUEST_BODY"@[0]);
    assert("KEY_REVOKED_BY_ADMIN"@[0] != "ATTACHMENT_TOO_LARGE"@[0]);
    assert("KEY_REVOKED_BY_ADMIN"@[0] != "IDEMPOTENCY_CONFLICT"@[0]);
    assert("KEY_REVOKED_BY_OWNER"@[4] != "KEY_FROZEN_BY_BUDGET"@[4]);
    assert("KEY_REVOKED_BY_OWNER"@[4] != "KEY_PARTNER_REJECTED"@[4]);
    assert("KEY_REVOKED_BY_OWNER"@[0] != "INSUFFICIENT_BALANCE"@[0]);
    assert("KEY_REVOKED_BY_OWNER"@[0] != "RATE_LIMITED_PER_KEY"@[0]);
    assert("KEY_REVOKED_BY_OWNER"@[0] != "PROVIDER_UNAVAILABLE"@[0]);
    assert("KEY_REVOKED_BY_OWNER"@[0] != "PROVIDER_AUTH_FAILED"@[0]);
    assert("KEY_REVOKED_BY_OWNER"@[0] != "INVALID_REQUEST_BODY"@[0]);
    assert("KEY_REVOKED_BY_OWNER"@[0] != "ATTACHMENT_TOO_LARGE"@[0]);
    assert("KEY_REVOKED_BY_OWNER"@[0] != "IDEMPOTENCY_CONFLICT"@[0]);
    assert("KEY_FROZEN_BY_BUDGET"@[4] != "KEY_PARTNER_REJECTED"@[4]);
    assert("KEY_FROZEN_BY_BUDGET"@[0] != "INSUFFICIENT_BALANCE"@[0]);
    assert("KEY_FROZEN_BY_BUDGET"@[0] != "RATE_LIMITED_PER_KEY"@[0]);
    assert("KEY_FROZEN_BY_BUDGET"@[0] != "PROVIDER_UNAVAILABLE"@[0]);
    assert("KEY_FROZEN_BY_BUDGET"@[0] != "PROVIDER_AUTH_FAILED"@[0]);
    assert("KEY_FROZEN_BY_BUDGET"@[0] != "INVALID_REQUEST_BODY"@[0]);
    assert("KEY_FROZEN_BY_BUDGET"@[0] != "ATTACHMENT_TOO_LARGE"@[0]);
    assert("KEY_FROZEN_BY_BUDGET"@[0] != "IDEMPOTENCY_CONFLICT"@[0]);
    assert("KEY_PARTNER_REJECTED"@[0] != "INSUFFICIENT_BALANCE"@[0]);
    assert("KEY_PARTNER_REJECTED"@[0] != "RATE_LIMITED_PER_KEY"@[0]);
    assert("KEY_PARTNER_REJECTED"@[0] != "PROVIDER_UNAVAILABLE"@[0]);
    assert("KEY_PARTNER_REJECTED"@[0] != "PROVIDER_AUTH_FAILED"@[0]);
    assert("KEY_PARTNER_REJECTED"@[0] != "INVALID_REQUEST_BODY"@[0]);
    assert("KEY_PARTNER_REJECTED"@[0] != "ATTACHMENT_TOO_LARGE"@[0]);
    assert("KEY_PARTNER_REJECTED"@[0] != "IDEMPOTENCY_CONFLICT"@[0]);
    assert("INSUFFICIENT_BALANCE"@[0] != "RATE_LIMITED_PER_KEY"@[0]);
    assert("INSUFFICIENT_BALANCE"@[0] != "PROVIDER_UNAVAILABLE"@[0]);
    assert("INSUFFICIENT_BALANCE"@[0] != "PROVIDER_AUTH_FAILED"@[0]);
    assert("INSUFFICIENT_BALANCE"@[2] != "INVALID_REQUEST_BODY"@[2]);
    assert("INSUFFICIENT_BALANCE"@[0] != "ATTACHMENT_TOO_LARGE"@[0]);
    assert("INSUFFICIENT_BALANCE"@[1] != "IDEMPOTENCY_CONFLICT"@[1]);
    assert("RATE_LIMITED_PER_KEY"@[0] != "PROVIDER_UNAVAILABLE"@[0]);
    assert("RATE_LIMITED_PER_KEY"@[0] != "PROVIDER_AUTH_FAILED"@[0]);
    assert("RATE_LIMITED_PER_KEY"@[0] != "INVALID_REQUEST_BODY"@[0]);
    assert("RATE_LIMITED_PER_KEY"@[0] != "ATTACHMENT_TOO_LARGE"@[0]);
    assert("RATE_LIMITED_PER_KEY"@[0] != "IDEMPOTENCY_CONFLICT"@[0]);
    assert("PROVIDER_UNAVAILABLE"@[9] != "PROVIDER_AUTH_FAILED"@[9]);
    assert("PROVIDER_UNAVAILABLE"@[0] != "INVALID_REQUEST_BODY"@[0]);
    assert("PROVIDER_UNAVAILABLE"@[0] != "ATTACHMENT_TOO_LARGE"@[0]);
    assert("PROVIDER_UNAVAILABLE"@[0] != "IDEMPOTENCY_CONFLICT"@[0]);
    assert("PROVIDER_AUTH_FAILED"@[0] != "INVALID_REQUEST_BODY"@[0]);
    assert("PROVIDER_AUTH_FAILED"@[0] != "ATTACHMENT_TOO_LARGE"@[0]);
    assert("PROVIDER_AUTH_FAILED"@[0] != "IDEMPOTENCY_CONFLICT"@[0]);
    assert("INVALID_REQUEST_BODY"@[0] != "ATTACHMENT_TOO_LARGE"@[0]);
    assert("INVALID_REQUEST_BODY"@[1] != "IDEMPOTENCY_CONFLICT"@[1]);
    assert("ATTACHMENT_TOO_LARGE"@[0] != "IDEMPOTENCY_CONFLICT"@[0]);
    assert("KEY_NOT_FOUND"@[0] != "TRIAL_EXPIRED"@[0]);
    assert("KEY_NOT_FOUND"@[0] != "BUDGET_FROZEN"@[0]);
    assert("TRIAL_EXPIRED"@[0] != "BUDGET_FROZEN"@[0]);
    assert("SCOPE_ENDPOINT_DENIED"@[0] != "PROVIDER_RATE_LIMITED"@[0]);
    assert("ADMIN_REQUIRED"@[0] != "QUOTA_EXCEEDED"@[0]);
    assert("ADMIN_REQUIRED"@[0] != "FIELD_TOO_LONG"@[0]);
    assert("ADMIN_REQUIRED"@[0] != "INTERNAL_ERROR"@[0]);
    assert("QUOTA_EXCEEDED"@[0] != "FIELD_TOO_LONG"@[0]);
    assert("QUOTA_EXCEEDED"@[0] != "INTERNAL_ERROR"@[0]);
    assert("FIELD_TOO_LONG"@[0] != "INTERNAL_ERROR"@[0]);
    assert("SERVICE_ACCOUNT_REQUIRED"@[0] != "PROVIDER_INVALID_REQUEST"@[0]);
    assert("SPEND_CAP_EXCEEDED"@[0] != "INVALID_ATTACHMENT"@[0]);
    assert("SPEND_CAP_EXCEEDED"@[0] != "RECIPE_BOX_PAYWALL"@[0]);
    assert("INVALID_ATTACHMENT"@[0] != "RECIPE_BOX_PAYWALL"@[0]);
    assert("PAYMENT_NOT_CONFIGURED"@[0] != "MISSING_REQUIRED_FIELD"@[0]);
    assert("PAYMENT_NOT_CONFIGURED"@[0] != "UNSUPPORTED_CAPABILITY"@[0]);
    assert("MISSING_REQUIRED_FIELD"@[0] != "UNSUPPORTED_CAPABILITY"@[0]);
    assert("CONTENT_REJECTED"@[0] != "STRIPE_API_ERROR"@[0]);
}

impl ErrorCode {
    /// Parse the wire code string into a typed variant. Unknown
    /// strings (including empty) yield `ErrorCode::Unknown`. Match
    /// is case-sensitive: the backend guarantees uppercase
    /// snake_case for canonical codes.
    pub fn from_wire(code: &str) -> (r: ErrorCode)
        ensures
            r == error_code_of(code@),
    {
        let k = chars_of(code);
        if chars_eq_str(&k, "AUTH_HEADER_MISSING") {
            ErrorCode::AuthHeaderMissing
        } else if chars_eq_str(&k, "AUTH_HEADER_EMPTY") {
            ErrorCode::AuthHeaderEmpty
        } else if chars_eq_str(&k, "KEY_BEARER_MALFORMED") {
            ErrorCode::KeyBearerMalformed
        } else if chars_eq_str(&k, "KEY_NOT_FOUND") {
            ErrorCode::KeyNotFound
        } else if chars_eq_str(&k, "KEY_EXPIRED") {
            ErrorCode::KeyExpired
        } else if chars_eq_str(&k, "KEY_REVOKED_BY_ADMIN") {
            ErrorCode::KeyRevokedByAdmin
        } else if chars_eq_str(&k, "KEY_REVOKED_BY_OWNER") {
            ErrorCode::KeyRevokedByOwner
        } else if chars_eq_str(&k, "KEY_FROZEN_BY_BUDGET") {
            ErrorCode::KeyFrozenByBudget
        } else if chars_eq_str(&k, "KEY_PARTNER_REJECTED") {
            ErrorCode::KeyPartnerRejected
        } else if chars_eq_str(&k, "SESSION_EXPIRED") {
            ErrorCode::SessionExpired
        } else if chars_eq_str(&k, "EPHEMERAL_EXPIRED") {
            ErrorCode::EphemeralExpired
        } else if chars_eq_str(&k, "SCOPE_ENDPOINT_DENIED") {
            ErrorCode::ScopeEndpointDenied
        } else if chars_eq_str(&k, "ADMIN_REQUIRED") {
            ErrorCode::AdminRequired
        } else if chars_eq_str(&k, "SERVICE_ACCOUNT_REQUIRED") {
            ErrorCode::ServiceAccountRequired
        } else if chars_eq_str(&k, "INSUFFICIENT_BALANCE") {
            ErrorCode::InsufficientBalance
        } else if chars_eq_str(&k, "TRIAL_EXPIRED") {
            ErrorCode::TrialExpired
        } else if chars_eq_str(&k, "SUBSCRIPTION_LAPSED") {
            ErrorCode::SubscriptionLapsed
        } else if chars_eq_str(&k, "SPEND_CAP_EXCEEDED") {
            ErrorCode::SpendCapExceeded
        } else if chars_eq_str(&k, "BUDGET_FROZEN") {
            ErrorCode::BudgetFrozen
        } else if chars_eq_str(&k, "PAYMENT_NOT_CONFIGURED") {
            ErrorCode::PaymentNotConfigured
        } else if chars_eq_str(&k, "BILLING_PORTAL_NO_HISTORY") {
            ErrorCode::BillingPortalNoHistory
        } else if chars_eq_str(&k, "RATE_LIMITED_PER_KEY") {
            ErrorCode::RateLimitedPerKey
        } else if chars_eq_str(&k, "RATE_LIMITED_PER_IP") {
            ErrorCode::RateLimitedPerIP
        } else if chars_eq_str(&k, "QUOTA_EXCEEDED") {
            ErrorCode::QuotaExceeded
        } else if chars_eq_str(&k, "PROVIDER_RATE_LIMITED") {
            ErrorCode::ProviderRateLimited
        } else if chars_eq_str(&k, "PROVIDER_UNAVAILABLE") {
            ErrorCode::ProviderUnavailable
        } else if chars_eq_str(&k, "PROVIDER_AUTH_FAILED") {
            ErrorCode::ProviderAuthFailed
        } else if chars_eq_str(&k, "PROVIDER_INVALID_REQUEST") {
            ErrorCode::ProviderInvalidRequest
        } else if chars_eq_str(&k, "CONTENT_REJECTED") {
            ErrorCode::ContentRejected
        } else if chars_eq_str(&k, "MODEL_NOT_AVAILABLE") {
            ErrorCode::ModelNotAvailable
        } else if chars_eq_str(&k, "INVALID_REQUEST_BODY") {
            ErrorCode::InvalidRequestBody
        } else if chars_eq_str(&k, "MISSING_REQUIRED_FIELD") {
            ErrorCode::MissingRequiredField
        } else if chars_eq_str(&k, "FIELD_TOO_LONG") {
            ErrorCode::FieldTooLong
        } else if chars_eq_str(&k, "INVALID_ATTACHMENT") {
            ErrorCode::InvalidAttachment
        } else if chars_eq_str(&k, "ATTACHMENT_TOO_LARGE") {
            ErrorCode::AttachmentTooLarge
        } else if chars_eq_str(&k, "UNSUPPORTED_CAPABILITY") {
            ErrorCode::UnsupportedCapability
        } else if chars_eq_str(&k, "INTERNAL_ERROR") {
            ErrorCode::InternalError
        } else if chars_eq_str(&k, "SERVICE_UNAVAILABLE") {
            ErrorCode::ServiceUnavailable
        } else if chars_eq_str(&k, "STRIPE_API_ERROR") {
            ErrorCode::StripeApiError
        } else if chars_eq_str(&k, "IDEMPOTENCY_CONFLICT") {
            ErrorCode::IdempotencyConflict
        } else if chars_eq_str(&k, "RECIPE_BOX_PAYWALL") {
            ErrorCode::RecipeBoxPaywall
        } else {
            ErrorCode::Unknown
        }
    }
}

} // verus!

//! Authentication — sign in via OAuth providers, verify keys, end sessions.
//!
//! Every sign-in answers with the same [`AuthResponse`]: a session token
//! (the bearer for later calls), when it expires, the account's default API
//! key, and the user. An app that signs a person in never has to hold a
//! developer key — the token is the credential.

use vstd::prelude::*;

verus! {

/// User information returned after authentication.
#[derive(Debug, Clone)]
pub struct AuthUser {
    /// User identifier.
    pub id: String,

    /// Display name (`display_name` on the wire).
    pub name: Option<String>,

    /// Email address.
    pub email: Option<String>,

    /// Avatar URL (`photo_url` on the wire).
    pub avatar_url: Option<String>,

    /// Credit balance in ticks (10¹⁰ ticks per USD).
    pub credit_ticks: Option<i64>,

    /// Account role (e.g. `"user"`, `"admin"`).
    pub role: Option<String>,
}

/// Request body for Apple Sign-In.
#[derive(Debug, Clone)]
pub struct AuthAppleRequest {
    /// The Apple identity token (JWT from Sign in with Apple).
    pub id_token: String,

    /// Optional display name (only provided on first sign-in).
    pub name: Option<String>,

    /// The raw nonce the sign-in was started with; its SHA-256 is checked
    /// against the token's claim for replay protection.
    pub nonce: Option<String>,

    /// Per-device key bucket: each device gets its own default key. Empty
    /// means the account's shared default.
    pub device_id: Option<String>,

    /// The authorization code from Sign in with Apple, when the app has one.
    pub authorization_code: Option<String>,
}

/// Request body for Google Sign-In.
#[derive(Debug, Clone)]
pub struct AuthGoogleRequest {
    /// The Google ID token (JWT) from the OAuth flow.
    pub id_token: String,

    /// The OAuth client ID the token was issued for; it must be one the
    /// gateway recognises, and the token's audience is checked against it.
    pub client_id: String,

    /// Per-device key bucket (see [`AuthAppleRequest::device_id`]).
    pub device_id: Option<String>,
}

/// Request body for Firebase sign-in (any Firebase Auth provider).
#[derive(Debug, Clone)]
pub struct AuthFirebaseRequest {
    /// The Firebase ID token.
    pub id_token: String,

    /// Per-device key bucket (see [`AuthAppleRequest::device_id`]).
    pub device_id: Option<String>,
}

/// Request body for key verification.
#[derive(Debug, Clone, Default)]
pub struct VerifyKeyRequest {
    /// The `qai_k_` key to resolve. Empty verifies the calling credential.
    pub api_key: Option<String>,
}

/// Who a key belongs to.
#[derive(Debug, Clone)]
pub struct VerifyKeyResponse {
    /// Always true on a 200; an unknown key is a 401.
    pub verified: bool,

    /// Owner's user id.
    pub user_id: String,

    /// Owner's Apple subject, when they signed in with Apple.
    pub apple_sub: Option<String>,

    /// Owner's email.
    pub email: Option<String>,

    /// When the key was created (RFC 3339).
    pub created_at: Option<String>,
}

/// Outcome of revoking the calling session.
#[derive(Debug, Clone)]
pub struct RevokeSessionResponse {
    /// `"revoked"`.
    pub status: String,
}

} // verus!

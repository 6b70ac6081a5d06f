//! Cross-app licences.
//!
//! Licences are minted by the fulfilment paths (Stripe webhook, in-app
//! purchase verification) and carry an Ed25519-signed JWT that a client caches
//! locally and verifies offline. These routes are the read / maintain surface:
//!
//! - `Client::licenses_mine` lists the caller's licences, each with a freshly
//!   signed JWT (a call renews the offline-validity window).
//! - `Client::license_revocations` is a public, id-only feed a client polls
//!   to drop refunded or disputed licences from its cache.
//! - `Client::license_public_key` is the public JWKS-style verification key.
//!
//! The revocations and public-key routes do not require authentication.

use vstd::prelude::*;

use crate::query::{add_encoded, add_number, add_verbatim, encoded, from_i64, from_u32, numeral, opt_param, path_with_query, texts, verbatim, with_query};

verus! {

/// One licence held by the caller.
#[derive(Debug, Clone, Default)]
pub struct License {
    /// Licence identifier.
    pub id: String,

    /// App the licence unlocks.
    pub app: String,

    /// SKU purchased.
    pub sku: String,

    /// Fulfilment source (e.g. `"stripe"`, `"app_store"`, `"google_play"`).
    pub source: String,

    /// Provider-side transaction id the licence was minted from.
    pub source_transaction: String,

    /// RFC3339 issue timestamp of the underlying licence row (not of the JWT,
    /// which is re-signed on every read).
    pub issued_at: String,

    /// RFC3339 expiry.
    pub expires_at: String,

    /// `"active"` or `"revoked"`.
    pub status: String,

    /// The signed licence JWT. Empty for revoked licences — they stay in the
    /// list so a client can tell "receipt landed, access withdrawn" apart from
    /// "receipt never arrived".
    pub license_key: String,
}

/// Response from `GET /qai/v1/licenses/mine`.
#[derive(Debug, Clone, Default)]
pub struct LicensesResponse {
    /// The caller's licences.
    pub licenses: Vec<License>,
}

/// Response from `GET /qai/v1/licenses/revocations`.
#[derive(Debug, Clone, Default)]
pub struct LicenseRevocationsResponse {
    /// Licence ids revoked strictly after the requested `since`.
    pub revoked_ids: Vec<String>,

    /// The `since` bound the server actually applied, RFC3339.
    pub since: String,

    /// Server time the feed was generated, RFC3339. Use it as the next poll's
    /// `since`.
    pub as_of: String,
}

/// One JWKS entry carrying the licence verification key.
#[derive(Debug, Clone, Default)]
pub struct LicenseJwk {
    /// Key type — `"OKP"` for the Ed25519 licence key.
    pub kty: String,

    /// Curve — `"Ed25519"`.
    pub crv: String,

    /// Signing algorithm — `"EdDSA"`.
    pub alg: String,

    /// Key use — `"sig"`.
    pub key_use: String,

    /// Key id, matching the `kid` header of issued licence JWTs.
    pub kid: String,

    /// The base64url (unpadded) Ed25519 public key.
    pub x: String,
}

/// Response from `GET /qai/v1/licenses/public-key`.
///
/// Rotation appends a new entry while keeping the old one, so a client must
/// select by `kid` rather than assuming a single key.
#[derive(Debug, Clone, Default)]
pub struct LicensePublicKeyResponse {
    /// The active verification keys.
    pub keys: Vec<LicenseJwk>,
}

/// The caller's licences route, filtered to `app` (URL-encoded) when set.
pub fn licenses_mine_path(app: &Option<String>) -> (r: String)
    ensures
        r@ == with_query("/qai/v1/licenses/mine"@, opt_param("app"@, encoded(*app))),
{
    let mut params: Vec<String> = Vec::new();
    assert(texts(params@) =~= Seq::empty());
    add_encoded(&mut params, "app", app);
    path_with_query("/qai/v1/licenses/mine", &params)
}

/// The revocations route, with `since` (URL-encoded) when set.
pub fn license_revocations_path(since: &Option<String>) -> (r: String)
    ensures
        r@ == with_query("/qai/v1/licenses/revocations"@, opt_param("since"@, encoded(*since))),
{
    let mut params: Vec<String> = Vec::new();
    assert(texts(params@) =~= Seq::empty());
    add_encoded(&mut params, "since", since);
    path_with_query("/qai/v1/licenses/revocations", &params)
}

} // verus!

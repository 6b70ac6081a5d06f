use vstd::prelude::*;

use crate::json::{member_text, str_member};

verus! {

/// Details about an API key (returned on creation and listing).
#[derive(Debug, Clone)]
pub struct KeyDetails {
    /// Unique key identifier.
    pub id: String,

    /// Human-readable name.
    pub name: String,

    /// First characters of the key for identification.
    pub key_prefix: String,

    /// Scope restrictions.
    pub scope: Option<serde_json::Value>,

    /// Amount spent by this key in ticks.
    pub spent_ticks: i64,

    /// Whether the key has been revoked.
    pub revoked: bool,

    /// Creation timestamp (RFC 3339).
    pub created_at: Option<String>,

    /// Last usage timestamp (RFC 3339). Only present in list responses.
    pub last_used: Option<String>,
}

/// Response from creating an API key.
#[derive(Debug, Clone)]
pub struct CreateKeyResponse {
    /// The full API key (only shown once on creation).
    pub key: String,

    /// Key metadata.
    pub details: KeyDetails,
}

/// Response from listing API keys.
#[derive(Debug, Clone)]
pub struct ListKeysResponse {
    /// All keys for the account.
    pub keys: Vec<KeyDetails>,
}

/// Generic status response for operations that return a simple status.
#[derive(Debug, Clone)]
pub struct StatusResponse {
    /// Status message (e.g. "ok", "deleted", "revoked").
    pub status: String,

    /// Optional human-readable message.
    pub message: Option<String>,
}

/// A per-device default key, as listed by `Client::list_device_keys`.
#[derive(Debug, Clone)]
pub struct DeviceKey {
    /// Key identifier.
    pub key_id: String,
    /// The device the key was minted for.
    pub device_id: Option<String>,
    /// First characters of the key.
    pub key_prefix: Option<String>,
    /// When it was created.
    pub created_at: Option<String>,
    /// When it was last used, if ever.
    pub last_used: Option<String>,
}

/// Response from listing device keys.
#[derive(Debug, Clone)]
pub struct ListDeviceKeysResponse {
    pub devices: Vec<DeviceKey>,
}

/// Request body for rotating a key.
#[derive(Debug, Clone, Default)]
pub struct RotateKeyRequest {
    /// How long the old key keeps working after rotation, in seconds.
    pub grace_seconds: i64,
}

/// Response from rotating a key.
#[derive(Debug, Clone)]
pub struct RotateKeyResponse {
    /// The new key, shown once.
    pub key: String,
    /// The new key's details.
    pub details: KeyDetails,
    /// The id of the key that was rotated out.
    pub old_key_id: Option<String>,
}

/// Response from `Client::create_ephemeral_key`.
#[derive(Debug, Clone)]
pub struct EphemeralKeyResponse {
    /// The token, shown once.
    pub token: String,
    /// When it expires (RFC 3339).
    pub expires_at: String,
    /// The gateway the token is for.
    pub base_url: Option<String>,
}

/// Response from `Client::create_partner_key`.
#[derive(Debug, Clone)]
pub struct PartnerKeyResponse {
    /// The key, shown once.
    pub key: String,
    /// The key's details.
    pub details: KeyDetails,
    /// The gateway the key is for.
    pub base_url: Option<String>,
}

impl KeyDetails {
    /// `"americas"`, `"europe"`, or `"asia"` when the key is region-scoped,
    /// `None` for unscoped legacy keys (no scope, no `region` string in it,
    /// or an empty one). Parse with [`Region::parse`](crate::region::Region::parse)
    /// for the typed form.
    pub fn scope_region(&self) -> (r: Option<&str>)
        ensures
            match r {
                Some(s) => self.scope matches Some(v) && str_member(v, "region"@) == Some(s@)
                    && s@.len() > 0,
                None => match self.scope {
                    Some(v) => match str_member(v, "region"@) {
                        Some(s) => s.len() == 0,
                        None => true,
                    },
                    None => true,
                },
            },
    {
        match &self.scope {
            Some(v) => match member_text(v, "region") {
                Some(s) => if s.is_empty() {
                    None
                } else {
                    Some(s)
                },
                None => None,
            },
            None => None,
        }
    }
}

} // verus!

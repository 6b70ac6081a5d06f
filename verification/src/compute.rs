//! GPU compute rentals and model deployments.
//!
//! Every write on this surface (provision, SSH key, keepalive, deploy,
//! extend) is behind per-account compute approval: an unapproved account gets
//! 403 `compute_not_approved` before anything is priced or charged.

use vstd::prelude::*;

verus! {

/// Request body for provisioning a compute instance.
#[derive(Debug, Clone, Default)]
pub struct ProvisionRequest {
    /// Template ID to provision.
    pub template: String,

    /// Preferred zone (e.g. "us-central1-a"). Must be one of the template's
    /// zones; defaults to its first.
    pub zone: Option<String>,

    /// Use spot/preemptible pricing. Refused with 400 when the template has
    /// no spot allowance.
    pub spot: Option<bool>,

    /// Auto-teardown after N minutes of inactivity. Values at or below zero
    /// become 30; values above 1440 (24 hours) become 1440.
    pub auto_teardown_minutes: Option<i32>,

    /// SSH public key for access.
    pub ssh_public_key: Option<String>,
}

/// Response from deleting a compute instance.
#[derive(Debug, Clone)]
pub struct DeleteResponse {
    /// Status message.
    pub status: String,

    /// Instance that was deleted.
    pub instance_id: Option<String>,
}

/// Request body for adding an SSH key to an instance.
#[derive(Debug, Clone, Default)]
pub struct SSHKeyRequest {
    /// SSH public key to add. Required.
    pub public_key: String,

    /// Login user the key is installed for. Defaults to `cosmic`.
    pub username: Option<String>,
}

/// Request body for `POST /qai/v1/compute/deploy-model`.
///
/// The endpoint is two-phase: leave `confirmed` unset for a cost estimate that
/// bills nothing, then resend the same request with `confirmed: true` to
/// actually provision.
#[derive(Debug, Clone, Default)]
pub struct DeployModelRequest {
    /// A catalogue [`KnownModel::id`], or a full Model Garden model path.
    /// Required.
    pub model: String,

    /// Machine type. Filled in from the catalogue when `model` is a known id.
    pub machine_type: Option<String>,

    /// Accelerator type. Filled in from the catalogue when `model` is a known
    /// id.
    pub accelerator_type: Option<String>,

    /// Number of accelerators. Defaults to 1.
    pub accelerator_count: Option<i32>,

    /// Deploy region. Defaults to the catalogue's first known-good region, or
    /// `us-east1`.
    pub region: Option<String>,

    /// How long to hold the deployment. Raised to the 2-hour minimum when
    /// lower.
    pub duration_hours: Option<i32>,

    /// Auto-scaling minimum. Defaults to 1.
    pub min_replicas: Option<i32>,

    /// Auto-scaling maximum. Defaults to 1.
    pub max_replicas: Option<i32>,

    /// Let other authenticated users call this deployment's inference
    /// endpoint. They are billed per token; the hourly cost stays with the
    /// owner.
    pub public: Option<bool>,

    /// Set to `true` to provision. Unset returns an estimate and bills
    /// nothing.
    pub confirmed: Option<bool>,
}

/// Request body for `POST /qai/v1/compute/deployments/{id}/extend`.
#[derive(Debug, Clone, Default)]
pub struct ExtendDeploymentRequest {
    /// Hours to add. Values at or below zero become 1.
    pub hours: i32,
}

/// Response from `DELETE /qai/v1/compute/deployments/{id}`.
#[derive(Debug, Clone, Default)]
pub struct DeploymentDeleteResponse {
    /// Status after teardown — `"terminated"`.
    pub status: String,
}

/// The provision route; `confirm` adds `confirm=yes`, which commits the
/// spend instead of returning a quote.
pub fn provision_path(confirm: bool) -> (r: &'static str)
    ensures
        r@ == (if confirm {
            "/qai/v1/compute/provision?confirm=yes"@
        } else {
            "/qai/v1/compute/provision"@
        }),
{
    if confirm {
        "/qai/v1/compute/provision?confirm=yes"
    } else {
        "/qai/v1/compute/provision"
    }
}

} // verus!

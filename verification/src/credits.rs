//! Credits — purchase credit packs, check balance, view tiers, and apply for dev program.
//!
//! Some endpoints (packs, tiers) do not require authentication and can be
//! called without an API key.

use vstd::prelude::*;

verus! {

/// Request to purchase a credit pack.
#[derive(Debug, Clone)]
pub struct CreditPurchaseRequest {
    /// The pack ID to purchase.
    pub pack_id: String,

    /// URL to redirect to after successful payment.
    pub success_url: Option<String>,

    /// URL to redirect to if payment is cancelled.
    pub cancel_url: Option<String>,
}

/// Response from purchasing a credit pack.
#[derive(Debug, Clone)]
pub struct CreditPurchaseResponse {
    /// URL to redirect the user to for payment.
    pub checkout_url: String,
}

/// Request body for buying a lifetime plan.
#[derive(Debug, Clone, Default)]
pub struct LifetimePurchaseRequest {
    pub plan_id: String,
    pub success_url: Option<String>,
    pub cancel_url: Option<String>,
}

/// Response from dev program application.
#[derive(Debug, Clone)]
pub struct DevProgramApplyResponse {
    /// Status of the application (e.g. "submitted", "approved").
    pub status: String,
}

} // verus!

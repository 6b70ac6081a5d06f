use vstd::prelude::*;

verus! {

/// Request body for the public contact form.
#[derive(Debug, Clone, Default)]
pub struct ContactRequest {
    /// Sender name.
    pub name: String,

    /// Sender email address.
    pub email: String,

    /// Message subject.
    pub subject: Option<String>,

    /// Message body.
    pub message: String,
}

} // verus!

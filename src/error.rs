use vstd::prelude::*;

use crate::validate::ValidationError;

verus! {

/// The reasons an operation of this library can fail.
#[derive(Debug, Clone, PartialEq, Eq)]
pub enum TotpError {
    /// The stored secret is not Base32 text.
    InvalidSecret,
    /// The MAC refused the decoded key.
    InvalidKey,
    /// A site name or a secret broke a rule.
    Validation(ValidationError),
    /// The site already has a secret.
    DuplicateSiteName(String),
    /// The site has no secret.
    NotFound(String),
    /// The secret store failed; its message is passed on unchanged.
    Store(String),
}

} // verus!

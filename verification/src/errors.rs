use vstd::prelude::*;

verus! {

/// Why an operation was refused. Every refusal is final: nothing was changed,
/// and repeating the same request against the same state fails the same way.
#[derive(Clone, Copy, Debug, PartialEq, Eq, Structural)]
pub enum ErrorCode {
    /// Session key expiry must be in the future.
    InvalidExpiry,
    /// Maximum number of session keys reached.
    TooManySessionKeys,
    /// Session key already exists.
    SessionKeyAlreadyExists,
    /// Session key not found.
    SessionKeyNotFound,
    /// Session key has been revoked.
    SessionKeyRevoked,
    /// Session key has already been revoked.
    SessionKeyAlreadyRevoked,
    /// Session key has expired.
    SessionKeyExpired,
    /// Insufficient permissions for this action.
    InsufficientPermissions,
    /// The mint is not on the account's allowlist.
    MintNotAllowed,
    /// The allowlist would hold more mints than an account has room for.
    TooManyAllowedMints,
}

} // verus!

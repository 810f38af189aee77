use vstd::prelude::*;
use crate::identity::Identity;
use crate::state::{SessionAction, SessionPermissions};

verus! {

/// A session key was created.
#[derive(Clone, Copy, Debug, PartialEq, Eq)]
pub struct SessionKeyCreated {
    pub authority: Identity,
    pub session_key: Identity,
    pub expires_at: i64,
    pub permissions: SessionPermissions,
}

/// A session key was revoked.
#[derive(Clone, Copy, Debug, PartialEq, Eq)]
pub struct SessionKeyRevoked {
    pub authority: Identity,
    pub session_key: Identity,
}

/// A session key was updated; the fields hold the values after the update.
#[derive(Clone, Copy, Debug, PartialEq, Eq)]
pub struct SessionKeyUpdated {
    pub authority: Identity,
    pub session_key: Identity,
    pub expires_at: i64,
    pub permissions: SessionPermissions,
}

/// Every session key of an account was revoked.
#[derive(Clone, Copy, Debug, PartialEq, Eq)]
pub struct AllSessionKeysRevoked {
    pub authority: Identity,
    /// Number of records in the registry, those revoked earlier included.
    pub count: u32,
}

/// A session key performed an action.
#[derive(Clone, Debug, PartialEq, Eq)]
pub struct SessionActionExecuted {
    pub authority: Identity,
    pub session_key: Identity,
    pub action: SessionAction,
    pub timestamp: i64,
}

} // verus!

//! Session-key authorization engine.
//!
//! An owner account holds a bounded registry of scoped, expiring, revocable
//! session keys. The functions of this crate decide whether a lifecycle
//! operation or a delegated action is admitted, and say what the account
//! looks like afterwards.

pub mod constants;
pub mod identity;
pub mod errors;
pub mod state;
pub mod events;
pub mod effects;
pub mod instructions;
pub mod delegate;
pub mod laws;

pub use constants::{MAX_ALLOWED_MINTS, MAX_SESSION_KEYS, SESSION_KEY_SIZE};
pub use errors::ErrorCode;
pub use events::{
    AllSessionKeysRevoked, SessionActionExecuted, SessionKeyCreated, SessionKeyRevoked,
    SessionKeyUpdated,
};
pub use identity::Identity;
pub use state::{
    Clock, ExpirationType, SessionAction, SessionKey, SessionPermissions, TokenAccount,
    UserAccount,
};

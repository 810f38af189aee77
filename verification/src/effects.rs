use vstd::prelude::*;
use crate::events::SessionActionExecuted;
use crate::identity::Identity;

verus! {

/// A transfer of native value that the caller is to carry out.
#[derive(Clone, Copy, Debug, PartialEq, Eq)]
pub struct SystemTransfer {
    pub from: Identity,
    pub to: Identity,
    pub lamports: u64,
}

/// Spending rights over a token account that the caller is to grant.
#[derive(Clone, Copy, Debug, PartialEq, Eq)]
pub struct TokenApproval {
    /// The derived delegate that receives the rights.
    pub delegate: Identity,
    pub amount: u64,
}

/// A token transfer that the caller is to carry out under the derived
/// delegate's authority.
#[derive(Clone, Debug, PartialEq, Eq)]
pub struct DelegatedTransfer {
    /// The derived delegate that authorizes the transfer.
    pub delegate: Identity,
    /// The seeds that stand in for the delegate's signature.
    pub signer_seeds: Vec<Vec<u8>>,
    pub amount: u64,
}

/// An admitted action: the transfer to carry out, if the action is one, and
/// the notification to publish once it has gone through.
#[derive(Clone, Debug, PartialEq, Eq)]
pub struct Execution {
    pub transfer: Option<SystemTransfer>,
    pub event: SessionActionExecuted,
}

} // verus!

use vstd::prelude::*;
use crate::effects::{Execution, SystemTransfer};
use crate::errors::ErrorCode;
use crate::events::SessionActionExecuted;
use crate::identity::Identity;
use crate::state::{AccountState, Clock, SessionAction, UserAccount};

verus! {

/// The accounts that the caller supplies for a direct transfer. Each may be
/// missing.
#[derive(Clone, Copy, Debug, PartialEq, Eq)]
pub struct TransferAccounts {
    /// The account that value is taken from.
    pub from: Option<Identity>,
    /// The account that value goes to.
    pub to: Option<Identity>,
    /// The program that moves the value.
    pub system_program: Option<Identity>,
}

impl TransferAccounts {
    /// The accounts are all present, the source is `authority` and the
    /// destination is `recipient`.
    pub open spec fn connect(self, authority: Identity, recipient: Identity) -> bool {
        &&& self.from == Some(authority)
        &&& self.to == Some(recipient)
        &&& self.system_program is Some
    }

    /// Decides whether the supplied accounts are those of a transfer from
    /// `authority` to `recipient`.
    pub fn connects(&self, authority: &Identity, recipient: &Identity) -> (r: bool)
        ensures
            r == self.connect(*authority, *recipient),
    {
        let from_ok = match &self.from {
            Some(from) => *from == *authority,
            None => false,
        };
        let to_ok = match &self.to {
            Some(to) => *to == *recipient,
            None => false,
        };
        from_ok && to_ok && self.system_program.is_some()
    }
}

impl AccountState {
    /// The decision on an action that `signer` asks for. The signer's record
    /// is looked up and must be neither revoked nor expired; then the action
    /// must be within its permissions; a transfer must also come with the
    /// owner as its source and the named recipient as its destination. An
    /// admitted transfer is handed back for the caller to carry out; the
    /// other actions have no effect of their own.
    pub open spec fn execute(
        self,
        clock: Clock,
        signer: Identity,
        action: SessionAction,
        accounts: TransferAccounts,
    ) -> Result<Option<SystemTransfer>, ErrorCode> {
        match self.active_key(clock, signer) {
            Err(e) => Err(e),
            Ok(key) => {
                if !key.permissions.allows(action) {
                    Err(ErrorCode::InsufficientPermissions)
                } else {
                    match action {
                        SessionAction::Transfer { recipient, amount } => {
                            if accounts.connect(self.authority, recipient) {
                                Ok(
                                    Some(
                                        SystemTransfer {
                                            from: self.authority,
                                            to: recipient,
                                            lamports: amount,
                                        },
                                    ),
                                )
                            } else {
                                Err(ErrorCode::InsufficientPermissions)
                            }
                        },
                        _ => Ok(None),
                    }
                }
            },
        }
    }
}

/// Execute an action using a session key.
///
/// The checks run in a fixed order, and the first that fails decides the
/// error: unknown key, revoked key, expired key, then permissions. On
/// success the result names the transfer to perform, if any, and the
/// notification that reports the action.
pub fn handler(
    user_account: &UserAccount,
    clock: &Clock,
    session_signer: Identity,
    action: SessionAction,
    accounts: &TransferAccounts,
) -> (r: Result<Execution, ErrorCode>)
    ensures
        match user_account@.execute(*clock, session_signer, action, *accounts) {
            Ok(transfer) => r == Ok::<Execution, ErrorCode>(
                (Execution {
                    transfer,
                    event: SessionActionExecuted {
                        authority: user_account.authority,
                        session_key: session_signer,
                        action,
                        timestamp: clock.unix_timestamp,
                    },
                }),
            ),
            Err(e) => r == Err::<Execution, ErrorCode>(e),
        },
{
    let session_key = match user_account.find_active_key(clock, &session_signer) {
        Ok(key) => key,
        Err(e) => {
            return Err(e);
        },
    };
    if !session_key.permissions.permits(&action) {
        return Err(ErrorCode::InsufficientPermissions);
    }
    let transfer = match &action {
        SessionAction::Transfer { recipient, amount } => {
            if !accounts.connects(&user_account.authority, recipient) {
                return Err(ErrorCode::InsufficientPermissions);
            }
            Some(SystemTransfer { from: user_account.authority, to: *recipient, lamports: *amount })
        },
        SessionAction::Delegate { .. } => None,
        SessionAction::Custom { .. } => None,
    };
    Ok(
        Execution {
            transfer,
            event: SessionActionExecuted {
                authority: user_account.authority,
                session_key: session_signer,
                action,
                timestamp: clock.unix_timestamp,
            },
        },
    )
}

} // verus!

use vstd::prelude::*;
use crate::errors::ErrorCode;
use crate::events::SessionKeyUpdated;
use crate::identity::Identity;
use crate::state::{find_key, AccountState, Clock, SessionKey, SessionPermissions, UserAccount};

verus! {

/// A record after an update: each of the two fields takes the new value
/// where one is given and keeps its own where none is.
pub open spec fn updated_key(
    key: SessionKey,
    new_expires_at: Option<i64>,
    new_permissions: Option<SessionPermissions>,
) -> SessionKey {
    SessionKey {
        expires_at: match new_expires_at {
            Some(expires_at) => expires_at,
            None => key.expires_at,
        },
        permissions: match new_permissions {
            Some(permissions) => permissions,
            None => key.permissions,
        },
        ..key
    }
}

impl AccountState {
    /// Update of a session key. The record must be present and not revoked.
    /// A new expiry must lie strictly after the current reference of the
    /// record's own expiration type. New permissions replace the old ones
    /// whole.
    pub open spec fn update(
        self,
        clock: Clock,
        session_pubkey: Identity,
        new_expires_at: Option<i64>,
        new_permissions: Option<SessionPermissions>,
    ) -> Result<AccountState, ErrorCode> {
        match find_key(self.session_keys, session_pubkey) {
            None => Err(ErrorCode::SessionKeyNotFound),
            Some(i) => {
                let key = self.session_keys[i];
                if key.is_revoked {
                    Err(ErrorCode::SessionKeyRevoked)
                } else if new_expires_at matches Some(expires_at) && expires_at <= clock.reference(
                    key.expiration_type,
                ) {
                    Err(ErrorCode::InvalidExpiry)
                } else {
                    Ok(
                        AccountState {
                            session_keys: self.session_keys.update(
                                i,
                                updated_key(key, new_expires_at, new_permissions),
                            ),
                            ..self
                        },
                    )
                }
            },
        }
    }

    /// An update keeps the account's invariant.
    pub proof fn lemma_update_preserves_wf(
        self,
        clock: Clock,
        session_pubkey: Identity,
        new_expires_at: Option<i64>,
        new_permissions: Option<SessionPermissions>,
    )
        requires
            self.wf(),
        ensures
            self.update(clock, session_pubkey, new_expires_at, new_permissions) matches Ok(after)
                ==> after.wf(),
    {
    }
}

/// Update an existing session key: extend or shorten its expiry, replace its
/// permissions, or both.
pub fn handler(
    user_account: &mut UserAccount,
    clock: &Clock,
    session_pubkey: Identity,
    new_expires_at: Option<i64>,
    new_permissions: Option<SessionPermissions>,
) -> (r: Result<SessionKeyUpdated, ErrorCode>)
    ensures
        match old(user_account)@.update(*clock, session_pubkey, new_expires_at, new_permissions) {
            Ok(after) => {
                let key = updated_key(
                    old(user_account)@.record(session_pubkey),
                    new_expires_at,
                    new_permissions,
                );
                &&& final(user_account)@ == after
                &&& r == Ok::<SessionKeyUpdated, ErrorCode>(
                    (SessionKeyUpdated {
                        authority: after.authority,
                        session_key: session_pubkey,
                        expires_at: key.expires_at,
                        permissions: key.permissions,
                    }),
                )
            },
            Err(e) => *final(user_account) == *old(user_account) && r == Err::<
                SessionKeyUpdated,
                ErrorCode,
            >(e),
        },
        old(user_account)@.wf() ==> final(user_account)@.wf(),
{
    let i = match user_account.find_session_key(&session_pubkey) {
        Some(i) => i,
        None => {
            return Err(ErrorCode::SessionKeyNotFound);
        },
    };
    let mut session_key = user_account.session_keys[i];
    if session_key.is_revoked {
        return Err(ErrorCode::SessionKeyRevoked);
    }
    if let Some(expires_at) = new_expires_at {
        if clock.has_reached(expires_at, session_key.expiration_type) {
            return Err(ErrorCode::InvalidExpiry);
        }
        session_key.expires_at = expires_at;
    }
    if let Some(permissions) = new_permissions {
        session_key.permissions = permissions;
    }
    proof {
        if user_account@.wf() {
            user_account@.lemma_update_preserves_wf(
                *clock,
                session_pubkey,
                new_expires_at,
                new_permissions,
            );
        }
    }
    user_account.session_keys.set(i, session_key);
    Ok(
        SessionKeyUpdated {
            authority: user_account.authority,
            session_key: session_pubkey,
            expires_at: session_key.expires_at,
            permissions: session_key.permissions,
        },
    )
}

} // verus!

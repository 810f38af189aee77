use vstd::prelude::*;
use crate::errors::ErrorCode;
use crate::events::SessionKeyRevoked;
use crate::identity::Identity;
use crate::state::{find_key, AccountState, SessionKey, UserAccount};

verus! {

/// A record with its revocation flag set.
pub open spec fn revoked_key(key: SessionKey) -> SessionKey {
    SessionKey { is_revoked: true, ..key }
}

impl AccountState {
    /// Revocation of a session key. The record must be present and must not
    /// be revoked already.
    pub open spec fn revoke(self, session_pubkey: Identity) -> Result<AccountState, ErrorCode> {
        match find_key(self.session_keys, session_pubkey) {
            None => Err(ErrorCode::SessionKeyNotFound),
            Some(i) => {
                let key = self.session_keys[i];
                if key.is_revoked {
                    Err(ErrorCode::SessionKeyAlreadyRevoked)
                } else {
                    Ok(
                        AccountState {
                            session_keys: self.session_keys.update(i, revoked_key(key)),
                            ..self
                        },
                    )
                }
            },
        }
    }

    /// A revocation keeps the account's invariant.
    pub proof fn lemma_revoke_preserves_wf(self, session_pubkey: Identity)
        requires
            self.wf(),
        ensures
            self.revoke(session_pubkey) matches Ok(after) ==> after.wf(),
    {
    }
}

/// Revoke an existing session key.
pub fn handler(user_account: &mut UserAccount, session_pubkey: Identity) -> (r: Result<
    SessionKeyRevoked,
    ErrorCode,
>)
    ensures
        match old(user_account)@.revoke(session_pubkey) {
            Ok(after) => final(user_account)@ == after && r == Ok::<SessionKeyRevoked, ErrorCode>(
                (SessionKeyRevoked { authority: after.authority, session_key: session_pubkey }),
            ),
            Err(e) => *final(user_account) == *old(user_account) && r == Err::<
                SessionKeyRevoked,
                ErrorCode,
            >(e),
        },
        old(user_account)@.wf() ==> final(user_account)@.wf(),
{
    let i = match user_account.find_session_key(&session_pubkey) {
        Some(i) => i,
        None => {
            return Err(ErrorCode::SessionKeyNotFound);
        },
    };
    let mut session_key = user_account.session_keys[i];
    if session_key.is_revoked {
        return Err(ErrorCode::SessionKeyAlreadyRevoked);
    }
    session_key.is_revoked = true;
    proof {
        if user_account@.wf() {
            user_account@.lemma_revoke_preserves_wf(session_pubkey);
        }
    }
    user_account.session_keys.set(i, session_key);
    Ok(SessionKeyRevoked { authority: user_account.authority, session_key: session_pubkey })
}

} // verus!

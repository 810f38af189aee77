use vstd::prelude::*;
use crate::constants::MAX_SESSION_KEYS;
use crate::errors::ErrorCode;
use crate::events::SessionKeyCreated;
use crate::identity::Identity;
use crate::state::{
    empty_label, lemma_find_key, AccountState, Clock, ExpirationType, SessionKey,
    SessionPermissions, UserAccount,
};

verus! {

/// The record that creation appends.
pub open spec fn new_session_key(
    clock: Clock,
    session_pubkey: Identity,
    expires_at: i64,
    expiration_type: ExpirationType,
    permissions: SessionPermissions,
) -> SessionKey {
    SessionKey {
        pubkey: session_pubkey,
        created_at: clock.unix_timestamp,
        expires_at,
        expiration_type,
        permissions,
        is_revoked: false,
        label: empty_label(),
    }
}

impl AccountState {
    /// Creation of a session key. The expiry must lie strictly after the
    /// current reference of its type, the registry must have room, and the
    /// identity must not be present, in that order of precedence. The new
    /// record goes to the end.
    pub open spec fn create(
        self,
        clock: Clock,
        session_pubkey: Identity,
        expires_at: i64,
        expiration_type: ExpirationType,
        permissions: SessionPermissions,
    ) -> Result<AccountState, ErrorCode> {
        if expires_at <= clock.reference(expiration_type) {
            Err(ErrorCode::InvalidExpiry)
        } else if self.session_keys.len() >= MAX_SESSION_KEYS {
            Err(ErrorCode::TooManySessionKeys)
        } else if self.has_key(session_pubkey) {
            Err(ErrorCode::SessionKeyAlreadyExists)
        } else {
            Ok(
                AccountState {
                    session_keys: self.session_keys.push(
                        new_session_key(
                            clock,
                            session_pubkey,
                            expires_at,
                            expiration_type,
                            permissions,
                        ),
                    ),
                    ..self
                },
            )
        }
    }

    /// Creation keeps the account's invariant.
    pub proof fn lemma_create_preserves_wf(
        self,
        clock: Clock,
        session_pubkey: Identity,
        expires_at: i64,
        expiration_type: ExpirationType,
        permissions: SessionPermissions,
    )
        requires
            self.wf(),
        ensures
            self.create(clock, session_pubkey, expires_at, expiration_type, permissions) matches Ok(
                after,
            ) ==> after.wf(),
    {
        lemma_find_key(self.session_keys, session_pubkey);
    }
}

/// Create a new session key with specified permissions and expiry.
pub fn handler(
    user_account: &mut UserAccount,
    clock: &Clock,
    session_pubkey: Identity,
    expires_at: i64,
    expiration_type: ExpirationType,
    permissions: SessionPermissions,
) -> (r: Result<SessionKeyCreated, ErrorCode>)
    ensures
        match old(user_account)@.create(
            *clock,
            session_pubkey,
            expires_at,
            expiration_type,
            permissions,
        ) {
            Ok(after) => final(user_account)@ == after && r == Ok::<SessionKeyCreated, ErrorCode>(
                (SessionKeyCreated {
                    authority: after.authority,
                    session_key: session_pubkey,
                    expires_at,
                    permissions,
                }),
            ),
            Err(e) => *final(user_account) == *old(user_account) && r == Err::<SessionKeyCreated, ErrorCode>(e),
        },
        old(user_account)@.wf() ==> final(user_account)@.wf(),
{
    if clock.has_reached(expires_at, expiration_type) {
        return Err(ErrorCode::InvalidExpiry);
    }
    if user_account.session_keys.len() >= MAX_SESSION_KEYS {
        return Err(ErrorCode::TooManySessionKeys);
    }
    if user_account.find_session_key(&session_pubkey).is_some() {
        return Err(ErrorCode::SessionKeyAlreadyExists);
    }
    proof {
        if user_account@.wf() {
            user_account@.lemma_create_preserves_wf(
                *clock,
                session_pubkey,
                expires_at,
                expiration_type,
                permissions,
            );
        }
    }
    let session_key = SessionKey {
        pubkey: session_pubkey,
        created_at: clock.unix_timestamp,
        expires_at,
        expiration_type,
        permissions,
        is_revoked: false,
        label: [0; 32],
    };
    user_account.session_keys.push(session_key);
    Ok(
        SessionKeyCreated {
            authority: user_account.authority,
            session_key: session_pubkey,
            expires_at,
            permissions,
        },
    )
}

} // verus!

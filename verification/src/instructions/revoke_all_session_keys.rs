use vstd::prelude::*;
use crate::events::AllSessionKeysRevoked;
use crate::instructions::revoke_session_key::revoked_key;
use crate::state::{AccountState, SessionKey, UserAccount};

verus! {

impl AccountState {
    /// Revocation of every record, those revoked before included.
    pub open spec fn revoke_all(self) -> AccountState {
        AccountState {
            session_keys: self.session_keys.map_values(|key: SessionKey| revoked_key(key)),
            ..self
        }
    }

    /// Revoking every record keeps the account's invariant.
    pub proof fn lemma_revoke_all_preserves_wf(self)
        requires
            self.wf(),
        ensures
            self.revoke_all().wf(),
    {
    }
}

/// Revoke all session keys at once (emergency function).
///
/// The notification counts every record of the registry, not only those
/// that this call revoked. The count is a 32-bit number: for an account
/// within its bounds it is the length of the registry itself.
pub fn handler(user_account: &mut UserAccount) -> (event: AllSessionKeysRevoked)
    ensures
        final(user_account)@ == old(user_account)@.revoke_all(),
        event.authority == old(user_account)@.authority,
        event.count == old(user_account)@.session_keys.len() as u32,
        old(user_account)@.session_keys.len() <= u32::MAX ==> event.count
            == old(user_account)@.session_keys.len(),
        old(user_account)@.wf() ==> final(user_account)@.wf(),
{
    let count = user_account.session_keys.len();
    let mut i: usize = 0;
    while i < count
        invariant
            i <= count,
            count == user_account.session_keys.len(),
            count == old(user_account).session_keys.len(),
            user_account.authority == old(user_account).authority,
            user_account.bump == old(user_account).bump,
            user_account.allowed_mints == old(user_account).allowed_mints,
            forall|j: int|
                0 <= j < i ==> user_account.session_keys@[j] == revoked_key(
                    old(user_account).session_keys@[j],
                ),
            forall|j: int|
                i <= j < count ==> user_account.session_keys@[j] == old(
                    user_account,
                ).session_keys@[j],
        decreases count - i,
    {
        let mut session_key = user_account.session_keys[i];
        session_key.is_revoked = true;
        user_account.session_keys.set(i, session_key);
        i += 1;
    }
    proof {
        assert(user_account.session_keys@ =~= old(user_account)@.revoke_all().session_keys);
        if old(user_account)@.wf() {
            old(user_account)@.lemma_revoke_all_preserves_wf();
        }
    }
    AllSessionKeysRevoked {
        authority: user_account.authority,
        count: #[verifier::truncate]
        (count as u32),
    }
}

} // verus!

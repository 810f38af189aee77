use vstd::prelude::*;
use crate::constants::MAX_ALLOWED_MINTS;
use crate::errors::ErrorCode;
use crate::identity::Identity;
use crate::state::{AccountState, UserAccount};

verus! {

impl AccountState {
    /// Replacement of the allowlist. The new list must fit an account.
    pub open spec fn set_allowed_mints(self, mints: Seq<Identity>) -> Result<
        AccountState,
        ErrorCode,
    > {
        if mints.len() > MAX_ALLOWED_MINTS {
            Err(ErrorCode::TooManyAllowedMints)
        } else {
            Ok(AccountState { allowed_mints: mints, ..self })
        }
    }
}

/// Set or replace the allowlist of token mints for this user account.
pub fn handler(user_account: &mut UserAccount, mints: Vec<Identity>) -> (r: Result<(), ErrorCode>)
    ensures
        match old(user_account)@.set_allowed_mints(mints@) {
            Ok(after) => final(user_account)@ == after && r == Ok::<(), ErrorCode>(()),
            Err(e) => *final(user_account) == *old(user_account) && r == Err::<(), ErrorCode>(e),
        },
        old(user_account)@.wf() ==> final(user_account)@.wf(),
{
    if mints.len() > MAX_ALLOWED_MINTS {
        return Err(ErrorCode::TooManyAllowedMints);
    }
    user_account.allowed_mints = mints;
    Ok(())
}

} // verus!

use vstd::prelude::*;
use crate::constants::MAX_ALLOWED_MINTS;
use crate::effects::SystemTransfer;
use crate::errors::ErrorCode;
use crate::identity::Identity;
use crate::state::{AccountState, UserAccount};

verus! {

/// A new account of `authority`: no session keys, the given allowlist.
pub open spec fn initial_state(authority: Identity, bump: u8, allowed_mints: Seq<Identity>) -> AccountState {
    AccountState { authority, session_keys: Seq::empty(), bump, allowed_mints }
}

/// The deposit that comes with the creation of an account: none for an
/// amount of zero.
pub open spec fn initial_deposit(
    authority: Identity,
    user_account_key: Identity,
    lamports: u64,
) -> Option<SystemTransfer> {
    if lamports > 0 {
        Some(SystemTransfer { from: authority, to: user_account_key, lamports })
    } else {
        None
    }
}

/// Initialize a user account that can hold session keys.
pub fn handler(user_account: &mut UserAccount, authority: Identity, bump: u8)
    ensures
        final(user_account)@ == initial_state(authority, bump, Seq::empty()),
        final(user_account)@.wf(),
{
    user_account.authority = authority;
    user_account.session_keys = Vec::new();
    user_account.bump = bump;
    user_account.allowed_mints = Vec::new();
}

/// Initialize with allowed mints and an initial deposit into the account.
///
/// Fails, and changes nothing, where the allowlist is longer than an account
/// has room for. On success the result names the deposit that the caller is
/// to move from the authority to the account at `user_account_key`.
pub fn handler_with_config(
    user_account: &mut UserAccount,
    user_account_key: Identity,
    authority: Identity,
    bump: u8,
    allowed_mints: Vec<Identity>,
    initial_deposit_lamports: u64,
) -> (r: Result<Option<SystemTransfer>, ErrorCode>)
    ensures
        allowed_mints@.len() > MAX_ALLOWED_MINTS ==> {
            &&& r == Err::<Option<SystemTransfer>, ErrorCode>(ErrorCode::TooManyAllowedMints)
            &&& *final(user_account) == *old(user_account)
        },
        allowed_mints@.len() <= MAX_ALLOWED_MINTS ==> {
            &&& r == Ok::<Option<SystemTransfer>, ErrorCode>(
                initial_deposit(authority, user_account_key, initial_deposit_lamports),
            )
            &&& final(user_account)@ == initial_state(authority, bump, allowed_mints@)
            &&& final(user_account)@.wf()
        },
{
    if allowed_mints.len() > MAX_ALLOWED_MINTS {
        return Err(ErrorCode::TooManyAllowedMints);
    }
    user_account.authority = authority;
    user_account.session_keys = Vec::new();
    user_account.bump = bump;
    user_account.allowed_mints = allowed_mints;
    if initial_deposit_lamports > 0 {
        Ok(
            Some(
                SystemTransfer {
                    from: authority,
                    to: user_account_key,
                    lamports: initial_deposit_lamports,
                },
            ),
        )
    } else {
        Ok(None)
    }
}

} // verus!

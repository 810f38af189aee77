use vstd::prelude::*;
use crate::delegate::{
    build_signer_seeds, delegate_address, delegate_seeds, derived_view, find_delegate_address,
    is_expected_delegate, matches_delegate, seed_bytes,
};
use crate::effects::DelegatedTransfer;
use crate::errors::ErrorCode;
use crate::identity::Identity;
use crate::state::{AccountState, Clock, UserAccount};

verus! {

impl AccountState {
    /// The session-key part of the decision on a delegated transfer: the
    /// signer's record must be present, not revoked and not expired, and a
    /// transfer of `amount` must be within its permissions.
    pub open spec fn transfer_gate(self, clock: Clock, signer: Identity, amount: u64) -> Result<
        (),
        ErrorCode,
    > {
        match self.active_key(clock, signer) {
            Err(e) => Err(e),
            Ok(key) => if key.permissions.allows_transfer(amount) {
                Ok(())
            } else {
                Err(ErrorCode::InsufficientPermissions)
            },
        }
    }

    /// The delegate part of the decision: the supplied delegate must be the
    /// expected one, and the allowlist must admit the mint. The bump seed of
    /// the delegate comes back.
    pub open spec fn delegate_gate(
        self,
        mint: Identity,
        delegate_authority: Identity,
        expected: Option<(Seq<u8>, u8)>,
    ) -> Result<u8, ErrorCode> {
        if !is_expected_delegate(expected, delegate_authority) {
            Err(ErrorCode::InsufficientPermissions)
        } else if !self.mint_allowed(mint) {
            Err(ErrorCode::MintNotAllowed)
        } else {
            Ok(expected.unwrap().1)
        }
    }

    /// The decision on a delegated transfer, session-key part first.
    pub open spec fn delegated_transfer(
        self,
        clock: Clock,
        signer: Identity,
        amount: u64,
        mint: Identity,
        delegate_authority: Identity,
        expected: Option<(Seq<u8>, u8)>,
    ) -> Result<u8, ErrorCode> {
        match self.transfer_gate(clock, signer, amount) {
            Err(e) => Err(e),
            Ok(_) => self.delegate_gate(mint, delegate_authority, expected),
        }
    }
}

/// `r` carries out the decision `decided`: the same error, or a transfer of
/// `amount` under `delegate_authority`, signed with the delegate's seeds and
/// the bump seed that was decided on.
pub open spec fn carries_out(
    r: Result<DelegatedTransfer, ErrorCode>,
    decided: Result<u8, ErrorCode>,
    user_account_key: Identity,
    mint: Identity,
    delegate_authority: Identity,
    amount: u64,
) -> bool {
    match decided {
        Ok(bump) => {
            &&& r matches Ok(transfer)
            &&& transfer.delegate == delegate_authority
            &&& transfer.amount == amount
            &&& seed_bytes(transfer.signer_seeds@) == delegate_seeds(user_account_key, mint).push(
                seq![bump],
            )
        },
        Err(e) => r == Err::<DelegatedTransfer, ErrorCode>(e),
    }
}

/// Checks the session key of a delegated transfer: present, not revoked, not
/// expired, allowed to transfer `amount`.
pub fn check_session(
    user_account: &UserAccount,
    clock: &Clock,
    session_signer: &Identity,
    amount: u64,
) -> (r: Result<(), ErrorCode>)
    ensures
        r == user_account@.transfer_gate(*clock, *session_signer, amount),
{
    match user_account.find_active_key(clock, session_signer) {
        Err(e) => Err(e),
        Ok(key) => if key.permissions.permits_transfer(amount) {
            Ok(())
        } else {
            Err(ErrorCode::InsufficientPermissions)
        },
    }
}

/// Checks the supplied delegate against the derived one and the mint against
/// the allowlist, and names the transfer to perform.
pub fn check_delegate(
    user_account: &UserAccount,
    user_account_key: &Identity,
    mint: &Identity,
    delegate_authority: &Identity,
    amount: u64,
    expected: &Option<(Identity, u8)>,
) -> (r: Result<DelegatedTransfer, ErrorCode>)
    ensures
        carries_out(
            r,
            user_account@.delegate_gate(*mint, *delegate_authority, derived_view(*expected)),
            *user_account_key,
            *mint,
            *delegate_authority,
            amount,
        ),
{
    if !matches_delegate(expected, delegate_authority) {
        return Err(ErrorCode::InsufficientPermissions);
    }
    if !user_account.is_mint_allowed(mint) {
        return Err(ErrorCode::MintNotAllowed);
    }
    let bump = match expected {
        Some((_, bump)) => *bump,
        None => 0,
    };
    Ok(
        DelegatedTransfer {
            delegate: *delegate_authority,
            signer_seeds: build_signer_seeds(user_account_key, mint, bump),
            amount,
        },
    )
}

/// Perform a token transfer using the derived delegate, gated by session key
/// time and permissions.
///
/// `user_account_key` is the address of the account itself and `program_id`
/// the program under which delegates are derived. The session key is checked
/// first; then the delegate of the account and the mint is derived and
/// compared with `delegate_authority`; then the allowlist is consulted.
pub fn handler(
    user_account: &UserAccount,
    user_account_key: &Identity,
    program_id: &Identity,
    clock: &Clock,
    session_signer: &Identity,
    mint: &Identity,
    delegate_authority: &Identity,
    amount: u64,
) -> (r: Result<DelegatedTransfer, ErrorCode>)
    ensures
        carries_out(
            r,
            user_account@.delegated_transfer(
                *clock,
                *session_signer,
                amount,
                *mint,
                *delegate_authority,
                delegate_address(*user_account_key, *mint, *program_id),
            ),
            *user_account_key,
            *mint,
            *delegate_authority,
            amount,
        ),
{
    match check_session(user_account, clock, session_signer, amount) {
        Err(e) => {
            return Err(e);
        },
        Ok(_) => {},
    }
    let expected = find_delegate_address(user_account_key, mint, program_id);
    check_delegate(user_account, user_account_key, mint, delegate_authority, amount, &expected)
}

} // verus!

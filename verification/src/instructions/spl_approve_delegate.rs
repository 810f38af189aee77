use vstd::prelude::*;
use crate::delegate::{
    delegate_address, derived_view, find_delegate_address, is_expected_delegate, matches_delegate,
};
use crate::effects::TokenApproval;
use crate::errors::ErrorCode;
use crate::identity::Identity;
use crate::state::{AccountState, TokenAccount, UserAccount};

verus! {

impl AccountState {
    /// The decision on approving a delegate. The supplied delegate must be
    /// the expected one; the token account must belong to `authority` and
    /// hold `mint`; the allowlist must admit the mint.
    pub open spec fn approve(
        self,
        authority: Identity,
        token_account: TokenAccount,
        mint: Identity,
        delegate_authority: Identity,
        expected: Option<(Seq<u8>, u8)>,
    ) -> Result<(), ErrorCode> {
        if !is_expected_delegate(expected, delegate_authority) {
            Err(ErrorCode::InsufficientPermissions)
        } else if token_account.owner != authority || token_account.mint != mint {
            Err(ErrorCode::InsufficientPermissions)
        } else if !self.mint_allowed(mint) {
            Err(ErrorCode::MintNotAllowed)
        } else {
            Ok(())
        }
    }
}

/// The approval that an admitted request leads to, or the error of a refused
/// one.
pub open spec fn approval(
    decided: Result<(), ErrorCode>,
    delegate_authority: Identity,
    amount: u64,
) -> Result<TokenApproval, ErrorCode> {
    match decided {
        Ok(_) => Ok(TokenApproval { delegate: delegate_authority, amount }),
        Err(e) => Err(e),
    }
}

/// Decides on approving `delegate_authority` for `amount`, given the
/// delegate that was derived for the account and the mint.
pub fn check_approval(
    user_account: &UserAccount,
    authority: &Identity,
    token_account: &TokenAccount,
    mint: &Identity,
    delegate_authority: &Identity,
    amount: u64,
    expected: &Option<(Identity, u8)>,
) -> (r: Result<TokenApproval, ErrorCode>)
    ensures
        r == approval(
            user_account@.approve(
                *authority,
                *token_account,
                *mint,
                *delegate_authority,
                derived_view(*expected),
            ),
            *delegate_authority,
            amount,
        ),
{
    if !matches_delegate(expected, delegate_authority) {
        return Err(ErrorCode::InsufficientPermissions);
    }
    if token_account.owner != *authority {
        return Err(ErrorCode::InsufficientPermissions);
    }
    if token_account.mint != *mint {
        return Err(ErrorCode::InsufficientPermissions);
    }
    if !user_account.is_mint_allowed(mint) {
        return Err(ErrorCode::MintNotAllowed);
    }
    Ok(TokenApproval { delegate: *delegate_authority, amount })
}

/// Approve the derived delegate for token spending. The owner must have
/// signed.
///
/// `user_account_key` is the address of the account itself and `program_id`
/// the program under which delegates are derived.
pub fn handler(
    user_account: &UserAccount,
    user_account_key: &Identity,
    program_id: &Identity,
    authority: &Identity,
    token_account: &TokenAccount,
    mint: &Identity,
    delegate_authority: &Identity,
    amount: u64,
) -> (r: Result<TokenApproval, ErrorCode>)
    ensures
        r == approval(
            user_account@.approve(
                *authority,
                *token_account,
                *mint,
                *delegate_authority,
                delegate_address(*user_account_key, *mint, *program_id),
            ),
            *delegate_authority,
            amount,
        ),
{
    let expected = find_delegate_address(user_account_key, mint, program_id);
    check_approval(
        user_account,
        authority,
        token_account,
        mint,
        delegate_authority,
        amount,
        &expected,
    )
}

} // verus!

use anchor_lang::prelude::Pubkey;
use session_keys::delegate::{
    build_delegate_seeds, build_signer_seeds, find_delegate_address, matches_delegate,
};
use session_keys::effects::{DelegatedTransfer, TokenApproval};
use session_keys::errors::ErrorCode;
use session_keys::identity::Identity;
use session_keys::instructions::spl_approve_delegate::{self as approve, check_approval};
use session_keys::instructions::spl_delegated_transfer::{
    self as delegated, check_delegate, check_session,
};
use session_keys::instructions::{create_session_key, revoke_session_key};
use session_keys::state::{
    Clock, ExpirationType, SessionPermissions, TokenAccount, UserAccount,
};

fn id(n: u8) -> Identity {
    Identity::new([n; 32])
}

const ACCOUNT_KEY: u8 = 1;
const MINT: u8 = 2;
const PROGRAM: u8 = 3;

/// The delegate of account `[1; 32]` and mint `[2; 32]` under program
/// `[3; 32]`.
fn known_delegate() -> (Identity, u8) {
    (
        Identity::new([
            91, 21, 254, 214, 96, 197, 79, 125, 71, 169, 251, 243, 103, 129, 167, 197, 210, 201,
            64, 21, 241, 76, 114, 161, 183, 9, 178, 195, 29, 20, 99, 221,
        ]),
        253,
    )
}

fn now() -> Clock {
    Clock { slot: 10, unix_timestamp: 1_000 }
}

fn account(allowed_mints: Vec<Identity>, max_transfer_amount: u64, can_transfer: bool) -> UserAccount {
    let mut account =
        UserAccount { authority: id(9), session_keys: vec![], bump: 0, allowed_mints };
    let r = create_session_key::handler(
        &mut account,
        &now(),
        id(21),
        2_000,
        ExpirationType::Time,
        SessionPermissions {
            can_transfer,
            can_delegate: false,
            can_execute_custom: false,
            max_transfer_amount,
            custom_flags: 0,
        },
    );
    assert!(r.is_ok());
    account
}

fn seeds_with_bump(bump: u8) -> Vec<Vec<u8>> {
    vec![b"delegate".to_vec(), vec![ACCOUNT_KEY; 32], vec![MINT; 32], vec![bump]]
}

#[test]
fn delegate_seeds_are_tag_account_mint() {
    assert_eq!(
        build_delegate_seeds(&id(ACCOUNT_KEY), &id(MINT)),
        vec![b"delegate".to_vec(), vec![ACCOUNT_KEY; 32], vec![MINT; 32]]
    );
    assert_eq!(build_signer_seeds(&id(ACCOUNT_KEY), &id(MINT), 253), seeds_with_bump(253));
}

#[test]
fn derived_delegate_known_answers() {
    assert_eq!(find_delegate_address(&id(1), &id(2), &id(3)), Some(known_delegate()));
    assert_eq!(
        find_delegate_address(&id(7), &id(8), &id(9)),
        Some((
            Identity::new([
                194, 173, 160, 78, 151, 202, 239, 76, 9, 246, 131, 173, 37, 140, 66, 128, 80, 222,
                218, 159, 221, 211, 239, 202, 240, 178, 167, 239, 234, 68, 195, 89,
            ]),
            255
        ))
    );
    assert_eq!(
        find_delegate_address(&id(0), &id(0), &id(0)),
        Some((
            Identity::new([
                129, 146, 117, 160, 237, 115, 190, 151, 204, 157, 105, 204, 78, 214, 85, 48, 55,
                21, 23, 176, 220, 9, 54, 114, 243, 150, 203, 234, 173, 184, 55, 174,
            ]),
            255
        ))
    );
}

#[test]
fn derived_delegate_agrees_with_the_address_derivation() {
    for (a, m, p) in [(1u8, 2u8, 3u8), (7, 8, 9), (100, 0, 255), (5, 5, 5)] {
        let program = Pubkey::new_from_array([p; 32]);
        let (address, bump) =
            Pubkey::find_program_address(&[b"delegate", &[a; 32], &[m; 32]], &program);
        assert_eq!(
            find_delegate_address(&id(a), &id(m), &id(p)),
            Some((Identity::new(address.to_bytes()), bump))
        );
        let signer = build_signer_seeds(&id(a), &id(m), bump);
        let slices: Vec<&[u8]> = signer.iter().map(|seed| seed.as_slice()).collect();
        assert_eq!(Pubkey::create_program_address(&slices, &program), Ok(address));
    }
}

#[test]
fn derived_delegate_depends_on_every_argument() {
    let base = find_delegate_address(&id(1), &id(2), &id(3));
    assert_ne!(base, find_delegate_address(&id(4), &id(2), &id(3)));
    assert_ne!(base, find_delegate_address(&id(1), &id(4), &id(3)));
    assert_ne!(base, find_delegate_address(&id(1), &id(2), &id(4)));
    assert_ne!(base.map(|found| found.0), Some(id(3)));
    assert_eq!(base, find_delegate_address(&id(1), &id(2), &id(3)));
}

#[test]
fn supplied_delegate_is_compared_with_the_derived_one() {
    let (delegate, bump) = known_delegate();
    assert!(matches_delegate(&Some((delegate, bump)), &delegate));
    assert!(matches_delegate(&Some((delegate, 0)), &delegate));
    assert!(!matches_delegate(&Some((delegate, bump)), &id(3)));
    assert!(!matches_delegate(&None, &delegate));
}

#[test]
fn approve_succeeds_for_the_derived_delegate() {
    let (delegate, _) = known_delegate();
    let owner = account(vec![], 0, true);
    let token_account = TokenAccount { owner: id(9), mint: id(MINT) };
    let r = approve::handler(
        &owner,
        &id(ACCOUNT_KEY),
        &id(PROGRAM),
        &id(9),
        &token_account,
        &id(MINT),
        &delegate,
        750,
    );
    assert_eq!(r, Ok(TokenApproval { delegate, amount: 750 }));
}

#[test]
fn approve_rejects_any_other_delegate() {
    let (delegate, _) = known_delegate();
    let owner = account(vec![], 0, true);
    let token_account = TokenAccount { owner: id(9), mint: id(MINT) };
    for wrong in [id(9), id(PROGRAM), id(ACCOUNT_KEY)] {
        let r = approve::handler(
            &owner,
            &id(ACCOUNT_KEY),
            &id(PROGRAM),
            &id(9),
            &token_account,
            &id(MINT),
            &wrong,
            750,
        );
        assert_eq!(r, Err(ErrorCode::InsufficientPermissions));
    }
    // The right delegate of another account, mint or program is wrong here.
    let r = approve::handler(
        &owner,
        &id(ACCOUNT_KEY),
        &id(PROGRAM + 1),
        &id(9),
        &token_account,
        &id(MINT),
        &delegate,
        750,
    );
    assert_eq!(r, Err(ErrorCode::InsufficientPermissions));
}

#[test]
fn approve_checks_the_token_account() {
    let expected = Some(known_delegate());
    let (delegate, _) = known_delegate();
    let owner = account(vec![], 0, true);
    let foreign = TokenAccount { owner: id(8), mint: id(MINT) };
    assert_eq!(
        check_approval(&owner, &id(9), &foreign, &id(MINT), &delegate, 1, &expected),
        Err(ErrorCode::InsufficientPermissions)
    );
    let other_mint = TokenAccount { owner: id(9), mint: id(77) };
    assert_eq!(
        check_approval(&owner, &id(9), &other_mint, &id(MINT), &delegate, 1, &expected),
        Err(ErrorCode::InsufficientPermissions)
    );
    let good = TokenAccount { owner: id(9), mint: id(MINT) };
    assert_eq!(
        check_approval(&owner, &id(9), &good, &id(MINT), &delegate, 1, &expected),
        Ok(TokenApproval { delegate, amount: 1 })
    );
    assert_eq!(
        check_approval(&owner, &id(9), &good, &id(MINT), &delegate, 1, &None),
        Err(ErrorCode::InsufficientPermissions)
    );
}

#[test]
fn approve_consults_the_allowlist_last() {
    let expected = Some(known_delegate());
    let (delegate, _) = known_delegate();
    let good = TokenAccount { owner: id(9), mint: id(MINT) };
    let listed = account(vec![id(70), id(MINT)], 0, true);
    assert!(check_approval(&listed, &id(9), &good, &id(MINT), &delegate, 1, &expected).is_ok());
    let unlisted = account(vec![id(70), id(71)], 0, true);
    assert_eq!(
        check_approval(&unlisted, &id(9), &good, &id(MINT), &delegate, 1, &expected),
        Err(ErrorCode::MintNotAllowed)
    );
    let foreign = TokenAccount { owner: id(8), mint: id(MINT) };
    assert_eq!(
        check_approval(&unlisted, &id(9), &foreign, &id(MINT), &delegate, 1, &expected),
        Err(ErrorCode::InsufficientPermissions)
    );
    assert_eq!(
        check_approval(&unlisted, &id(9), &good, &id(MINT), &id(5), 1, &expected),
        Err(ErrorCode::InsufficientPermissions)
    );
}

#[test]
fn empty_allowlist_admits_every_mint() {
    let open = account(vec![], 0, true);
    for mint in [0u8, 1, 2, 200, 255] {
        assert!(open.is_mint_allowed(&id(mint)));
    }
    let closed = account(vec![id(70), id(71)], 0, true);
    assert!(closed.is_mint_allowed(&id(70)));
    assert!(closed.is_mint_allowed(&id(71)));
    assert!(!closed.is_mint_allowed(&id(72)));
    assert!(!closed.is_mint_allowed(&id(MINT)));
}

#[test]
fn allowlist_does_not_look_at_session_keys() {
    let mut with_keys = account(vec![id(70)], 5, false);
    let bare = UserAccount {
        authority: id(9),
        session_keys: vec![],
        bump: 0,
        allowed_mints: vec![id(70)],
    };
    assert!(revoke_session_key::handler(&mut with_keys, id(21)).is_ok());
    for mint in [70u8, 71] {
        assert_eq!(with_keys.is_mint_allowed(&id(mint)), bare.is_mint_allowed(&id(mint)));
    }
}

#[test]
fn delegated_transfer_succeeds_and_signs_with_the_delegate_seeds() {
    let (delegate, bump) = known_delegate();
    let owner = account(vec![id(MINT)], 500, true);
    let r = delegated::handler(
        &owner,
        &id(ACCOUNT_KEY),
        &id(PROGRAM),
        &now(),
        &id(21),
        &id(MINT),
        &delegate,
        500,
    );
    assert_eq!(
        r,
        Ok(DelegatedTransfer { delegate, signer_seeds: seeds_with_bump(bump), amount: 500 })
    );
}

#[test]
fn delegated_transfer_session_checks() {
    let (delegate, _) = known_delegate();
    let run = |owner: &UserAccount, clock: Clock, signer: u8, amount: u64| {
        delegated::handler(
            owner,
            &id(ACCOUNT_KEY),
            &id(PROGRAM),
            &clock,
            &id(signer),
            &id(MINT),
            &delegate,
            amount,
        )
    };
    let mut owner = account(vec![], 500, true);
    assert_eq!(run(&owner, now(), 22, 1), Err(ErrorCode::SessionKeyNotFound));
    assert_eq!(run(&owner, now(), 21, 501), Err(ErrorCode::InsufficientPermissions));
    assert!(run(&owner, now(), 21, 500).is_ok());
    let late = Clock { slot: 10, unix_timestamp: 2_000 };
    assert_eq!(run(&owner, late, 21, 1), Err(ErrorCode::SessionKeyExpired));
    assert!(revoke_session_key::handler(&mut owner, id(21)).is_ok());
    assert_eq!(run(&owner, now(), 21, 1), Err(ErrorCode::SessionKeyRevoked));
    assert_eq!(run(&owner, late, 21, 1), Err(ErrorCode::SessionKeyRevoked));
    let no_transfer = account(vec![], 0, false);
    assert_eq!(run(&no_transfer, now(), 21, 1), Err(ErrorCode::InsufficientPermissions));
}

#[test]
fn delegated_transfer_rejects_a_wrong_delegate() {
    let owner = account(vec![], 0, true);
    let r = delegated::handler(
        &owner,
        &id(ACCOUNT_KEY),
        &id(PROGRAM),
        &now(),
        &id(21),
        &id(MINT),
        &id(9),
        1,
    );
    assert_eq!(r, Err(ErrorCode::InsufficientPermissions));
    // A wrong delegate is refused before the allowlist is consulted.
    let closed = account(vec![id(70)], 0, true);
    let r = delegated::handler(
        &closed,
        &id(ACCOUNT_KEY),
        &id(PROGRAM),
        &now(),
        &id(21),
        &id(MINT),
        &id(9),
        1,
    );
    assert_eq!(r, Err(ErrorCode::InsufficientPermissions));
}

#[test]
fn delegated_transfer_checks_the_mint_after_the_session_key() {
    let (delegate, _) = known_delegate();
    let closed = account(vec![id(70)], 100, true);
    let run = |amount: u64| {
        delegated::handler(
            &closed,
            &id(ACCOUNT_KEY),
            &id(PROGRAM),
            &now(),
            &id(21),
            &id(MINT),
            &delegate,
            amount,
        )
    };
    assert_eq!(run(100), Err(ErrorCode::MintNotAllowed));
    assert_eq!(run(101), Err(ErrorCode::InsufficientPermissions));
}

#[test]
fn session_and_delegate_checks_on_their_own() {
    let owner = account(vec![id(MINT)], 10, true);
    assert_eq!(check_session(&owner, &now(), &id(21), 10), Ok(()));
    assert_eq!(
        check_session(&owner, &now(), &id(21), 11),
        Err(ErrorCode::InsufficientPermissions)
    );
    assert_eq!(check_session(&owner, &now(), &id(22), 1), Err(ErrorCode::SessionKeyNotFound));

    let expected = Some((id(40), 17));
    assert_eq!(
        check_delegate(&owner, &id(ACCOUNT_KEY), &id(MINT), &id(40), 3, &expected),
        Ok(DelegatedTransfer { delegate: id(40), signer_seeds: seeds_with_bump(17), amount: 3 })
    );
    assert_eq!(
        check_delegate(&owner, &id(ACCOUNT_KEY), &id(MINT), &id(41), 3, &expected),
        Err(ErrorCode::InsufficientPermissions)
    );
    assert_eq!(
        check_delegate(&owner, &id(ACCOUNT_KEY), &id(MINT), &id(40), 3, &None),
        Err(ErrorCode::InsufficientPermissions)
    );
    assert_eq!(
        check_delegate(&owner, &id(ACCOUNT_KEY), &id(71), &id(40), 3, &expected),
        Err(ErrorCode::MintNotAllowed)
    );
}

//! Laws that relate the operations to one another. Each is stated over the
//! same models that the contracts of the operations use.

use vstd::prelude::*;
use crate::constants::{MAX_ALLOWED_MINTS, MAX_SESSION_KEYS};
use crate::errors::ErrorCode;
use crate::identity::Identity;
use crate::instructions::execute_with_session_key::TransferAccounts;
use crate::delegate::is_expected_delegate;
use crate::effects::SystemTransfer;
use crate::state::{
    find_key, is_first_match, lemma_find_key, lemma_find_key_is, AccountState, Clock, ExpirationType,
    SessionAction, SessionKey, SessionPermissions, TokenAccount,
};

verus! {

/// A request that can change an account.
pub enum Operation {
    Create {
        clock: Clock,
        session_pubkey: Identity,
        expires_at: i64,
        expiration_type: ExpirationType,
        permissions: SessionPermissions,
    },
    Update {
        clock: Clock,
        session_pubkey: Identity,
        new_expires_at: Option<i64>,
        new_permissions: Option<SessionPermissions>,
    },
    Revoke { session_pubkey: Identity },
    RevokeAll,
    Cleanup { clock: Clock },
    UpdateAllowedMints { mints: Seq<Identity> },
}

impl AccountState {
    /// The account after one request: changed as the operation says where
    /// the request is admitted, untouched where it is refused.
    pub open spec fn apply(self, op: Operation) -> AccountState {
        match op {
            Operation::Create {
                clock,
                session_pubkey,
                expires_at,
                expiration_type,
                permissions,
            } => match self.create(clock, session_pubkey, expires_at, expiration_type, permissions) {
                Ok(after) => after,
                Err(_) => self,
            },
            Operation::Update {
                clock,
                session_pubkey,
                new_expires_at,
                new_permissions,
            } => match self.update(clock, session_pubkey, new_expires_at, new_permissions) {
                Ok(after) => after,
                Err(_) => self,
            },
            Operation::Revoke { session_pubkey } => match self.revoke(session_pubkey) {
                Ok(after) => after,
                Err(_) => self,
            },
            Operation::RevokeAll => self.revoke_all(),
            Operation::Cleanup { clock } => self.prune(clock),
            Operation::UpdateAllowedMints { mints } => match self.set_allowed_mints(mints) {
                Ok(after) => after,
                Err(_) => self,
            },
        }
    }

    /// The account after a sequence of requests, taken in order.
    pub open spec fn apply_all(self, ops: Seq<Operation>) -> AccountState
        decreases ops.len(),
    {
        if ops.len() == 0 {
            self
        } else {
            self.apply_all(ops.drop_last()).apply(ops.last())
        }
    }
}

/// One request, admitted or refused, keeps the account's invariant.
pub proof fn lemma_apply_preserves_wf(state: AccountState, op: Operation)
    requires
        state.wf(),
    ensures
        state.apply(op).wf(),
{
    match op {
        Operation::Create { clock, session_pubkey, expires_at, expiration_type, permissions } => {
            state.lemma_create_preserves_wf(
                clock,
                session_pubkey,
                expires_at,
                expiration_type,
                permissions,
            );
        },
        Operation::Update { clock, session_pubkey, new_expires_at, new_permissions } => {
            state.lemma_update_preserves_wf(clock, session_pubkey, new_expires_at, new_permissions);
        },
        Operation::Revoke { session_pubkey } => {
            state.lemma_revoke_preserves_wf(session_pubkey);
        },
        Operation::RevokeAll => {
            state.lemma_revoke_all_preserves_wf();
        },
        Operation::Cleanup { clock } => {
            state.lemma_prune_preserves_wf(clock);
        },
        Operation::UpdateAllowedMints { mints } => {},
    }
}

/// After any sequence of requests an account that started within its bounds
/// still holds at most `MAX_SESSION_KEYS` session keys and at most
/// `MAX_ALLOWED_MINTS` mints, and no identity twice.
pub proof fn lemma_bounds_hold_after_any_sequence(state: AccountState, ops: Seq<Operation>)
    requires
        state.wf(),
    ensures
        state.apply_all(ops).wf(),
        state.apply_all(ops).session_keys.len() <= MAX_SESSION_KEYS,
        state.apply_all(ops).allowed_mints.len() <= MAX_ALLOWED_MINTS,
    decreases ops.len(),
{
    if ops.len() > 0 {
        lemma_bounds_hold_after_any_sequence(state, ops.drop_last());
        lemma_apply_preserves_wf(state.apply_all(ops.drop_last()), ops.last());
    }
}

/// No sequence of requests changes who owns an account.
pub proof fn lemma_authority_is_fixed(state: AccountState, ops: Seq<Operation>)
    ensures
        state.apply_all(ops).authority == state.authority,
        state.apply_all(ops).bump == state.bump,
    decreases ops.len(),
{
    if ops.len() > 0 {
        lemma_authority_is_fixed(state, ops.drop_last());
    }
}

/// A registry at capacity refuses every creation whose expiry is acceptable
/// with `TooManySessionKeys`, whatever the identity.
pub proof fn lemma_create_refused_when_full(
    state: AccountState,
    clock: Clock,
    session_pubkey: Identity,
    expires_at: i64,
    expiration_type: ExpirationType,
    permissions: SessionPermissions,
)
    requires
        state.session_keys.len() >= MAX_SESSION_KEYS,
        expires_at > clock.reference(expiration_type),
    ensures
        state.create(clock, session_pubkey, expires_at, expiration_type, permissions) == Err::<
            AccountState,
            ErrorCode,
        >(ErrorCode::TooManySessionKeys),
{
}

/// An identity that some record holds cannot be created again, whether that
/// record is revoked, expired or neither: with room in the registry and an
/// acceptable expiry the refusal is `SessionKeyAlreadyExists`.
pub proof fn lemma_create_refused_for_present_identity(
    state: AccountState,
    clock: Clock,
    i: int,
    expires_at: i64,
    expiration_type: ExpirationType,
    permissions: SessionPermissions,
)
    requires
        0 <= i < state.session_keys.len(),
        state.session_keys.len() < MAX_SESSION_KEYS,
        expires_at > clock.reference(expiration_type),
    ensures
        state.create(
            clock,
            state.session_keys[i].pubkey,
            expires_at,
            expiration_type,
            permissions,
        ) == Err::<AccountState, ErrorCode>(ErrorCode::SessionKeyAlreadyExists),
{
    lemma_find_key(state.session_keys, state.session_keys[i].pubkey);
}

/// The operation removes no record and moves none.
pub open spec fn keeps_records(op: Operation) -> bool {
    !(op is Cleanup)
}

/// A request that is not a cleanup leaves every record in its place, with
/// its identity, its creation time, its expiration type and its label, and
/// never clears a revocation flag. A revoked record is not changed at all.
pub proof fn lemma_apply_keeps_records(state: AccountState, op: Operation, i: int)
    requires
        keeps_records(op),
        0 <= i < state.session_keys.len(),
    ensures
        i < state.apply(op).session_keys.len(),
        state.apply(op).session_keys[i].pubkey == state.session_keys[i].pubkey,
        state.apply(op).session_keys[i].created_at == state.session_keys[i].created_at,
        state.apply(op).session_keys[i].expiration_type == state.session_keys[i].expiration_type,
        state.apply(op).session_keys[i].label == state.session_keys[i].label,
        state.session_keys[i].is_revoked ==> state.apply(op).session_keys[i]
            == state.session_keys[i],
{
    match op {
        Operation::Update { session_pubkey, .. } => {
            lemma_find_key(state.session_keys, session_pubkey);
        },
        Operation::Revoke { session_pubkey } => {
            lemma_find_key(state.session_keys, session_pubkey);
        },
        _ => {},
    }
}

/// Once a record is revoked, no sequence of creations, updates and
/// revocations brings it back: the record stays where it is, unchanged.
pub proof fn lemma_revocation_is_permanent(state: AccountState, ops: Seq<Operation>, i: int)
    requires
        forall|k: int| 0 <= k < ops.len() ==> keeps_records(#[trigger] ops[k]),
        0 <= i < state.session_keys.len(),
        state.session_keys[i].is_revoked,
    ensures
        i < state.apply_all(ops).session_keys.len(),
        state.apply_all(ops).session_keys[i] == state.session_keys[i],
    decreases ops.len(),
{
    if ops.len() > 0 {
        let before = ops.drop_last();
        assert forall|k: int| 0 <= k < before.len() implies keeps_records(#[trigger] before[k]) by {
            assert(before[k] == ops[k]);
        }
        lemma_revocation_is_permanent(state, before, i);
        lemma_apply_keeps_records(state.apply_all(before), ops.last(), i);
    }
}

/// Revoking a key a second time is refused with `SessionKeyAlreadyRevoked`.
pub proof fn lemma_second_revocation_refused(state: AccountState, session_pubkey: Identity)
    ensures
        state.revoke(session_pubkey) matches Ok(after) ==> after.revoke(session_pubkey) == Err::<
            AccountState,
            ErrorCode,
        >(ErrorCode::SessionKeyAlreadyRevoked),
{
    lemma_find_key(state.session_keys, session_pubkey);
    if let Ok(after) = state.revoke(session_pubkey) {
        let i = find_key(state.session_keys, session_pubkey).unwrap();
        assert(is_first_match(after.session_keys, session_pubkey, i));
        lemma_find_key_is(after.session_keys, session_pubkey, i);
    }
}

/// Validity depends on the revocation flag, the threshold, its type and the
/// clock, and on nothing else: a key is valid exactly when it is not revoked
/// and its threshold lies strictly after the current reference.
pub proof fn lemma_validity_is_a_function(a: SessionKey, b: SessionKey, clock: Clock)
    requires
        a.is_revoked == b.is_revoked,
        a.expires_at == b.expires_at,
        a.expiration_type == b.expiration_type,
    ensures
        a.valid(clock) == b.valid(clock),
        a.valid(clock) == (!a.is_revoked && a.expires_at > clock.reference(a.expiration_type)),
{
}

/// `at` lists, in rising order, the positions in `keys` of the records of
/// `kept`.
pub open spec fn selects(kept: Seq<SessionKey>, keys: Seq<SessionKey>, at: Seq<int>) -> bool {
    &&& at.len() == kept.len()
    &&& forall|i: int| 0 <= i < at.len() ==> 0 <= #[trigger] at[i] < keys.len() && keys[at[i]] == kept[i]
    &&& forall|i: int, j: int| 0 <= i < j < at.len() ==> #[trigger] at[i] < #[trigger] at[j]
}

/// Pruning removes exactly the records that are not valid and keeps the
/// others in their order: the records that remain sit at rising positions of
/// the old registry, and those positions are the positions of the valid
/// records.
pub proof fn lemma_prune_removes_exactly_the_invalid(state: AccountState, clock: Clock) -> (at: Seq<
    int,
>)
    ensures
        selects(state.prune(clock).session_keys, state.session_keys, at),
        forall|j: int|
            0 <= j < state.session_keys.len() ==> (at.contains(j) <==> (
            #[trigger] state.session_keys[j]).valid(clock)),
{
    lemma_filter_selects(state.session_keys, clock)
}

proof fn lemma_filter_selects(keys: Seq<SessionKey>, clock: Clock) -> (at: Seq<int>)
    ensures
        selects(keys.filter(|key: SessionKey| key.valid(clock)), keys, at),
        forall|j: int|
            0 <= j < keys.len() ==> (at.contains(j) <==> (#[trigger] keys[j]).valid(clock)),
    decreases keys.len(),
{
    reveal(Seq::filter);
    let pred = |key: SessionKey| key.valid(clock);
    if keys.len() == 0 {
        Seq::empty()
    } else {
        let rest = keys.drop_last();
        let last = keys.last();
        let before = lemma_filter_selects(rest, clock);
        let n = keys.len() - 1;
        assert forall|j: int| 0 <= j < n implies rest[j] == keys[j] by {}
        if pred(last) {
            let at = before.push(n);
            let kept = rest.filter(pred).push(last);
            assert forall|j: int| 0 <= j < keys.len() implies (at.contains(j) <==> (
            #[trigger] keys[j]).valid(clock)) by {
                if j == n {
                    assert(at[at.len() - 1] == j);
                } else {
                    assert(rest[j] == keys[j]);
                    if before.contains(j) {
                        let w = choose|w: int| 0 <= w < before.len() && before[w] == j;
                        assert(at[w] == j);
                    }
                    if at.contains(j) {
                        let w = choose|w: int| 0 <= w < at.len() && at[w] == j;
                        assert(before[w] == j);
                    }
                }
            }
            at
        } else {
            assert forall|j: int| 0 <= j < keys.len() implies (before.contains(j) <==> (
            #[trigger] keys[j]).valid(clock)) by {
                if j == n {
                    if before.contains(j) {
                        let w = choose|w: int| 0 <= w < before.len() && before[w] == j;
                    }
                } else {
                    assert(rest[j] == keys[j]);
                }
            }
            before
        }
    }
}

/// Pruning twice at the same clock is pruning once: the second pass finds
/// nothing to remove.
pub proof fn lemma_prune_is_idempotent(state: AccountState, clock: Clock)
    ensures
        state.prune(clock).prune(clock) == state.prune(clock),
        state.prune(clock).prune(clock).session_keys.len() == state.prune(clock).session_keys.len(),
{
    let pred = |key: SessionKey| key.valid(clock);
    let once = state.session_keys.filter(pred);
    lemma_filter_of_all(once, pred, state.session_keys);
}

proof fn lemma_filter_of_all(kept: Seq<SessionKey>, pred: spec_fn(SessionKey) -> bool, keys: Seq<SessionKey>)
    requires
        kept == keys.filter(pred),
    ensures
        kept.filter(pred) == kept,
{
    assert forall|i: int| 0 <= i < kept.len() implies pred(#[trigger] kept[i]) by {
        keys.lemma_filter_pred(pred, i);
    }
    lemma_filter_keeps_all(kept, pred);
}

proof fn lemma_filter_keeps_all(keys: Seq<SessionKey>, pred: spec_fn(SessionKey) -> bool)
    requires
        forall|i: int| 0 <= i < keys.len() ==> pred(#[trigger] keys[i]),
    ensures
        keys.filter(pred) == keys,
    decreases keys.len(),
{
    reveal(Seq::filter);
    if keys.len() > 0 {
        let rest = keys.drop_last();
        assert forall|i: int| 0 <= i < rest.len() implies pred(#[trigger] rest[i]) by {
            assert(rest[i] == keys[i]);
        }
        lemma_filter_keeps_all(rest, pred);
        assert(rest.push(keys.last()) =~= keys);
    }
}

/// A key without the transfer permission cannot transfer, whatever the
/// amount: once the key is found active, the request is refused with
/// `InsufficientPermissions`.
pub proof fn lemma_transfer_needs_permission(
    state: AccountState,
    clock: Clock,
    signer: Identity,
    recipient: Identity,
    amount: u64,
    accounts: TransferAccounts,
)
    requires
        state.active_key(clock, signer) matches Ok(key) && !key.permissions.can_transfer,
    ensures
        state.execute(clock, signer, SessionAction::Transfer { recipient, amount }, accounts)
            == Err::<Option<SystemTransfer>, ErrorCode>(
            ErrorCode::InsufficientPermissions,
        ),
        state.transfer_gate(clock, signer, amount) == Err::<(), ErrorCode>(
            ErrorCode::InsufficientPermissions,
        ),
{
}

/// The cap on a transfer is inclusive, and a cap of zero is no cap.
pub proof fn lemma_transfer_cap(permissions: SessionPermissions, amount: u64)
    requires
        permissions.can_transfer,
    ensures
        permissions.max_transfer_amount == 0 ==> permissions.allows_transfer(amount),
        permissions.max_transfer_amount > 0 ==> (permissions.allows_transfer(amount) <==> amount
            <= permissions.max_transfer_amount),
{
}

/// A revoked key is reported as revoked, never as expired, whether or not
/// its threshold has been reached.
pub proof fn lemma_revoked_before_expired(state: AccountState, clock: Clock, signer: Identity)
    requires
        find_key(state.session_keys, signer) matches Some(i) && state.session_keys[i].is_revoked,
    ensures
        state.active_key(clock, signer) == Err::<SessionKey, ErrorCode>(
            ErrorCode::SessionKeyRevoked,
        ),
{
}

/// An empty allowlist admits every mint; a list with entries admits the
/// mints it lists and no others. The session keys have no part in it.
pub proof fn lemma_mint_allowlist(state: AccountState, other: AccountState, mint: Identity)
    requires
        state.allowed_mints == other.allowed_mints,
    ensures
        state.allowed_mints.len() == 0 ==> state.mint_allowed(mint),
        state.allowed_mints.len() > 0 ==> (state.mint_allowed(mint) <==> exists|i: int|
            0 <= i < state.allowed_mints.len() && state.allowed_mints[i] == mint),
        state.mint_allowed(mint) == other.mint_allowed(mint),
{
}

/// With the right delegate, the allowlist alone decides the delegate part
/// of a transfer: a mint that it does not admit is refused with
/// `MintNotAllowed`, and one that it admits passes.
pub proof fn lemma_mint_decides_after_delegate(
    state: AccountState,
    mint: Identity,
    delegate_authority: Identity,
    expected: Option<(Seq<u8>, u8)>,
)
    requires
        is_expected_delegate(expected, delegate_authority),
    ensures
        !state.mint_allowed(mint) ==> state.delegate_gate(mint, delegate_authority, expected)
            == Err::<u8, ErrorCode>(ErrorCode::MintNotAllowed),
        state.mint_allowed(mint) ==> state.delegate_gate(mint, delegate_authority, expected) is Ok,
{
}

/// A supplied delegate that is not the derived one is always refused. An
/// approval fails with `InsufficientPermissions`; so does a delegated
/// transfer whose session key passes its own checks, and one whose session
/// key does not pass fails with the error of that check. Either way nothing
/// is handed to the token program.
pub proof fn lemma_wrong_delegate_is_refused(
    state: AccountState,
    clock: Clock,
    signer: Identity,
    amount: u64,
    authority: Identity,
    token_account: TokenAccount,
    mint: Identity,
    delegate_authority: Identity,
    expected: Option<(Seq<u8>, u8)>,
)
    requires
        !is_expected_delegate(expected, delegate_authority),
    ensures
        state.approve(authority, token_account, mint, delegate_authority, expected) == Err::<
            (),
            ErrorCode,
        >(ErrorCode::InsufficientPermissions),
        state.delegated_transfer(clock, signer, amount, mint, delegate_authority, expected) is Err,
        state.transfer_gate(clock, signer, amount) is Ok ==> state.delegated_transfer(
            clock,
            signer,
            amount,
            mint,
            delegate_authority,
            expected,
        ) == Err::<u8, ErrorCode>(ErrorCode::InsufficientPermissions),
{
}

} // verus!

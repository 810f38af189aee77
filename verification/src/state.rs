use vstd::prelude::*;
use crate::constants::{MAX_ALLOWED_MINTS, MAX_SESSION_KEYS, SESSION_KEY_SIZE};
use crate::errors::ErrorCode;
use crate::identity::Identity;

verus! {

/// The current time and height, as the host reports them.
#[derive(Clone, Copy, Debug, PartialEq, Eq)]
pub struct Clock {
    /// Current height (slot number).
    pub slot: u64,
    /// Current Unix timestamp.
    pub unix_timestamp: i64,
}

/// Expiration type for session keys: either time-based or height-based.
#[derive(Clone, Copy, Debug, PartialEq, Eq, Structural)]
pub enum ExpirationType {
    /// Expires at a specific Unix timestamp.
    Time,
    /// Expires at a specific block height (slot number).
    BlockHeight,
}

impl Clock {
    /// The value that a threshold of the given type is compared with.
    pub open spec fn reference(self, expiration_type: ExpirationType) -> int {
        match expiration_type {
            ExpirationType::Time => self.unix_timestamp as int,
            ExpirationType::BlockHeight => self.slot as int,
        }
    }

    /// Whether the clock has reached `threshold`. A threshold equal to the
    /// current reference counts as reached.
    pub fn has_reached(&self, threshold: i64, expiration_type: ExpirationType) -> (r: bool)
        ensures
            r == (threshold <= self.reference(expiration_type)),
    {
        match expiration_type {
            ExpirationType::Time => threshold <= self.unix_timestamp,
            ExpirationType::BlockHeight => threshold < 0 || threshold as u64 <= self.slot,
        }
    }
}

/// What a session key may do.
#[derive(Clone, Copy, Debug, PartialEq, Eq)]
pub struct SessionPermissions {
    /// Can transfer value.
    pub can_transfer: bool,
    /// Can delegate to other session keys.
    pub can_delegate: bool,
    /// Can execute custom actions.
    pub can_execute_custom: bool,
    /// Maximum amount of a single transfer (0 = unlimited).
    pub max_transfer_amount: u64,
    /// Reserved permission flags; not interpreted.
    pub custom_flags: u32,
}

impl Default for SessionPermissions {
    fn default() -> (r: SessionPermissions)
        ensures
            !r.can_transfer,
            !r.can_delegate,
            !r.can_execute_custom,
            r.max_transfer_amount == 0,
            r.custom_flags == 0,
    {
        SessionPermissions {
            can_transfer: false,
            can_delegate: false,
            can_execute_custom: false,
            max_transfer_amount: 0,
            custom_flags: 0,
        }
    }
}

/// A scoped, expiring, revocable credential issued by the owner.
#[derive(Clone, Copy, Debug, PartialEq, Eq)]
pub struct SessionKey {
    /// Identity of the session key.
    pub pubkey: Identity,
    /// Unix timestamp when the key was created.
    pub created_at: i64,
    /// Expiration threshold: a timestamp or a height, by `expiration_type`.
    pub expires_at: i64,
    /// Type of expiration.
    pub expiration_type: ExpirationType,
    /// Permissions granted to this session key.
    pub permissions: SessionPermissions,
    /// Whether the key has been revoked.
    pub is_revoked: bool,
    /// Caller-assigned label; not interpreted.
    pub label: [u8; 32],
}

impl SessionKey {
    /// The key's threshold has been reached.
    pub open spec fn expired(self, clock: Clock) -> bool {
        self.expires_at <= clock.reference(self.expiration_type)
    }

    /// The key is neither revoked nor expired.
    pub open spec fn valid(self, clock: Clock) -> bool {
        !self.is_revoked && !self.expired(clock)
    }

    /// Check if the session key is expired based on its expiration type.
    pub fn is_expired(&self, clock: &Clock) -> (r: bool)
        ensures
            r == self.expired(*clock),
    {
        clock.has_reached(self.expires_at, self.expiration_type)
    }

    /// Check if the session key is valid (not revoked and not expired).
    pub fn is_valid(&self, clock: &Clock) -> (r: bool)
        ensures
            r == self.valid(*clock),
            r == (!self.is_revoked && self.expires_at > clock.reference(self.expiration_type)),
    {
        !self.is_revoked && !self.is_expired(clock)
    }
}

/// The label of a key that nobody has named: 32 zero bytes.
pub open spec fn empty_label() -> [u8; 32] {
    vstd::array::spec_array_fill_for_copy_type::<u8, 32>(0u8)
}

/// Every byte of the empty label is zero.
pub proof fn lemma_empty_label()
    ensures
        empty_label()@ == Seq::new(32, |i: int| 0u8),
{
    vstd::array::axiom_spec_array_fill_for_copy_type::<u8, 32>(0u8);
    assert(empty_label()@ =~= Seq::new(32, |i: int| 0u8));
}

impl SessionPermissions {
    /// A transfer of `amount` is within these permissions: transfers are
    /// allowed, and the cap is either absent (0) or not exceeded.
    pub open spec fn allows_transfer(self, amount: u64) -> bool {
        self.can_transfer && (self.max_transfer_amount == 0 || amount <= self.max_transfer_amount)
    }

    /// The requested action is within these permissions.
    pub open spec fn allows(self, action: SessionAction) -> bool {
        match action {
            SessionAction::Transfer { amount, .. } => self.allows_transfer(amount),
            SessionAction::Delegate { .. } => self.can_delegate,
            SessionAction::Custom { .. } => self.can_execute_custom,
        }
    }

    /// Decides whether a transfer of `amount` is permitted.
    pub fn permits_transfer(&self, amount: u64) -> (r: bool)
        ensures
            r == self.allows_transfer(amount),
            !self.can_transfer ==> !r,
            self.can_transfer && self.max_transfer_amount == 0 ==> r,
    {
        if !self.can_transfer {
            return false;
        }
        if self.max_transfer_amount > 0 {
            amount <= self.max_transfer_amount
        } else {
            true
        }
    }

    /// Decides whether the requested action is permitted.
    pub fn permits(&self, action: &SessionAction) -> (r: bool)
        ensures
            r == self.allows(*action),
    {
        match action {
            SessionAction::Transfer { amount, .. } => self.permits_transfer(*amount),
            SessionAction::Delegate { .. } => self.can_delegate,
            SessionAction::Custom { .. } => self.can_execute_custom,
        }
    }
}

/// An action that a session key asks to perform on the owner's behalf.
#[derive(Clone, Debug, PartialEq, Eq)]
pub enum SessionAction {
    /// Move `amount` from the owner to `recipient`.
    Transfer { recipient: Identity, amount: u64 },
    /// Delegate to a further session key.
    Delegate { new_key_identity: Identity, permissions: SessionPermissions },
    /// Run a custom action against `target_identity`.
    Custom { target_identity: Identity, payload: Vec<u8> },
}

/// What the engine reads of a token account.
#[derive(Clone, Copy, Debug, PartialEq, Eq)]
pub struct TokenAccount {
    /// The identity recorded as the account's owner.
    pub owner: Identity,
    /// The mint whose tokens the account holds.
    pub mint: Identity,
}

/// One owner's account: the session keys it has issued and its mint allowlist.
#[derive(Clone, Debug, PartialEq, Eq)]
pub struct UserAccount {
    /// The main authority that owns this account.
    pub authority: Identity,
    /// Session keys, in the order in which they were created.
    pub session_keys: Vec<SessionKey>,
    /// Bump seed of the account's own address.
    pub bump: u8,
    /// Allowlist of token mints for delegated transfers. Empty = allow any.
    pub allowed_mints: Vec<Identity>,
}

/// The mathematical content of a `UserAccount`.
pub struct AccountState {
    pub authority: Identity,
    pub session_keys: Seq<SessionKey>,
    pub bump: u8,
    pub allowed_mints: Seq<Identity>,
}

impl View for UserAccount {
    type V = AccountState;

    open spec fn view(&self) -> AccountState {
        AccountState {
            authority: self.authority,
            session_keys: self.session_keys@,
            bump: self.bump,
            allowed_mints: self.allowed_mints@,
        }
    }
}

/// `i` is the position of the first record in `keys` that belongs to `pubkey`.
pub open spec fn is_first_match(keys: Seq<SessionKey>, pubkey: Identity, i: int) -> bool {
    &&& 0 <= i < keys.len()
    &&& keys[i].pubkey == pubkey
    &&& forall|j: int| 0 <= j < i ==> (#[trigger] keys[j]).pubkey != pubkey
}

/// The position of the first record in `keys` that belongs to `pubkey`.
pub open spec fn find_key(keys: Seq<SessionKey>, pubkey: Identity) -> Option<int> {
    if exists|i: int| is_first_match(keys, pubkey, i) {
        Some(choose|i: int| is_first_match(keys, pubkey, i))
    } else {
        None
    }
}

/// The first match is the only position that `find_key` can give.
pub proof fn lemma_find_key_is(keys: Seq<SessionKey>, pubkey: Identity, i: int)
    requires
        is_first_match(keys, pubkey, i),
    ensures
        find_key(keys, pubkey) == Some(i),
{
    let c = choose|c: int| is_first_match(keys, pubkey, c);
    assert(is_first_match(keys, pubkey, c));
    if c < i {
        assert(keys[c].pubkey != pubkey);
    }
    if i < c {
        assert(keys[i].pubkey != pubkey);
    }
}

/// What `find_key` gives: nothing exactly when no record belongs to
/// `pubkey`, and the first match otherwise.
pub proof fn lemma_find_key(keys: Seq<SessionKey>, pubkey: Identity)
    ensures
        find_key(keys, pubkey) is None <==> forall|j: int|
            0 <= j < keys.len() ==> (#[trigger] keys[j]).pubkey != pubkey,
        find_key(keys, pubkey) matches Some(i) ==> is_first_match(keys, pubkey, i),
{
    if exists|j: int| 0 <= j < keys.len() && (#[trigger] keys[j]).pubkey == pubkey {
        let j = choose|j: int| 0 <= j < keys.len() && (#[trigger] keys[j]).pubkey == pubkey;
        lemma_first_match_exists(keys, pubkey, j);
    }
}

/// Below any match there is a first match.
proof fn lemma_first_match_exists(keys: Seq<SessionKey>, pubkey: Identity, j: int)
    requires
        0 <= j < keys.len(),
        keys[j].pubkey == pubkey,
    ensures
        exists|i: int| is_first_match(keys, pubkey, i),
    decreases j,
{
    if forall|k: int| 0 <= k < j ==> (#[trigger] keys[k]).pubkey != pubkey {
        assert(is_first_match(keys, pubkey, j));
    } else {
        let k = choose|k: int| 0 <= k < j && (#[trigger] keys[k]).pubkey == pubkey;
        lemma_first_match_exists(keys, pubkey, k);
    }
}

/// The identities of `keys` are pairwise different.
pub open spec fn distinct(keys: Seq<SessionKey>) -> bool {
    forall|i: int, j: int|
        0 <= i < j < keys.len() ==> (#[trigger] keys[i]).pubkey != (#[trigger] keys[j]).pubkey
}

impl AccountState {
    /// The account's invariant: both collections are within their bounds and
    /// no identity occurs twice among the session keys.
    pub open spec fn wf(self) -> bool {
        &&& self.session_keys.len() <= MAX_SESSION_KEYS
        &&& self.allowed_mints.len() <= MAX_ALLOWED_MINTS
        &&& distinct(self.session_keys)
    }

    /// Some record belongs to `pubkey`.
    pub open spec fn has_key(self, pubkey: Identity) -> bool {
        find_key(self.session_keys, pubkey) is Some
    }

    /// The record of `pubkey`: the first that belongs to it.
    pub open spec fn record(self, pubkey: Identity) -> SessionKey
        recommends
            self.has_key(pubkey),
    {
        self.session_keys[find_key(self.session_keys, pubkey).unwrap()]
    }

    /// The allowlist admits `mint`: it is empty, or it lists the mint.
    pub open spec fn mint_allowed(self, mint: Identity) -> bool {
        self.allowed_mints.len() == 0 || self.allowed_mints.contains(mint)
    }

    /// The record that a session key may act under: the first record of
    /// `signer`, provided that it is neither revoked nor expired. A revoked
    /// key is reported as revoked whether or not it has also expired.
    pub open spec fn active_key(self, clock: Clock, signer: Identity) -> Result<
        SessionKey,
        ErrorCode,
    > {
        match find_key(self.session_keys, signer) {
            None => Err(ErrorCode::SessionKeyNotFound),
            Some(i) => {
                let key = self.session_keys[i];
                if key.is_revoked {
                    Err(ErrorCode::SessionKeyRevoked)
                } else if key.expired(clock) {
                    Err(ErrorCode::SessionKeyExpired)
                } else {
                    Ok(key)
                }
            },
        }
    }
}

impl UserAccount {
    /// Bytes that storing an account with room for `max_keys` session keys
    /// takes.
    pub open spec fn space_for(max_keys: int) -> int {
        8 + 32 + 4 + max_keys * SESSION_KEY_SIZE + 1 + 4 + MAX_ALLOWED_MINTS * 32
    }

    /// Storage size of an account with room for `max_keys` session keys: a
    /// discriminator, the authority, the length-prefixed session keys, the
    /// bump and the length-prefixed allowlist at full capacity.
    pub fn space(max_keys: usize) -> (r: usize)
        requires
            UserAccount::space_for(max_keys as int) <= usize::MAX,
        ensures
            r == UserAccount::space_for(max_keys as int),
            r == 305 + 114 * max_keys,
    {
        assert(max_keys * SESSION_KEY_SIZE == 114 * max_keys) by (nonlinear_arith)
            requires
                SESSION_KEY_SIZE == 114,
        ;
        8 + 32 + 4 + (max_keys * SESSION_KEY_SIZE) + 1 + 4 + (MAX_ALLOWED_MINTS * 32)
    }

    /// The position of the first session key that belongs to `pubkey`.
    pub fn find_session_key(&self, pubkey: &Identity) -> (r: Option<usize>)
        ensures
            match r {
                Some(i) => find_key(self@.session_keys, *pubkey) == Some(i as int),
                None => find_key(self@.session_keys, *pubkey) is None,
            },
    {
        let mut i: usize = 0;
        while i < self.session_keys.len()
            invariant
                i <= self.session_keys.len(),
                forall|j: int| 0 <= j < i ==> (#[trigger] self.session_keys@[j]).pubkey != *pubkey,
            decreases self.session_keys.len() - i,
        {
            if self.session_keys[i].pubkey == *pubkey {
                proof {
                    lemma_find_key_is(self@.session_keys, *pubkey, i as int);
                }
                return Some(i);
            }
            i += 1;
        }
        proof {
            lemma_find_key(self@.session_keys, *pubkey);
        }
        None
    }

    /// Whether the allowlist admits `mint`.
    pub fn is_mint_allowed(&self, mint: &Identity) -> (r: bool)
        ensures
            r == self@.mint_allowed(*mint),
    {
        if self.allowed_mints.len() == 0 {
            return true;
        }
        let mut i: usize = 0;
        while i < self.allowed_mints.len()
            invariant
                i <= self.allowed_mints.len(),
                forall|j: int| 0 <= j < i ==> self.allowed_mints@[j] != *mint,
            decreases self.allowed_mints.len() - i,
        {
            if self.allowed_mints[i] == *mint {
                return true;
            }
            i += 1;
        }
        false
    }

    /// Looks up the record that `signer` may act under.
    pub fn find_active_key(&self, clock: &Clock, signer: &Identity) -> (r: Result<
        SessionKey,
        ErrorCode,
    >)
        ensures
            r == self@.active_key(*clock, *signer),
    {
        match self.find_session_key(signer) {
            None => Err(ErrorCode::SessionKeyNotFound),
            Some(i) => {
                let key = self.session_keys[i];
                if key.is_revoked {
                    Err(ErrorCode::SessionKeyRevoked)
                } else if key.is_expired(clock) {
                    Err(ErrorCode::SessionKeyExpired)
                } else {
                    Ok(key)
                }
            },
        }
    }
}

} // verus!

use session_keys::constants::{MAX_ALLOWED_MINTS, MAX_SESSION_KEYS, SESSION_KEY_SIZE};
use session_keys::identity::Identity;
use session_keys::state::{
    Clock, ExpirationType, SessionAction, SessionKey, SessionPermissions, UserAccount,
};

fn key(expires_at: i64, expiration_type: ExpirationType, is_revoked: bool) -> SessionKey {
    SessionKey {
        pubkey: Identity::new([5; 32]),
        created_at: 0,
        expires_at,
        expiration_type,
        permissions: SessionPermissions::default(),
        is_revoked,
        label: [0; 32],
    }
}

#[test]
fn constants_have_their_values() {
    assert_eq!(MAX_SESSION_KEYS, 10);
    assert_eq!(MAX_ALLOWED_MINTS, 8);
    assert_eq!(SESSION_KEY_SIZE, 114);
}

#[test]
fn space_for_the_full_registry() {
    assert_eq!(UserAccount::space(MAX_SESSION_KEYS), 1445);
    assert_eq!(UserAccount::space(0), 305);
    assert_eq!(UserAccount::space(1), 419);
}

#[test]
fn default_permissions_grant_nothing() {
    let p = SessionPermissions::default();
    assert!(!p.can_transfer && !p.can_delegate && !p.can_execute_custom);
    assert_eq!(p.max_transfer_amount, 0);
    assert_eq!(p.custom_flags, 0);
}

#[test]
fn time_key_expires_at_its_threshold() {
    let k = key(1_000, ExpirationType::Time, false);
    assert!(!k.is_expired(&Clock { slot: 5_000, unix_timestamp: 999 }));
    assert!(k.is_expired(&Clock { slot: 0, unix_timestamp: 1_000 }));
    assert!(k.is_expired(&Clock { slot: 0, unix_timestamp: 1_001 }));
    assert!(k.is_valid(&Clock { slot: 5_000, unix_timestamp: 999 }));
    assert!(!k.is_valid(&Clock { slot: 0, unix_timestamp: 1_000 }));
}

#[test]
fn height_key_expires_at_its_threshold() {
    let k = key(1_000, ExpirationType::BlockHeight, false);
    assert!(!k.is_expired(&Clock { slot: 999, unix_timestamp: 5_000 }));
    assert!(k.is_expired(&Clock { slot: 1_000, unix_timestamp: 0 }));
    assert!(k.is_expired(&Clock { slot: 1_001, unix_timestamp: 0 }));
    assert!(k.is_valid(&Clock { slot: 999, unix_timestamp: 5_000 }));
}

#[test]
fn negative_thresholds() {
    let by_height = key(-5, ExpirationType::BlockHeight, false);
    assert!(by_height.is_expired(&Clock { slot: 0, unix_timestamp: -100 }));
    let by_time = key(-5, ExpirationType::Time, false);
    assert!(!by_time.is_expired(&Clock { slot: 0, unix_timestamp: -6 }));
    assert!(by_time.is_expired(&Clock { slot: 0, unix_timestamp: -5 }));
}

#[test]
fn extreme_clock_values() {
    let latest = key(i64::MAX, ExpirationType::BlockHeight, false);
    assert!(!latest.is_expired(&Clock { slot: i64::MAX as u64 - 1, unix_timestamp: 0 }));
    assert!(latest.is_expired(&Clock { slot: i64::MAX as u64, unix_timestamp: 0 }));
    assert!(latest.is_expired(&Clock { slot: u64::MAX, unix_timestamp: 0 }));
    let by_time = key(i64::MAX, ExpirationType::Time, false);
    assert!(by_time.is_expired(&Clock { slot: 0, unix_timestamp: i64::MAX }));
    assert!(!by_time.is_expired(&Clock { slot: 0, unix_timestamp: i64::MAX - 1 }));
    assert!(Clock { slot: 0, unix_timestamp: 0 }.has_reached(0, ExpirationType::Time));
    assert!(Clock { slot: 0, unix_timestamp: 0 }.has_reached(0, ExpirationType::BlockHeight));
    assert!(!Clock { slot: 0, unix_timestamp: 0 }.has_reached(1, ExpirationType::BlockHeight));
}

#[test]
fn revoked_key_is_never_valid() {
    let now = Clock { slot: 1, unix_timestamp: 1 };
    let k = key(1_000, ExpirationType::Time, true);
    assert!(!k.is_expired(&now));
    assert!(!k.is_valid(&now));
}

#[test]
fn validity_ignores_the_other_fields() {
    let now = Clock { slot: 70, unix_timestamp: 700 };
    for (expires_at, kind, revoked) in [
        (701, ExpirationType::Time, false),
        (700, ExpirationType::Time, false),
        (71, ExpirationType::BlockHeight, false),
        (71, ExpirationType::BlockHeight, true),
    ] {
        let a = key(expires_at, kind, revoked);
        let mut b = a;
        b.pubkey = Identity::new([9; 32]);
        b.created_at = 123;
        b.label = [7; 32];
        b.permissions.can_transfer = true;
        assert_eq!(a.is_valid(&now), b.is_valid(&now));
        let reference = match kind {
            ExpirationType::Time => 700,
            ExpirationType::BlockHeight => 70,
        };
        assert_eq!(a.is_valid(&now), !revoked && expires_at > reference);
    }
}

#[test]
fn transfer_permission_and_cap() {
    let mut p = SessionPermissions::default();
    assert!(!p.permits_transfer(0));
    assert!(!p.permits_transfer(1));
    p.max_transfer_amount = 100;
    assert!(!p.permits_transfer(1));
    p.can_transfer = true;
    assert!(p.permits_transfer(100));
    assert!(!p.permits_transfer(101));
    assert!(p.permits_transfer(0));
    p.max_transfer_amount = 0;
    assert!(p.permits_transfer(101));
    assert!(p.permits_transfer(u64::MAX));
}

#[test]
fn each_action_asks_for_its_own_flag() {
    let transfer = SessionAction::Transfer { recipient: Identity::new([1; 32]), amount: 5 };
    let delegate = SessionAction::Delegate {
        new_key_identity: Identity::new([2; 32]),
        permissions: SessionPermissions::default(),
    };
    let custom =
        SessionAction::Custom { target_identity: Identity::new([3; 32]), payload: vec![1, 2, 3] };
    let mut p = SessionPermissions::default();
    assert!(!p.permits(&transfer) && !p.permits(&delegate) && !p.permits(&custom));
    p.can_transfer = true;
    assert!(p.permits(&transfer) && !p.permits(&delegate) && !p.permits(&custom));
    p.can_transfer = false;
    p.can_delegate = true;
    assert!(!p.permits(&transfer) && p.permits(&delegate) && !p.permits(&custom));
    p.can_delegate = false;
    p.can_execute_custom = true;
    assert!(!p.permits(&transfer) && !p.permits(&delegate) && p.permits(&custom));
}

#[test]
fn identities_compare_by_their_bytes() {
    let a = Identity::new([4; 32]);
    let mut bytes = [4u8; 32];
    assert!(a == Identity::new(bytes));
    bytes[31] = 5;
    assert!(a != Identity::new(bytes));
    bytes[31] = 4;
    bytes[0] = 5;
    assert!(a != Identity::new(bytes));
    let mut counted = [0u8; 32];
    for (i, b) in counted.iter_mut().enumerate() {
        *b = i as u8;
    }
    assert_eq!(Identity::new(counted).to_vec(), (0u8..32).collect::<Vec<u8>>());
}

#[test]
fn first_record_of_an_identity_is_found() {
    let mut account = UserAccount {
        authority: Identity::new([1; 32]),
        session_keys: vec![],
        bump: 0,
        allowed_mints: vec![],
    };
    assert_eq!(account.find_session_key(&Identity::new([5; 32])), None);
    let mut other = key(10, ExpirationType::Time, false);
    other.pubkey = Identity::new([6; 32]);
    account.session_keys = vec![other, key(10, ExpirationType::Time, false), other];
    assert_eq!(account.find_session_key(&Identity::new([5; 32])), Some(1));
    assert_eq!(account.find_session_key(&Identity::new([6; 32])), Some(0));
    assert_eq!(account.find_session_key(&Identity::new([7; 32])), None);
}

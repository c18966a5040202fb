use vigente::{
    CallContext, CreditBadge, Event, Identity, IssuancePolicy, RegistryError, VigenteProtocol,
    BADGE_VALIDITY_SECS, STORAGE_TTL_EXTENSION,
};

const NOW: u64 = 0;

fn identity(name: &str) -> Identity {
    Identity::new(name.as_bytes().to_vec())
}

fn signed_by(who: &Identity, now: u64) -> CallContext {
    CallContext { signer: who.duplicate(), now }
}

/// A fresh admin-issued registry, bootstrapped with an admin, and a user.
fn setup_test_contract() -> (Identity, Identity, VigenteProtocol) {
    let mut client = VigenteProtocol::new(IssuancePolicy::AdminIssued);
    let admin = identity("GADMINAAAAAAAAAAAAAAAAAAAAAAAAAAAAAAAAAAAAAAAAAAAAAAAAAA");
    let user = identity("GUSERAAAAAAAAAAAAAAAAAAAAAAAAAAAAAAAAAAAAAAAAAAAAAAAAAAA");
    client.initialize(admin.duplicate(), NOW).unwrap();
    (admin, user, client)
}

fn mock_data_hash(seed: u8) -> [u8; 32] {
    let mut bytes = [seed; 32];
    bytes[0] = seed;
    bytes
}

#[test]
fn test_mint_gold() {
    let (admin, user, mut client) = setup_test_contract();
    let ctx = signed_by(&admin, NOW);
    let tier = 1u32;
    let score = 950u32;
    let data_hash = mock_data_hash(0xAA);

    let badge = client.mint_badge(&ctx, &user, tier, score, data_hash).unwrap();
    assert_eq!(badge.tier, tier, "Badge tier should be 1 (Gold)");
    assert_eq!(badge.score, score, "Badge score should be 950");
    assert_eq!(badge.data_hash, data_hash, "Data hash should match");
    assert!(badge.expires_at > badge.issued_at, "Expiration should be after issuance");

    let stored_badge = client.verify_badge(&user, NOW);
    assert!(stored_badge.is_some(), "Badge should exist in storage");
    assert_eq!(stored_badge.unwrap().tier, tier, "Stored badge tier should match");

    let tier_result = client.get_tier(&user, NOW);
    assert_eq!(tier_result, tier, "get_tier should return 1 for Gold badge");
}

#[test]
fn test_mint_silver() {
    let (admin, user, mut client) = setup_test_contract();
    let ctx = signed_by(&admin, NOW);
    let tier = 2u32;
    let score = 650u32;
    let data_hash = mock_data_hash(0xBB);

    let badge = client.mint_badge(&ctx, &user, tier, score, data_hash).unwrap();
    assert_eq!(badge.tier, tier, "Badge tier should be 2 (Silver)");
    assert_eq!(badge.score, score, "Badge score should be 650");
    assert_eq!(badge.data_hash, data_hash, "Data hash should match");

    let stored_badge = client.verify_badge(&user, NOW);
    assert!(stored_badge.is_some(), "Badge should exist in storage");
    assert_eq!(stored_badge.unwrap().tier, tier, "Stored badge tier should be 2");

    let tier_result = client.get_tier(&user, NOW);
    assert_eq!(tier_result, tier, "get_tier should return 2 for Silver badge");
}

#[test]
fn test_update_badge() {
    let (admin, user, mut client) = setup_test_contract();
    let ctx = signed_by(&admin, NOW);
    let initial_tier = 2u32;
    let initial_score = 650u32;
    let initial_hash = mock_data_hash(0xCC);

    let initial_badge =
        client.mint_badge(&ctx, &user, initial_tier, initial_score, initial_hash).unwrap();
    assert_eq!(initial_badge.tier, initial_tier, "Initial badge should be Tier 2");
    assert_eq!(client.get_tier(&user, NOW), initial_tier, "User should have Tier 2");

    let upgraded_tier = 1u32;
    let upgraded_score = 920u32;
    let upgraded_hash = mock_data_hash(0xDD);

    let upgraded_badge =
        client.mint_badge(&ctx, &user, upgraded_tier, upgraded_score, upgraded_hash).unwrap();
    assert_eq!(upgraded_badge.tier, upgraded_tier, "Badge should be upgraded to Tier 1");
    assert_eq!(upgraded_badge.score, upgraded_score, "Score should be updated to 920");
    assert_eq!(upgraded_badge.data_hash, upgraded_hash, "Data hash should be new hash");

    let current_badge = client.verify_badge(&user, NOW);
    assert!(current_badge.is_some(), "Badge should still exist");
    let current = current_badge.unwrap();
    assert_eq!(current.tier, upgraded_tier, "Current tier should be 1 (upgraded)");
    assert_eq!(current.score, upgraded_score, "Current score should be 920");
    assert_eq!(current.data_hash, upgraded_hash, "Data hash should reflect the upgrade");

    let final_tier = client.get_tier(&user, NOW);
    assert_eq!(final_tier, upgraded_tier, "get_tier should return 1 after upgrade");
}

#[test]
fn test_multiple_users_independent_badges() {
    let (admin, user1, mut client) = setup_test_contract();
    let user2 = identity("GUSERBBBBBBBBBBBBBBBBBBBBBBBBBBBBBBBBBBBBBBBBBBBBBBBBBBB");
    let ctx = signed_by(&admin, NOW);

    client.mint_badge(&ctx, &user1, 1u32, 900u32, mock_data_hash(0x11)).unwrap();
    client.mint_badge(&ctx, &user2, 3u32, 400u32, mock_data_hash(0x22)).unwrap();

    assert_eq!(client.get_tier(&user1, NOW), 1, "User 1 should have Tier 1");
    assert_eq!(client.get_tier(&user2, NOW), 3, "User 2 should have Tier 3");
}

#[test]
fn test_invalid_tier_fails() {
    let (admin, user, mut client) = setup_test_contract();
    let ctx = signed_by(&admin, NOW);
    let r = client.mint_badge(&ctx, &user, 5u32, 500u32, mock_data_hash(0xFF));
    assert_eq!(r, Err(RegistryError::InvalidTier));
}

#[test]
fn test_invalid_score_fails() {
    let (admin, user, mut client) = setup_test_contract();
    let ctx = signed_by(&admin, NOW);
    let r = client.mint_badge(&ctx, &user, 1u32, 1500u32, mock_data_hash(0xFF));
    assert_eq!(r, Err(RegistryError::InvalidScore));
}

#[test]
fn invalid_tier_keeps_previous_badge() {
    let (admin, user, mut client) = setup_test_contract();
    let ctx = signed_by(&admin, 10);
    let first = client.mint_badge(&ctx, &user, 2, 600, mock_data_hash(1)).unwrap();
    let events_before = client.events().len();
    for tier in [0u32, 5, 6, u32::MAX] {
        let r = client.mint_badge(&ctx, &user, tier, 600, mock_data_hash(2));
        assert_eq!(r, Err(RegistryError::InvalidTier));
        assert_eq!(client.stored_badge(&user), Some(first));
    }
    assert_eq!(client.events().len(), events_before);
}

#[test]
fn invalid_score_keeps_previous_badge() {
    let (admin, user, mut client) = setup_test_contract();
    let ctx = signed_by(&admin, 10);
    let first = client.mint_badge(&ctx, &user, 4, 1000, mock_data_hash(1)).unwrap();
    for score in [1001u32, 1500, u32::MAX] {
        let r = client.mint_badge(&ctx, &user, 1, score, mock_data_hash(2));
        assert_eq!(r, Err(RegistryError::InvalidScore));
        assert_eq!(client.stored_badge(&user), Some(first));
    }
    let other = identity("GOTHER");
    assert_eq!(
        client.mint_badge(&ctx, &other, 1, 1001, mock_data_hash(3)),
        Err(RegistryError::InvalidScore)
    );
    assert_eq!(client.stored_badge(&other), None);
}

#[test]
fn tier_checked_before_score() {
    let (admin, user, mut client) = setup_test_contract();
    let ctx = signed_by(&admin, 10);
    let r = client.mint_badge(&ctx, &user, 0, 5000, mock_data_hash(1));
    assert_eq!(r, Err(RegistryError::InvalidTier));
}

#[test]
fn domain_edges_are_accepted() {
    let (admin, user, mut client) = setup_test_contract();
    let ctx = signed_by(&admin, 10);
    let b = client.mint_badge(&ctx, &user, 4, 1000, mock_data_hash(1)).unwrap();
    assert_eq!((b.tier, b.score), (4, 1000));
    let b = client.mint_badge(&ctx, &user, 1, 0, mock_data_hash(1)).unwrap();
    assert_eq!((b.tier, b.score), (1, 0));
}

#[test]
fn expiry_is_issue_time_plus_window() {
    let (admin, user, mut client) = setup_test_contract();
    let ctx = signed_by(&admin, 1_700_000_000);
    let b = client.mint_badge(&ctx, &user, 1, 950, mock_data_hash(9)).unwrap();
    assert_eq!(b.issued_at, 1_700_000_000);
    assert_eq!(b.expires_at, 1_707_776_000);
    assert_eq!(b.expires_at, b.issued_at + BADGE_VALIDITY_SECS);
}

#[test]
fn latest_issuable_time_does_not_overflow() {
    let (admin, user, mut client) = setup_test_contract();
    let now = u64::MAX - BADGE_VALIDITY_SECS;
    let ctx = signed_by(&admin, now);
    let b = client.mint_badge(&ctx, &user, 1, 1, mock_data_hash(9)).unwrap();
    assert_eq!(b.expires_at, u64::MAX);
    assert_eq!(client.verify_badge(&user, u64::MAX), Some(b));
}

#[test]
fn verification_boundary_is_inclusive() {
    let (admin, user, mut client) = setup_test_contract();
    let ctx = signed_by(&admin, 1000);
    let b = client.mint_badge(&ctx, &user, 3, 400, mock_data_hash(4)).unwrap();
    assert_eq!(client.verify_badge(&user, 1000), Some(b));
    assert_eq!(client.verify_badge(&user, 7_777_000), Some(b));
    assert_eq!(client.verify_badge(&user, 7_777_001), None);
    assert_eq!(client.get_tier(&user, 7_777_000), 3);
    assert_eq!(client.get_tier(&user, 7_777_001), 0);
    // An expired badge is filtered, not deleted.
    assert_eq!(client.stored_badge(&user), Some(b));
}

#[test]
fn tier_zero_without_badge() {
    let (_admin, user, client) = setup_test_contract();
    assert_eq!(client.verify_badge(&user, 0), None);
    assert_eq!(client.get_tier(&user, 0), 0);
    assert_eq!(client.get_tier(&user, u64::MAX), 0);
}

#[test]
fn initialize_twice_keeps_first_admin() {
    let mut client = VigenteProtocol::new(IssuancePolicy::AdminIssued);
    let first = identity("GFIRST");
    let second = identity("GSECOND");
    assert_eq!(client.get_admin(), Err(RegistryError::NotInitialized));
    assert_eq!(client.admin_ttl(), None);
    assert_eq!(client.initialize(first.duplicate(), 5), Ok(()));
    assert_eq!(client.initialize(second.duplicate(), 6), Err(RegistryError::AlreadyInitialized));
    assert_eq!(client.get_admin(), Ok(first.duplicate()));
    assert_eq!(client.admin_ttl(), Some(STORAGE_TTL_EXTENSION));
    assert_eq!(client.admin_ttl(), Some(1_555_200));
    assert_eq!(client.events().len(), 1);
    match &client.events()[0] {
        Event::Init { admin, timestamp } => {
            assert_eq!(admin, &first);
            assert_eq!(*timestamp, 5);
        }
        other => panic!("unexpected event {:?}", other),
    }
}

#[test]
fn minting_before_initialize_fails() {
    let mut client = VigenteProtocol::new(IssuancePolicy::AdminIssued);
    let someone = identity("GSOMEONE");
    let ctx = signed_by(&someone, 0);
    let r = client.mint_badge(&ctx, &someone, 1, 10, mock_data_hash(1));
    assert_eq!(r, Err(RegistryError::NotInitialized));
    assert!(client.events().is_empty());
}

#[test]
fn admin_issued_rejects_other_signers() {
    let (_admin, user, mut client) = setup_test_contract();
    let ctx = signed_by(&user, 0);
    let r = client.mint_badge(&ctx, &user, 1, 10, mock_data_hash(1));
    assert_eq!(r, Err(RegistryError::NotAuthorized));
    assert_eq!(client.stored_badge(&user), None);
    assert_eq!(client.events().len(), 1);
}

#[test]
fn authorization_checked_before_validation() {
    let (_admin, user, mut client) = setup_test_contract();
    let ctx = signed_by(&user, 0);
    let r = client.mint_badge(&ctx, &user, 9, 5000, mock_data_hash(1));
    assert_eq!(r, Err(RegistryError::NotAuthorized));
}

#[test]
fn self_attested_requires_subject_signature() {
    let mut client = VigenteProtocol::new(IssuancePolicy::SelfAttested);
    let admin = identity("GADMIN");
    let user = identity("GUSER");
    client.initialize(admin.duplicate(), 0).unwrap();
    assert_eq!(
        client.mint_badge(&signed_by(&admin, 0), &user, 1, 10, mock_data_hash(1)),
        Err(RegistryError::NotAuthorized)
    );
    let b = client.mint_badge(&signed_by(&user, 0), &user, 1, 10, mock_data_hash(1)).unwrap();
    assert_eq!(client.verify_badge(&user, 0), Some(b));
    assert_eq!(client.issuance_policy(), IssuancePolicy::SelfAttested);
}

#[test]
fn badge_event_and_slot_lifetime() {
    let (admin, user, mut client) = setup_test_contract();
    assert_eq!(client.badge_ttl(&user), None);
    let b = client.mint_badge(&signed_by(&admin, 42), &user, 2, 700, mock_data_hash(5)).unwrap();
    assert_eq!(client.badge_ttl(&user), Some(STORAGE_TTL_EXTENSION));
    let events = client.events();
    assert_eq!(events.len(), 2);
    match &events[1] {
        Event::Badge { subject, badge } => {
            assert_eq!(subject, &user);
            assert_eq!(*badge, b);
        }
        other => panic!("unexpected event {:?}", other),
    }
}

#[test]
fn reissue_scenario_keeps_only_latest() {
    let mut client = VigenteProtocol::new(IssuancePolicy::AdminIssued);
    let a = identity("GA");
    let u = identity("GU");
    client.initialize(a.duplicate(), 0).unwrap();
    let h1 = [0x01u8; 32];
    let h2 = [0x02u8; 32];
    client.mint_badge(&signed_by(&a, 10), &u, 1, 950, h1).unwrap();
    let v = client.verify_badge(&u, 10).unwrap();
    assert_eq!((v.tier, v.score, v.data_hash), (1, 950, h1));
    client.mint_badge(&signed_by(&a, 20), &u, 3, 400, h2).unwrap();
    let v = client.verify_badge(&u, 20).unwrap();
    assert_eq!((v.tier, v.score, v.data_hash), (3, 400, h2));
    assert_eq!(client.stored_badge(&u).unwrap().data_hash, h2);
    // The first badge survives only in the log.
    let logged: Vec<CreditBadge> = client
        .events()
        .iter()
        .filter_map(|e| match e {
            Event::Badge { badge, .. } => Some(*badge),
            _ => None,
        })
        .collect();
    assert_eq!(logged.len(), 2);
    assert_eq!(logged[0].data_hash, h1);
    assert_eq!(logged[1].data_hash, h2);
}

#[test]
fn credential_issue_and_liveness() {
    let b = CreditBadge::issue(2, 300, [3u8; 32], 100).unwrap();
    assert_eq!(b.expires_at, 7_776_100);
    assert!(b.is_live(7_776_100));
    assert!(!b.is_live(7_776_101));
    assert_eq!(vigente::live_badge(Some(b), 7_776_101), None);
    assert_eq!(vigente::live_badge(Some(b), 5), Some(b));
    assert_eq!(vigente::tier_or_zero(Some(b)), 2);
    assert_eq!(vigente::tier_or_zero(None), 0);
    assert_eq!(CreditBadge::issue(0, 300, [3u8; 32], 100), Err(RegistryError::InvalidTier));
    assert_eq!(CreditBadge::issue(1, 1001, [3u8; 32], 100), Err(RegistryError::InvalidScore));
}

#[test]
fn identities_compare_by_bytes() {
    let a = identity("GABC");
    assert!(a.same_as(&identity("GABC")));
    assert!(!a.same_as(&identity("GABD")));
    assert!(!a.same_as(&identity("GAB")));
    assert_eq!(a.duplicate(), a);
    let admin = identity("GADMIN");
    let user = identity("GUSER");
    assert_eq!(vigente::required_signer(IssuancePolicy::AdminIssued, &admin, &user), &admin);
    assert_eq!(vigente::required_signer(IssuancePolicy::SelfAttested, &admin, &user), &user);
}

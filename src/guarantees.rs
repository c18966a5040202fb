use vstd::prelude::*;
use crate::badge::{issuable_at, live_spec, tier_spec, valid_score, valid_tier, CreditBadge, BADGE_VALIDITY_SECS};
use crate::error::RegistryError;
use crate::registry::{authority, VigenteProtocol};

verus! {

/// An authorised issuance on an initialised registry with a tier outside
/// `1..=4` fails with `InvalidTier` and leaves storage and the log as they
/// were.
pub proof fn lemma_invalid_tier_changes_nothing(
    reg: VigenteProtocol,
    new: VigenteProtocol,
    signer: Seq<u8>,
    now: u64,
    subject: Seq<u8>,
    tier: u32,
    score: u32,
    data_hash: [u8; 32],
    r: Result<CreditBadge, RegistryError>,
)
    requires
        reg.mint_post(&new, signer, now, subject, tier, score, data_hash, r),
        reg.admin() matches Some(a) && signer == authority(reg.policy(), a, subject),
        !valid_tier(tier),
    ensures
        r == Err::<CreditBadge, RegistryError>(RegistryError::InvalidTier),
        new.stored(subject) == reg.stored(subject),
        new.badges() == reg.badges(),
        new.admin() == reg.admin(),
        new.log() == reg.log(),
{
}

/// An authorised issuance on an initialised registry with a valid tier and a
/// score above 1000 fails with `InvalidScore` and leaves storage and the log
/// as they were.
pub proof fn lemma_invalid_score_changes_nothing(
    reg: VigenteProtocol,
    new: VigenteProtocol,
    signer: Seq<u8>,
    now: u64,
    subject: Seq<u8>,
    tier: u32,
    score: u32,
    data_hash: [u8; 32],
    r: Result<CreditBadge, RegistryError>,
)
    requires
        reg.mint_post(&new, signer, now, subject, tier, score, data_hash, r),
        reg.admin() matches Some(a) && signer == authority(reg.policy(), a, subject),
        valid_tier(tier),
        !valid_score(score),
    ensures
        r == Err::<CreditBadge, RegistryError>(RegistryError::InvalidScore),
        new.stored(subject) == reg.stored(subject),
        new.badges() == reg.badges(),
        new.admin() == reg.admin(),
        new.log() == reg.log(),
{
}

/// A successfully issued badge is issued at the time of the call, expires
/// exactly the validity window later, and is what the subject's slot holds.
pub proof fn lemma_issued_badge_expiry(
    reg: VigenteProtocol,
    new: VigenteProtocol,
    signer: Seq<u8>,
    now: u64,
    subject: Seq<u8>,
    tier: u32,
    score: u32,
    data_hash: [u8; 32],
    b: CreditBadge,
)
    requires
        reg.mint_post(&new, signer, now, subject, tier, score, data_hash, Ok(b)),
        issuable_at(now),
    ensures
        b.issued_at == now,
        b.expires_at == b.issued_at + BADGE_VALIDITY_SECS,
        b.expires_at > b.issued_at,
        new.stored(subject) == Some(b),
{
}

/// After two successful issuances to one subject, its slot holds only the
/// second badge, and verification at any time sees that badge or nothing.
pub proof fn lemma_reissue_replaces(
    r0: VigenteProtocol,
    r1: VigenteProtocol,
    r2: VigenteProtocol,
    subject: Seq<u8>,
    signer1: Seq<u8>,
    now1: u64,
    tier1: u32,
    score1: u32,
    hash1: [u8; 32],
    b1: CreditBadge,
    signer2: Seq<u8>,
    now2: u64,
    tier2: u32,
    score2: u32,
    hash2: [u8; 32],
    b2: CreditBadge,
)
    requires
        r0.mint_post(&r1, signer1, now1, subject, tier1, score1, hash1, Ok(b1)),
        r1.mint_post(&r2, signer2, now2, subject, tier2, score2, hash2, Ok(b2)),
    ensures
        r2.stored(subject) == Some(b2),
        b2.tier == tier2 && b2.score == score2 && b2.data_hash == hash2 && b2.issued_at == now2,
        forall|now: u64| #[trigger] r2.verify_spec(subject, now) == live_spec(Some(b2), now),
{
    assert(r2.badges() == r0.badges().insert(subject, b1).insert(subject, b2));
}

/// Verification of a stored badge returns it up to and including its expiry
/// instant, and nothing from the next instant on.
pub proof fn lemma_verify_expiry_boundary(reg: VigenteProtocol, subject: Seq<u8>, b: CreditBadge)
    requires
        reg.stored(subject) == Some(b),
    ensures
        forall|now: u64|
            now <= b.expires_at ==> #[trigger] reg.verify_spec(subject, now) == Some(b),
        forall|now: u64|
            now > b.expires_at ==> #[trigger] reg.verify_spec(subject, now) == None::<CreditBadge>,
{
}

/// The tier lookup answers 0 for a subject without a badge and for one whose
/// badge has expired.
pub proof fn lemma_tier_zero_without_valid_badge(reg: VigenteProtocol, subject: Seq<u8>, now: u64)
    requires
        reg.stored(subject) matches Some(b) ==> now > b.expires_at,
    ensures
        tier_spec(reg.verify_spec(subject, now)) == 0,
{
}

/// Bootstrapping twice fails the second time with `AlreadyInitialized`, and
/// the admin slot keeps the first value set.
pub proof fn lemma_initialize_once(
    r0: VigenteProtocol,
    r1: VigenteProtocol,
    r2: VigenteProtocol,
    first: Seq<u8>,
    now1: u64,
    res1: Result<(), RegistryError>,
    second: Seq<u8>,
    now2: u64,
    res2: Result<(), RegistryError>,
)
    requires
        r0.initialize_post(&r1, first, now1, res1),
        r1.initialize_post(&r2, second, now2, res2),
    ensures
        res2 == Err::<(), RegistryError>(RegistryError::AlreadyInitialized),
        r2.admin() == r1.admin(),
        r0.admin() is None ==> res1 is Ok && r2.admin() == Some(first),
{
}

} // verus!

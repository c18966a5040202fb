use vstd::prelude::*;
use crate::error::RegistryError;

verus! {

/// How long a badge stays valid after it is issued, in ledger seconds
/// (90 days).
pub const BADGE_VALIDITY_SECS: u64 = 7_776_000;

/// How far every write extends the lifetime of the storage slot it touches,
/// in ledgers.
pub const STORAGE_TTL_EXTENSION: u32 = 1_555_200;

/// The highest score a badge may carry.
pub const MAX_SCORE: u32 = 1000;

/// A time-bound reputation record for one subject.
#[derive(Debug, Clone, Copy, PartialEq, Eq)]
pub struct CreditBadge {
    /// Reputation class, 1 (best) to 4.
    pub tier: u32,
    /// Credit score, 0 to 1000.
    pub score: u32,
    /// Ledger time at which the badge was issued.
    pub issued_at: u64,
    /// Last ledger time at which the badge is still valid.
    pub expires_at: u64,
    /// Commitment to the off-chain evidence behind the score.
    pub data_hash: [u8; 32],
}

pub open spec fn valid_tier(tier: u32) -> bool {
    1 <= tier <= 4
}

pub open spec fn valid_score(score: u32) -> bool {
    score <= MAX_SCORE
}

/// Ledger times at which a badge can still be issued without its expiry
/// overflowing.
pub open spec fn issuable_at(now: u64) -> bool {
    now + BADGE_VALIDITY_SECS <= u64::MAX
}

/// The badge minted at time `now` from already validated fields.
pub open spec fn badge_at(tier: u32, score: u32, data_hash: [u8; 32], now: u64) -> CreditBadge
    recommends
        issuable_at(now),
{
    CreditBadge {
        tier,
        score,
        issued_at: now,
        expires_at: (now + BADGE_VALIDITY_SECS) as u64,
        data_hash,
    }
}

/// The outcome of validating and minting a badge: the tier is checked
/// before the score.
pub open spec fn issue_spec(tier: u32, score: u32, data_hash: [u8; 32], now: u64) -> Result<
    CreditBadge,
    RegistryError,
> {
    if !valid_tier(tier) {
        Err(RegistryError::InvalidTier)
    } else if !valid_score(score) {
        Err(RegistryError::InvalidScore)
    } else {
        Ok(badge_at(tier, score, data_hash, now))
    }
}

/// The badge in a slot as verification sees it: absent once expired.
pub open spec fn live_spec(slot: Option<CreditBadge>, now: u64) -> Option<CreditBadge> {
    match slot {
        Some(b) => if b.live_at(now) {
            Some(b)
        } else {
            None
        },
        None => None,
    }
}

/// The tier of a verified badge, or 0 where there is none.
pub open spec fn tier_spec(slot: Option<CreditBadge>) -> u32 {
    match slot {
        Some(b) => b.tier,
        None => 0,
    }
}

impl CreditBadge {
    /// Whether the badge is still valid at ledger time `now`; the expiry
    /// instant itself is included.
    pub open spec fn live_at(&self, now: u64) -> bool {
        now <= self.expires_at
    }

    /// The fields of the badge lie in their domains and its expiry is the
    /// issue time plus the validity window.
    pub open spec fn wf(&self) -> bool {
        &&& valid_tier(self.tier)
        &&& valid_score(self.score)
        &&& self.expires_at == self.issued_at + BADGE_VALIDITY_SECS
    }

    /// Validates the tier and the score, then mints a badge issued at `now`.
    pub fn issue(tier: u32, score: u32, data_hash: [u8; 32], now: u64) -> (r: Result<
        CreditBadge,
        RegistryError,
    >)
        requires
            issuable_at(now),
        ensures
            r == issue_spec(tier, score, data_hash, now),
            r matches Ok(b) ==> b.wf(),
    {
        if tier < 1 || tier > 4 {
            return Err(RegistryError::InvalidTier);
        }
        if score > MAX_SCORE {
            return Err(RegistryError::InvalidScore);
        }
        Ok(CreditBadge {
            tier,
            score,
            issued_at: now,
            expires_at: now + BADGE_VALIDITY_SECS,
            data_hash,
        })
    }

    /// Whether the badge is still valid at ledger time `now`.
    pub fn is_live(&self, now: u64) -> (r: bool)
        ensures
            r == self.live_at(now),
    {
        now <= self.expires_at
    }
}

/// Filters a stored badge by its expiry: the badge is returned while
/// `now <= expires_at`, and nothing after that instant.
pub fn live_badge(slot: Option<CreditBadge>, now: u64) -> (r: Option<CreditBadge>)
    ensures
        r == live_spec(slot, now),
{
    match slot {
        Some(b) => if b.is_live(now) {
            Some(b)
        } else {
            None
        },
        None => None,
    }
}

/// The tier of a verified badge, or 0 for "no valid badge".
pub fn tier_or_zero(slot: Option<CreditBadge>) -> (r: u32)
    ensures
        r == tier_spec(slot),
{
    match slot {
        Some(b) => b.tier,
        None => 0,
    }
}

} // verus!

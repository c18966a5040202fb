use vstd::prelude::*;
use crate::badge::{
    issuable_at, issue_spec, live_badge, live_spec, tier_or_zero, tier_spec, CreditBadge,
    STORAGE_TTL_EXTENSION,
};
use crate::context::CallContext;
use crate::error::RegistryError;
use crate::event::{append, log_view, Event, EventView};
use crate::identity::Identity;

verus! {

/// Who must sign a call that issues a badge.
#[derive(Debug, Clone, Copy, PartialEq, Eq, Structural)]
pub enum IssuancePolicy {
    /// Only the registry's admin issues badges (trusted issuer).
    AdminIssued,
    /// Each subject issues its own badge (self-attestation).
    SelfAttested,
}

/// The identity whose signature a badge issuance for `subject` requires.
pub open spec fn authority(policy: IssuancePolicy, admin: Seq<u8>, subject: Seq<u8>) -> Seq<u8> {
    match policy {
        IssuancePolicy::AdminIssued => admin,
        IssuancePolicy::SelfAttested => subject,
    }
}

/// The identity whose signature issuing a badge to `subject` requires.
pub fn required_signer<'a>(
    policy: IssuancePolicy,
    admin: &'a Identity,
    subject: &'a Identity,
) -> (r: &'a Identity)
    ensures
        r@ == authority(policy, admin@, subject@),
{
    match policy {
        IssuancePolicy::AdminIssued => admin,
        IssuancePolicy::SelfAttested => subject,
    }
}

/// The storage slot of one subject's most recent badge.
struct BadgeSlot {
    subject: Identity,
    badge: CreditBadge,
    ttl: u32,
}

/// One slot per subject; each slot holds a well formed badge with the
/// lifetime extension, and `stored` maps exactly the slots' subjects to
/// their badges.
spec fn slots_wf(slots: Seq<BadgeSlot>, stored: Map<Seq<u8>, CreditBadge>) -> bool {
    &&& forall|i: int|
        0 <= i < slots.len() ==> {
            let s = #[trigger] slots[i];
            &&& s.badge.wf()
            &&& s.ttl == STORAGE_TTL_EXTENSION
            &&& stored.contains_key(s.subject@)
            &&& stored[s.subject@] == s.badge
        }
    &&& forall|k: Seq<u8>|
        #[trigger] stored.contains_key(k) ==> exists|i: int|
            0 <= i < slots.len() && (#[trigger] slots[i]).subject@ == k
    &&& forall|i: int, j: int|
        0 <= i < slots.len() && 0 <= j < slots.len() && i != j ==> (#[trigger] slots[i]).subject@
            != (#[trigger] slots[j]).subject@
}

/// The credit badge registry: an admin slot written once, one badge slot per
/// subject that was ever issued a badge, and the log of emitted events.
pub struct VigenteProtocol {
    policy: IssuancePolicy,
    admin: Option<Identity>,
    admin_ttl: u32,
    slots: Vec<BadgeSlot>,
    stored: Ghost<Map<Seq<u8>, CreditBadge>>,
    events: Vec<Event>,
}

impl VigenteProtocol {
    /// Who may issue badges; fixed when the registry is created.
    pub closed spec fn policy(&self) -> IssuancePolicy {
        self.policy
    }

    /// The admin slot.
    pub closed spec fn admin(&self) -> Option<Seq<u8>> {
        match self.admin {
            Some(a) => Some(a@),
            None => None,
        }
    }

    /// The badge slots, keyed by subject.
    pub closed spec fn badges(&self) -> Map<Seq<u8>, CreditBadge> {
        self.stored@
    }

    /// The emitted events, oldest first.
    pub closed spec fn log(&self) -> Seq<EventView> {
        log_view(self.events@)
    }

    /// The storage invariant: the badge slots agree with the ghost map (see
    /// `slots_wf`) and a set admin slot carries the lifetime extension.
    pub closed spec fn wf(&self) -> bool {
        &&& slots_wf(self.slots@, self.stored@)
        &&& self.admin is Some ==> self.admin_ttl == STORAGE_TTL_EXTENSION
    }

    /// The badge stored for `subject`, expired or not.
    pub open spec fn stored(&self, subject: Seq<u8>) -> Option<CreditBadge> {
        if self.badges().contains_key(subject) {
            Some(self.badges()[subject])
        } else {
            None
        }
    }

    /// What verification returns for `subject` at ledger time `now`.
    pub open spec fn verify_spec(&self, subject: Seq<u8>, now: u64) -> Option<CreditBadge> {
        live_spec(self.stored(subject), now)
    }

    /// The result of bootstrapping: refused once an admin is set.
    pub open spec fn initialize_spec(&self) -> Result<(), RegistryError> {
        if self.admin() is Some {
            Err(RegistryError::AlreadyInitialized)
        } else {
            Ok(())
        }
    }

    /// How `new` follows from `self` through `initialize(admin)` at time
    /// `now`, with result `r`.
    pub open spec fn initialize_post(
        &self,
        new: &VigenteProtocol,
        admin: Seq<u8>,
        now: u64,
        r: Result<(), RegistryError>,
    ) -> bool {
        &&& r == self.initialize_spec()
        &&& new.policy() == self.policy()
        &&& new.badges() == self.badges()
        &&& r is Ok ==> new.admin() == Some(admin) && new.log() == self.log().push(
            EventView::Init { admin, timestamp: now },
        )
        &&& r is Err ==> new.admin() == self.admin() && new.log() == self.log()
    }

    /// The result of issuing a badge: the registry must be initialised, the
    /// designated authority must have signed, then the tier and the score
    /// are validated.
    pub open spec fn mint_spec(
        &self,
        signer: Seq<u8>,
        now: u64,
        subject: Seq<u8>,
        tier: u32,
        score: u32,
        data_hash: [u8; 32],
    ) -> Result<CreditBadge, RegistryError> {
        match self.admin() {
            None => Err(RegistryError::NotInitialized),
            Some(a) => if signer != authority(self.policy(), a, subject) {
                Err(RegistryError::NotAuthorized)
            } else {
                issue_spec(tier, score, data_hash, now)
            },
        }
    }

    /// How `new` follows from `self` through issuing a badge, with result
    /// `r`: a success overwrites the subject's slot and logs the badge; a
    /// failure changes nothing.
    pub open spec fn mint_post(
        &self,
        new: &VigenteProtocol,
        signer: Seq<u8>,
        now: u64,
        subject: Seq<u8>,
        tier: u32,
        score: u32,
        data_hash: [u8; 32],
        r: Result<CreditBadge, RegistryError>,
    ) -> bool {
        &&& r == self.mint_spec(signer, now, subject, tier, score, data_hash)
        &&& new.policy() == self.policy()
        &&& new.admin() == self.admin()
        &&& match r {
            Ok(b) => {
                &&& new.badges() == self.badges().insert(subject, b)
                &&& new.log() == self.log().push(EventView::Badge { subject, badge: b })
            },
            Err(_) => {
                &&& new.badges() == self.badges()
                &&& new.log() == self.log()
            },
        }
    }

    /// An empty registry with no admin yet.
    pub fn new(policy: IssuancePolicy) -> (r: VigenteProtocol)
        ensures
            r.wf(),
            r.policy() == policy,
            r.admin() is None,
            r.badges() == Map::<Seq<u8>, CreditBadge>::empty(),
            r.log() == Seq::<EventView>::empty(),
    {
        let r = VigenteProtocol {
            policy,
            admin: None,
            admin_ttl: 0,
            slots: Vec::new(),
            stored: Ghost(Map::empty()),
            events: Vec::new(),
        };
        assert(r.log() =~= Seq::<EventView>::empty());
        r
    }

    /// Sets the admin slot, once. The slot gets the storage lifetime
    /// extension and an `init` event with the time of the call is logged. A
    /// second call fails with `AlreadyInitialized` and changes nothing.
    pub fn initialize(&mut self, admin: Identity, now: u64) -> (r: Result<(), RegistryError>)
        requires
            old(self).wf(),
        ensures
            final(self).wf(),
            old(self).initialize_post(final(self), admin@, now, r),
    {
        if self.admin.is_some() {
            return Err(RegistryError::AlreadyInitialized);
        }
        let logged = admin.duplicate();
        self.admin = Some(admin);
        self.admin_ttl = STORAGE_TTL_EXTENSION;
        append(&mut self.events, Event::Init { admin: logged, timestamp: now });
        Ok(())
    }

    /// The admin identity, or `NotInitialized` before bootstrap.
    pub fn get_admin(&self) -> (r: Result<Identity, RegistryError>)
        ensures
            match self.admin() {
                Some(a) => r matches Ok(id) && id@ == a,
                None => r == Err::<Identity, RegistryError>(RegistryError::NotInitialized),
            },
    {
        match &self.admin {
            Some(a) => Ok(a.duplicate()),
            None => Err(RegistryError::NotInitialized),
        }
    }

    /// Issues a badge to `user`, replacing any badge it held. The call must
    /// be signed by the authority that the policy designates; the tier and
    /// the score are validated before anything is written. On success the
    /// slot gets the storage lifetime extension and a `badge` event is
    /// logged.
    pub fn mint_badge(
        &mut self,
        ctx: &CallContext,
        user: &Identity,
        tier: u32,
        score: u32,
        data_hash: [u8; 32],
    ) -> (r: Result<CreditBadge, RegistryError>)
        requires
            old(self).wf(),
            issuable_at(ctx.now),
        ensures
            final(self).wf(),
            old(self).mint_post(final(self), ctx.signer@, ctx.now, user@, tier, score, data_hash, r),
    {
        let authorized = match &self.admin {
            None => {
                return Err(RegistryError::NotInitialized);
            },
            Some(a) => ctx.signer.same_as(required_signer(self.policy, a, user)),
        };
        if !authorized {
            return Err(RegistryError::NotAuthorized);
        }
        let badge = match CreditBadge::issue(tier, score, data_hash, ctx.now) {
            Ok(b) => b,
            Err(e) => {
                return Err(e);
            },
        };
        let ghost before = self.slots@;
        let ghost stored_before = self.stored@;
        let slot = BadgeSlot { subject: user.duplicate(), badge, ttl: STORAGE_TTL_EXTENSION };
        match self.find_slot(user) {
            Some(i) => {
                self.slots.set(i, slot);
                self.stored = Ghost(self.stored@.insert(user@, badge));
                proof {
                    assert(forall|j: int|
                        0 <= j < self.slots@.len() ==> (#[trigger] self.slots@[j]).subject@
                            == before[j].subject@);
                    assert forall|k: Seq<u8>| #[trigger]
                        self.stored@.contains_key(k) implies exists|j: int|
                        0 <= j < self.slots@.len() && (#[trigger] self.slots@[j]).subject@
                            == k by {
                        if k != user@ {
                            assert(stored_before.contains_key(k));
                            let j = choose|j: int|
                                0 <= j < before.len() && (#[trigger] before[j]).subject@ == k;
                            assert(self.slots@[j].subject@ == k);
                        } else {
                            assert(self.slots@[i as int].subject@ == k);
                        }
                    }
                }
            },
            None => {
                self.slots.push(slot);
                self.stored = Ghost(self.stored@.insert(user@, badge));
                proof {
                    let n = before.len() as int;
                    assert(forall|j: int|
                        0 <= j < before.len() ==> (#[trigger] self.slots@[j]) == before[j]);
                    assert(forall|j: int|
                        0 <= j < before.len() ==> stored_before.contains_key(
                            (#[trigger] before[j]).subject@,
                        ));
                    assert forall|k: Seq<u8>| #[trigger]
                        self.stored@.contains_key(k) implies exists|j: int|
                        0 <= j < self.slots@.len() && (#[trigger] self.slots@[j]).subject@
                            == k by {
                        if k != user@ {
                            assert(stored_before.contains_key(k));
                            let j = choose|j: int|
                                0 <= j < before.len() && (#[trigger] before[j]).subject@ == k;
                            assert(self.slots@[j].subject@ == k);
                        } else {
                            assert(self.slots@[n].subject@ == k);
                        }
                    }
                }
            },
        }
        append(&mut self.events, Event::Badge { subject: user.duplicate(), badge });
        Ok(badge)
    }

    /// The badge of `user` if it has one that is still valid at ledger time
    /// `now`. Expired badges are filtered out, not deleted.
    pub fn verify_badge(&self, user: &Identity, now: u64) -> (r: Option<CreditBadge>)
        requires
            self.wf(),
        ensures
            r == self.verify_spec(user@, now),
    {
        live_badge(self.stored_badge(user), now)
    }

    /// The tier of the valid badge of `user` at ledger time `now`, or 0 when
    /// it has none or its badge has expired.
    pub fn get_tier(&self, user: &Identity, now: u64) -> (r: u32)
        requires
            self.wf(),
        ensures
            r == tier_spec(self.verify_spec(user@, now)),
    {
        tier_or_zero(self.verify_badge(user, now))
    }

    /// The badge stored for `user`, whether or not it has expired.
    pub fn stored_badge(&self, user: &Identity) -> (r: Option<CreditBadge>)
        requires
            self.wf(),
        ensures
            r == self.stored(user@),
    {
        match self.find_slot(user) {
            Some(i) => Some(self.slots[i].badge),
            None => None,
        }
    }

    /// The lifetime extension last granted to the badge slot of `user`, if
    /// it has one.
    pub fn badge_ttl(&self, user: &Identity) -> (r: Option<u32>)
        requires
            self.wf(),
        ensures
            r == (if self.badges().contains_key(user@) {
                Some(STORAGE_TTL_EXTENSION)
            } else {
                None::<u32>
            }),
    {
        match self.find_slot(user) {
            Some(i) => Some(self.slots[i].ttl),
            None => None,
        }
    }

    /// The lifetime extension granted to the admin slot, once it is set.
    pub fn admin_ttl(&self) -> (r: Option<u32>)
        requires
            self.wf(),
        ensures
            r == (if self.admin() is Some {
                Some(STORAGE_TTL_EXTENSION)
            } else {
                None::<u32>
            }),
    {
        if self.admin.is_some() {
            Some(self.admin_ttl)
        } else {
            None
        }
    }

    /// Who may issue badges in this registry.
    pub fn issuance_policy(&self) -> (r: IssuancePolicy)
        ensures
            r == self.policy(),
    {
        self.policy
    }

    /// The emitted events, oldest first.
    pub fn events(&self) -> (r: &Vec<Event>)
        ensures
            log_view(r@) == self.log(),
    {
        &self.events
    }

    /// Index of the slot of `subject`, if it has one.
    fn find_slot(&self, subject: &Identity) -> (r: Option<usize>)
        requires
            self.wf(),
        ensures
            match r {
                Some(i) => i < self.slots@.len() && self.slots@[i as int].subject@ == subject@,
                None => !self.badges().contains_key(subject@),
            },
    {
        let mut i: usize = 0;
        while i < self.slots.len()
            invariant
                self.wf(),
                0 <= i <= self.slots@.len(),
                forall|j: int| 0 <= j < i ==> (#[trigger] self.slots@[j]).subject@ != subject@,
            decreases self.slots@.len() - i,
        {
            if self.slots[i].subject.same_as(subject) {
                return Some(i);
            }
            i = i + 1;
        }
        None
    }
}

} // verus!

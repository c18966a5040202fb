use vstd::prelude::*;
use crate::badge::CreditBadge;
use crate::identity::Identity;

verus! {

/// A record in the public, append-only event log. The first field of each
/// variant is the identity the record is indexed by.
#[derive(Debug)]
pub enum Event {
    /// The registry was bootstrapped with this admin.
    Init { admin: Identity, timestamp: u64 },
    /// A badge was issued to this subject.
    Badge { subject: Identity, badge: CreditBadge },
    /// A financing deal was registered by this partner.
    Deal { partner: Identity, data_hash: [u8; 32], amount: i128, nonce: i128, timestamp: u64 },
}

/// An event with its identities seen as byte sequences.
pub enum EventView {
    Init { admin: Seq<u8>, timestamp: u64 },
    Badge { subject: Seq<u8>, badge: CreditBadge },
    Deal { partner: Seq<u8>, data_hash: [u8; 32], amount: i128, nonce: i128, timestamp: u64 },
}

impl View for Event {
    type V = EventView;

    open spec fn view(&self) -> EventView {
        match self {
            Event::Init { admin, timestamp } => EventView::Init { admin: admin@, timestamp: *timestamp },
            Event::Badge { subject, badge } => EventView::Badge { subject: subject@, badge: *badge },
            Event::Deal { partner, data_hash, amount, nonce, timestamp } => EventView::Deal {
                partner: partner@,
                data_hash: *data_hash,
                amount: *amount,
                nonce: *nonce,
                timestamp: *timestamp,
            },
        }
    }
}

/// The views of a log's events, in order.
pub open spec fn log_view(log: Seq<Event>) -> Seq<EventView> {
    log.map_values(|e: Event| e@)
}

/// Appends an event to a log.
pub fn append(log: &mut Vec<Event>, e: Event)
    ensures
        log_view(final(log)@) == log_view(old(log)@).push(e@),
{
    let ghost before = log@;
    log.push(e);
    assert(log_view(log@) =~= log_view(before).push(e@));
}

} // verus!

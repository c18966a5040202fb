use vstd::prelude::*;
use crate::context::CallContext;
use crate::error::RegistryError;
use crate::event::{append, log_view, Event, EventView};
use crate::identity::Identity;

verus! {

/// The deal registrar. It keeps no storage: each registered deal exists only
/// as a `deal` event in the log, indexed by the partner that signed it.
pub struct PymeTokenContract {
    events: Vec<Event>,
}

/// The record that registering a deal appends to the log.
pub open spec fn deal_event(
    partner: Seq<u8>,
    data_hash: [u8; 32],
    amount: i128,
    nonce: i128,
    timestamp: u64,
) -> EventView {
    EventView::Deal { partner, data_hash, amount, nonce, timestamp }
}

impl PymeTokenContract {
    /// The emitted events, oldest first.
    pub closed spec fn log(&self) -> Seq<EventView> {
        log_view(self.events@)
    }

    /// A registrar that has emitted nothing.
    pub fn new() -> (r: PymeTokenContract)
        ensures
            r.log() == Seq::<EventView>::empty(),
    {
        let r = PymeTokenContract { events: Vec::new() };
        assert(r.log() =~= Seq::<EventView>::empty());
        r
    }

    /// Registers a financing deal. The call must be signed by `partner`
    /// itself; the amount and nonce are recorded as given. On success exactly
    /// one `deal` event is appended; on failure nothing changes.
    pub fn mint_deal(
        &mut self,
        ctx: &CallContext,
        data_hash: [u8; 32],
        partner: Identity,
        amount: i128,
        nonce: i128,
    ) -> (r: Result<(), RegistryError>)
        ensures
            r is Err <==> ctx.signer@ != partner@,
            r is Err ==> r == Err::<(), RegistryError>(RegistryError::NotAuthorized)
                && final(self).log() == old(self).log(),
            r is Ok ==> final(self).log() == old(self).log().push(
                deal_event(partner@, data_hash, amount, nonce, ctx.now),
            ),
    {
        if !ctx.signer.same_as(&partner) {
            return Err(RegistryError::NotAuthorized);
        }
        append(
            &mut self.events,
            Event::Deal { partner, data_hash, amount, nonce, timestamp: ctx.now },
        );
        Ok(())
    }

    /// The emitted events, oldest first.
    pub fn events(&self) -> (r: &Vec<Event>)
        ensures
            log_view(r@) == self.log(),
    {
        &self.events
    }
}

/// The arguments of one deal registration, with the time of the call.
pub struct DealCall {
    pub partner: Seq<u8>,
    pub data_hash: [u8; 32],
    pub amount: i128,
    pub nonce: i128,
    pub timestamp: u64,
}

/// The records that a run of registrations appends, in call order.
pub open spec fn deal_events(calls: Seq<DealCall>) -> Seq<EventView> {
    calls.map_values(
        |c: DealCall| deal_event(c.partner, c.data_hash, c.amount, c.nonce, c.timestamp),
    )
}

/// Over a run of successful registrations, where `states[i + 1]` is the
/// registrar after the call `calls[i]` on `states[i]`, the log grows by
/// exactly one `deal` record per call, each carrying that call's
/// arguments, and nothing else in it changes.
pub proof fn lemma_deals_only_append(states: Seq<PymeTokenContract>, calls: Seq<DealCall>)
    requires
        states.len() == calls.len() + 1,
        forall|i: int|
            0 <= i < calls.len() ==> states[i + 1].log() == states[i].log().push(
                deal_event(
                    (#[trigger] calls[i]).partner,
                    calls[i].data_hash,
                    calls[i].amount,
                    calls[i].nonce,
                    calls[i].timestamp,
                ),
            ),
    ensures
        states.last().log() == states[0].log() + deal_events(calls),
        states.last().log().len() == states[0].log().len() + calls.len(),
    decreases calls.len(),
{
    if calls.len() > 0 {
        let n = calls.len() - 1;
        let c = calls[n];
        assert forall|i: int| 0 <= i < n implies states.drop_last()[i + 1].log()
            == states.drop_last()[i].log().push(
            deal_event(
                (#[trigger] calls.drop_last()[i]).partner,
                calls.drop_last()[i].data_hash,
                calls.drop_last()[i].amount,
                calls.drop_last()[i].nonce,
                calls.drop_last()[i].timestamp,
            ),
        ) by {
            assert(calls.drop_last()[i] == calls[i]);
        }
        lemma_deals_only_append(states.drop_last(), calls.drop_last());
        assert(deal_events(calls) =~= deal_events(calls.drop_last()).push(
            deal_event(c.partner, c.data_hash, c.amount, c.nonce, c.timestamp),
        ));
        assert(states.last().log() =~= states[0].log() + deal_events(calls));
    } else {
        assert(deal_events(calls) =~= Seq::<EventView>::empty());
        assert(states[0].log() + deal_events(calls) =~= states[0].log());
    }
}

} // verus!

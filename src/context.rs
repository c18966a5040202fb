use vstd::prelude::*;
use crate::identity::Identity;

verus! {

/// What the host tells a mutating call: the identity whose signature it
/// verified for this invocation, and the ledger time at which it runs.
pub struct CallContext {
    pub signer: Identity,
    pub now: u64,
}

} // verus!

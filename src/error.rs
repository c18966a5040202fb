use vstd::prelude::*;

verus! {

/// Why a registry call was rejected. Every error aborts the call with no
/// change to storage and no event emitted.
#[derive(Debug, Clone, Copy, PartialEq, Eq, Structural)]
pub enum RegistryError {
    /// The admin slot is already set.
    AlreadyInitialized,
    /// The admin slot has not been set yet.
    NotInitialized,
    /// The party that must authorise the call did not sign it.
    NotAuthorized,
    /// The tier lies outside `1..=4`.
    InvalidTier,
    /// The score exceeds the maximum score.
    InvalidScore,
}

} // verus!

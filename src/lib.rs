//! A registry of time-bound credit badges and an event-only registrar of
//! financing deals, modelled as plain state machines over byte identities.
//!
//! The host environment (signature checks, ledger time, persistent storage
//! and the public event log) is represented by explicit values: a
//! [`CallContext`] names who authorised a call and when it runs, and every
//! contract instance owns the append-only log of the events it emitted.

pub mod badge;
pub mod context;
pub mod deal;
pub mod error;
pub mod event;
pub mod guarantees;
pub mod identity;
pub mod registry;

pub use badge::{live_badge, tier_or_zero, CreditBadge, BADGE_VALIDITY_SECS, MAX_SCORE, STORAGE_TTL_EXTENSION};
pub use context::CallContext;
pub use deal::PymeTokenContract;
pub use error::RegistryError;
pub use event::Event;
pub use identity::Identity;
pub use registry::{required_signer, IssuancePolicy, VigenteProtocol};


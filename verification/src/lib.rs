//! Governance engine of a donor-governed donation treasury.
//!
//! Donations give voting power, spending needs a proposal that passes a
//! quorum-and-threshold vote, and the treasury balance always equals what was
//! donated minus what executed proposals released.
//!
//! The engine owns no clock and knows no caller: every operation takes the
//! caller's identity and the time as arguments, and works on a
//! [`state::GovernanceState`] that the caller holds.
//!
//! * [`types`], [`identity`], [`error`], [`messages`]: the records, the
//!   identities, the refusals and the confirmations.
//! * [`tally`]: the rule that decides a proposal from its votes.
//! * [`model`]: the state and every operation as mathematics, and the
//!   invariant of the engine.
//! * [`state`]: the state and the operations themselves, each proved to do
//!   what the model says.
//! * [`validation`]: the run-time check of a state that comes from outside,
//!   and taking and installing snapshots.
//! * [`laws`]: what holds in every state and after every request.
//! * [`preservation`], [`sums`]: the lemmas behind the proofs.

pub mod error;
pub mod identity;
pub mod laws;
pub mod messages;
pub mod model;
pub mod preservation;
pub mod state;
pub mod sums;
pub mod tally;
pub mod types;
pub mod validation;

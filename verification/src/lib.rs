//! On-chain governance core: proposal lifecycle state machine and
//! time-decayed vote-escrow voting power.
//!
//! The crate holds the state-transition logic of a DAO governance system:
//! a [`govern::state::Governor`] owns governance parameters and a monotonic
//! proposal counter; each [`govern::state::Proposal`] derives its lifecycle
//! state from recorded timestamps and vote tallies; a
//! [`locked_voter::state::Locker`] aggregates time-locked
//! [`locked_voter::state::Escrow`] positions whose voting power decays
//! linearly as the lock approaches expiry.
//!
//! The hosting platform supplies persistence, account identity, signer
//! checks, token transfers and the clock; callers read the clock once per
//! operation and pass the timestamp in. Every operation here is a pure or
//! in-memory state transition with a contract, and every numeric step is
//! checked: arithmetic faults surface as errors, never as wrapped values.

pub mod account_key;
pub mod error;
pub mod govern;
pub mod locked_voter;
pub mod simple_voter;
pub mod well_known;

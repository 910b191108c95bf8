//! Proposal lifecycle and vote tallying.

pub mod events;
pub mod instructions;
pub mod proposal;
pub mod state;
pub mod tally;

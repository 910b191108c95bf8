//! Facts reported by successful governance operations.
//!
//! Every successful mutation returns one of these records so the caller
//! can hand it to the logging collaborator; how it is transported is not
//! the core's concern.

use vstd::prelude::*;

use crate::account_key::AccountKey;
use crate::govern::state::{GovernanceParameters, ProposalInstruction};

verus! {

/// A governor was created.
#[derive(Clone, Copy, Debug, PartialEq, Eq, Structural)]
pub struct GovernorCreateEvent {
    /// The governor being created.
    pub governor: AccountKey,
    /// The electorate of the created governor.
    pub electorate: AccountKey,
    /// The smart wallet that will execute the governor's proposals.
    pub smart_wallet: AccountKey,
    /// Governance parameters.
    pub parameters: GovernanceParameters,
}

/// A proposal was created.
#[derive(Clone, Debug)]
pub struct ProposalCreateEvent {
    /// The governor.
    pub governor: AccountKey,
    /// The proposal being created.
    pub proposal: AccountKey,
    /// The index of the proposal.
    pub index: u64,
    /// Instructions in the proposal.
    pub instructions: Vec<ProposalInstruction>,
}

/// A proposal was activated and voting began.
#[derive(Clone, Copy, Debug, PartialEq, Eq, Structural)]
pub struct ProposalActivateEvent {
    /// The governor.
    pub governor: AccountKey,
    /// The proposal being activated.
    pub proposal: AccountKey,
    /// When voting on the proposal ends.
    pub voting_ends_at: i64,
}

/// A draft proposal was canceled.
#[derive(Clone, Copy, Debug, PartialEq, Eq, Structural)]
pub struct ProposalCancelEvent {
    /// The governor.
    pub governor: AccountKey,
    /// The proposal being canceled.
    pub proposal: AccountKey,
}

/// A succeeded proposal was queued for execution.
#[derive(Clone, Copy, Debug, PartialEq, Eq, Structural)]
pub struct ProposalQueueEvent {
    /// The governor.
    pub governor: AccountKey,
    /// The proposal being queued.
    pub proposal: AccountKey,
    /// The execution record the proposal was queued into.
    pub transaction: AccountKey,
}

/// A vote's side and weight were set.
#[derive(Clone, Copy, Debug, PartialEq, Eq, Structural)]
pub struct VoteSetEvent {
    /// The governor.
    pub governor: AccountKey,
    /// The proposal being voted on.
    pub proposal: AccountKey,
    /// The voter.
    pub voter: AccountKey,
    /// The vote record.
    pub vote: AccountKey,
    /// The side the vote was set to, as its stored byte.
    pub side: u8,
    /// The weight the vote was set to.
    pub weight: u64,
}

/// Metadata was attached to a proposal.
#[derive(Clone, Debug)]
pub struct ProposalMetaCreateEvent {
    /// The governor.
    pub governor: AccountKey,
    /// The proposal the metadata describes.
    pub proposal: AccountKey,
    /// Title of the proposal.
    pub title: String,
    /// Link to a description of the proposal.
    pub description_link: String,
}

/// The governor's parameters were replaced.
#[derive(Clone, Copy, Debug, PartialEq, Eq, Structural)]
pub struct GovernorSetParamsEvent {
    /// The governor.
    pub governor: AccountKey,
    /// Previous governance parameters.
    pub prev_params: GovernanceParameters,
    /// New governance parameters.
    pub params: GovernanceParameters,
}

/// The governor's electorate was replaced.
#[derive(Clone, Copy, Debug, PartialEq, Eq, Structural)]
pub struct GovernorSetElectorateEvent {
    /// The governor.
    pub governor: AccountKey,
    /// The previous electorate.
    pub prev_electorate: AccountKey,
    /// The new electorate.
    pub new_electorate: AccountKey,
}

} // verus!

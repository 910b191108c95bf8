//! Records that hold governance state.

use vstd::prelude::*;

use crate::account_key::AccountKey;

verus! {

/// The root governance record of one DAO: it holds the parameters, the
/// monotonic proposal counter, and the references that gate who may act.
#[derive(Clone, Copy, Debug, PartialEq, Eq, Structural)]
pub struct Governor {
    /// Base key from which the governor's address is derived.
    pub base: AccountKey,
    /// Address-derivation bump seed.
    pub bump: u8,
    /// The total number of proposals ever created under this governor.
    /// Only ever increases; an index is never reused.
    pub proposal_count: u64,
    /// The voting body: the authority permitted to activate proposals and
    /// set vote weights. Typically another program's account, so voting
    /// strategies are pluggable.
    pub electorate: AccountKey,
    /// The smart wallet that executes queued proposals.
    pub smart_wallet: AccountKey,
    /// Governance parameters.
    pub params: GovernanceParameters,
}

/// Governance parameters.
#[derive(Clone, Copy, Debug, PartialEq, Eq, Structural)]
pub struct GovernanceParameters {
    /// The delay before voting on a proposal may take place, once proposed,
    /// in seconds.
    pub voting_delay: u64,
    /// The duration of voting on a proposal, in seconds.
    pub voting_period: u64,
    /// The number of votes required for a quorum to be reached and for a
    /// vote to succeed.
    pub quorum_votes: u64,
    /// The timelock delay of the DAO's created proposals, in seconds.
    /// Never negative on a well-formed governor.
    pub timelock_delay_seconds: i64,
}

impl Default for GovernanceParameters {
    /// All-zero parameters.
    fn default() -> (r: GovernanceParameters)
        ensures
            r == (GovernanceParameters {
                voting_delay: 0,
                voting_period: 0,
                quorum_votes: 0,
                timelock_delay_seconds: 0,
            }),
    {
        GovernanceParameters { voting_delay: 0, voting_period: 0, quorum_votes: 0, timelock_delay_seconds: 0 }
    }
}

/// A pending governance action, parented to exactly one governor.
///
/// The lifecycle state is never stored: it is re-derived from the timestamp
/// fields and tallies on every read (see [`crate::govern::proposal`]), so a
/// stale cached status can never disagree with the record.
#[derive(Clone, Debug)]
pub struct Proposal {
    /// The governor this proposal belongs to.
    pub governor: AccountKey,
    /// The unique, sequential ID of the proposal: equal to the governor's
    /// counter at creation time, and also used to derive the address.
    pub index: u64,
    /// Address-derivation bump seed.
    pub bump: u8,
    /// Who created the proposal.
    pub proposer: AccountKey,
    /// Quorum requirement, snapshotted from the governor's parameters at
    /// creation; later parameter changes do not affect in-flight proposals.
    pub quorum_votes: u64,
    /// Current number of votes in favor of this proposal.
    pub for_votes: u64,
    /// Current number of votes in opposition to this proposal.
    pub against_votes: u64,
    /// Current number of votes for abstaining on this proposal.
    pub abstain_votes: u64,
    /// When the proposal was canceled; 0 = never.
    pub canceled_at: i64,
    /// When the proposal was created; 0 = never.
    pub created_at: i64,
    /// When the proposal was activated and voting began; 0 = never.
    pub activated_at: i64,
    /// When voting ends; meaningful only once activated.
    pub voting_ends_at: i64,
    /// When the proposal was queued for execution; 0 = never.
    pub queued_at: i64,
    /// The execution record created on queueing; the zero key = none.
    pub queued_transaction: AccountKey,
    /// The instructions to execute if the proposal passes.
    pub instructions: Vec<ProposalInstruction>,
}

impl Default for Proposal {
    /// A blank proposal: every field zero, no instructions.
    fn default() -> (r: Proposal)
        ensures
            r.governor == AccountKey::spec_zero(),
            r.index == 0,
            r.bump == 0,
            r.proposer == AccountKey::spec_zero(),
            r.quorum_votes == 0,
            r.for_votes == 0,
            r.against_votes == 0,
            r.abstain_votes == 0,
            r.canceled_at == 0,
            r.created_at == 0,
            r.activated_at == 0,
            r.voting_ends_at == 0,
            r.queued_at == 0,
            r.queued_transaction == AccountKey::spec_zero(),
            r.instructions@ == Seq::<ProposalInstruction>::empty(),
    {
        Proposal {
            governor: AccountKey::zero(),
            index: 0,
            bump: 0,
            proposer: AccountKey::zero(),
            quorum_votes: 0,
            for_votes: 0,
            against_votes: 0,
            abstain_votes: 0,
            canceled_at: 0,
            created_at: 0,
            activated_at: 0,
            voting_ends_at: 0,
            queued_at: 0,
            queued_transaction: AccountKey::zero(),
            instructions: Vec::new(),
        }
    }
}

/// Metadata about a proposal.
#[derive(Clone, Debug)]
pub struct ProposalMeta {
    /// The proposal this metadata describes.
    pub proposal: AccountKey,
    /// Title of the proposal.
    pub title: String,
    /// Link to a description of the proposal.
    pub description_link: String,
}

/// One voter's ballot on one proposal.
///
/// Its weight always equals exactly what was last recorded into the
/// proposal's tally for its side; changing a vote re-weighs the proposal
/// atomically (subtract the old side and weight, add the new).
#[derive(Clone, Copy, Debug, PartialEq, Eq, Structural)]
pub struct Vote {
    /// The proposal being voted on.
    pub proposal: AccountKey,
    /// The voter.
    pub voter: AccountKey,
    /// Address-derivation bump seed.
    pub bump: u8,
    /// The side of the vote taken, encoded as a byte
    /// (see [`crate::govern::proposal::VoteSide`]).
    pub side: u8,
    /// The number of votes this vote holds.
    pub weight: u64,
}

impl Default for Vote {
    /// A blank ballot: zero keys, pending side, zero weight.
    fn default() -> (r: Vote)
        ensures
            r == (Vote {
                proposal: AccountKey::spec_zero(),
                voter: AccountKey::spec_zero(),
                bump: 0,
                side: 0,
                weight: 0,
            }),
    {
        Vote {
            proposal: AccountKey::zero(),
            voter: AccountKey::zero(),
            bump: 0,
            side: 0,
            weight: 0,
        }
    }
}

/// One instruction to execute if a proposal passes: an opaque descriptor
/// handed to the execution layer, never interpreted here.
#[derive(Clone, Debug)]
pub struct ProposalInstruction {
    /// Key of the instruction processor that executes this instruction.
    pub program_id: AccountKey,
    /// Which accounts should be passed to the instruction processor.
    pub keys: Vec<ProposalAccountMeta>,
    /// Opaque data passed to the instruction processor.
    pub data: Vec<u8>,
}

/// Whether two instruction descriptors describe the same instruction:
/// the same processor, the same account list and the same payload.
pub open spec fn instruction_matches(a: ProposalInstruction, b: ProposalInstruction) -> bool {
    &&& a.program_id == b.program_id
    &&& a.keys@ == b.keys@
    &&& a.data@ == b.data@
}

impl ProposalInstruction {
    /// An element-wise copy of this descriptor.
    pub fn duplicate(&self) -> (r: ProposalInstruction)
        ensures
            instruction_matches(r, *self),
    {
        let mut keys: Vec<ProposalAccountMeta> = Vec::new();
        let mut i: usize = 0;
        while i < self.keys.len()
            invariant
                i <= self.keys.len(),
                keys@ == self.keys@.take(i as int),
            decreases self.keys.len() - i,
        {
            keys.push(self.keys[i]);
            i = i + 1;
        }
        proof {
            assert(keys@ =~= self.keys@);
        }
        let mut data: Vec<u8> = Vec::new();
        let mut j: usize = 0;
        while j < self.data.len()
            invariant
                j <= self.data.len(),
                data@ == self.data@.take(j as int),
            decreases self.data.len() - j,
        {
            data.push(self.data[j]);
            j = j + 1;
        }
        proof {
            assert(data@ =~= self.data@);
        }
        ProposalInstruction { program_id: self.program_id, keys, data }
    }
}

/// An element-wise copy of a whole instruction list.
pub fn duplicate_instructions(instructions: &Vec<ProposalInstruction>) -> (r: Vec<
    ProposalInstruction,
>)
    ensures
        r@.len() == instructions@.len(),
        forall|i: int|
            0 <= i < instructions@.len() ==> instruction_matches(r@[i], instructions@[i]),
{
    let mut out: Vec<ProposalInstruction> = Vec::new();
    let mut i: usize = 0;
    while i < instructions.len()
        invariant
            i <= instructions.len(),
            out@.len() == i,
            forall|k: int| 0 <= k < i ==> instruction_matches(out@[k], instructions@[k]),
        decreases instructions.len() - i,
    {
        out.push(instructions[i].duplicate());
        i = i + 1;
    }
    out
}

/// Account metadata used to define instructions.
#[derive(Clone, Copy, Debug, PartialEq, Eq, Structural)]
pub struct ProposalAccountMeta {
    /// An account's key.
    pub pubkey: AccountKey,
    /// True if the instruction requires a transaction signature matching
    /// `pubkey`.
    pub is_signer: bool,
    /// True if the account may be written to.
    pub is_writable: bool,
}

} // verus!

//! Proposal lifecycle logic: the derived state machine and the tally
//! mutations.

use vstd::prelude::*;

use crate::error::ErrorCode;
use crate::govern::state::Proposal;

verus! {

/// The lifecycle state of a proposal.
///
/// There is no explicit "expired" state: execution timing is delegated
/// entirely to the downstream execution layer.
#[derive(Clone, Copy, Debug, PartialEq, Eq, Structural)]
pub enum ProposalState {
    /// A freshly created proposal under review; voting has not begun.
    Draft,
    /// Surfaced to the community and open for voting.
    Active,
    /// Canceled by its creator while still a draft; a canceled proposal
    /// cannot be reactivated and simply exists as a record.
    Canceled,
    /// Voting is over and the proposal lost: either at least as many votes
    /// were against as for, or the total vote count missed quorum.
    Defeated,
    /// Voting is over, the proposal was not defeated and not yet queued.
    Succeeded,
    /// A succeeded proposal that has been handed to the execution layer.
    Queued,
}

impl Default for ProposalState {
    /// A proposal starts as a draft.
    fn default() -> (r: ProposalState)
        ensures
            r == ProposalState::Draft,
    {
        ProposalState::Draft
    }
}

/// Side of a vote.
#[derive(Clone, Copy, Debug, PartialEq, Eq, Structural)]
pub enum VoteSide {
    /// A vote that has not been set or has been unset.
    Pending,
    /// Vote against the passing of the proposal.
    Against,
    /// Vote to make the proposal pass.
    For,
    /// Counts toward quorum without counting for or against.
    Abstain,
}

impl Default for VoteSide {
    /// A vote starts pending.
    fn default() -> (r: VoteSide)
        ensures
            r == VoteSide::Pending,
    {
        VoteSide::Pending
    }
}

/// The byte that encodes a vote side in a stored [`crate::govern::state::Vote`].
pub open spec fn side_as_u8(side: VoteSide) -> u8 {
    match side {
        VoteSide::Pending => 0,
        VoteSide::Against => 1,
        VoteSide::For => 2,
        VoteSide::Abstain => 3,
    }
}

/// The side a byte decodes to, if any.
pub open spec fn side_from_u8(value: u8) -> Option<VoteSide> {
    if value == 0 {
        Some(VoteSide::Pending)
    } else if value == 1 {
        Some(VoteSide::Against)
    } else if value == 2 {
        Some(VoteSide::For)
    } else if value == 3 {
        Some(VoteSide::Abstain)
    } else {
        None
    }
}

impl VoteSide {
    /// Decodes a stored side byte; an out-of-range value is rejected at
    /// this boundary, before any tally math sees it.
    pub fn try_from(value: u8) -> (r: Result<VoteSide, ErrorCode>)
        ensures
            match side_from_u8(value) {
                Some(side) => r == Ok::<VoteSide, ErrorCode>(side),
                None => r == Err::<VoteSide, ErrorCode>(ErrorCode::InvalidVoteSide),
            },
    {
        if value == 0 {
            Ok(VoteSide::Pending)
        } else if value == 1 {
            Ok(VoteSide::Against)
        } else if value == 2 {
            Ok(VoteSide::For)
        } else if value == 3 {
            Ok(VoteSide::Abstain)
        } else {
            Err(ErrorCode::InvalidVoteSide)
        }
    }

    /// The byte this side is stored as.
    pub fn as_u8(self) -> (r: u8)
        ensures
            r == side_as_u8(self),
    {
        match self {
            VoteSide::Pending => 0,
            VoteSide::Against => 1,
            VoteSide::For => 2,
            VoteSide::Abstain => 3,
        }
    }
}

impl From<VoteSide> for u8 {
    /// The byte a side is stored as.
    fn from(side: VoteSide) -> (r: u8) {
        side.as_u8()
    }
}

impl vstd::std_specs::convert::FromSpecImpl<VoteSide> for u8 {
    open spec fn obeys_from_spec() -> bool {
        true
    }

    open spec fn from_spec(side: VoteSide) -> u8 {
        side_as_u8(side)
    }
}

/// Whether enough votes were cast on the proposal to reach `quorum`:
/// the sum for + against + abstain compared against the quorum, or no value
/// if that sum overflows.
pub open spec fn spec_meets_quorum(p: Proposal, quorum: u64) -> Option<bool> {
    if p.for_votes + p.against_votes + p.abstain_votes > u64::MAX {
        None
    } else {
        Some(p.for_votes + p.against_votes + p.abstain_votes >= quorum)
    }
}

/// The derived lifecycle state, evaluated in strict priority order:
/// cancellation overrides everything; an unactivated proposal is a draft;
/// voting runs until `voting_ends_at`; a tie or a missed quorum defeats;
/// a queued proposal stays queued; what remains has succeeded. The only
/// undefined case is a quorum sum that overflows.
pub open spec fn spec_state(p: Proposal, now: i64) -> Option<ProposalState> {
    if p.canceled_at > 0 {
        Some(ProposalState::Canceled)
    } else if p.activated_at == 0 {
        Some(ProposalState::Draft)
    } else if now < p.voting_ends_at {
        Some(ProposalState::Active)
    } else if p.for_votes <= p.against_votes {
        Some(ProposalState::Defeated)
    } else {
        match spec_meets_quorum(p, p.quorum_votes) {
            None => None,
            Some(met) => if !met {
                Some(ProposalState::Defeated)
            } else if p.queued_at > 0 {
                Some(ProposalState::Queued)
            } else {
                Some(ProposalState::Succeeded)
            },
        }
    }
}

/// The proposal after `weight` is removed from `side`'s tally, or no value
/// if that tally would underflow. A zero weight, or the pending side, is a
/// no-op.
pub open spec fn spec_subtract_vote_weight(p: Proposal, side: VoteSide, weight: u64) -> Option<
    Proposal,
> {
    if weight == 0 {
        Some(p)
    } else {
        match side {
            VoteSide::Pending => Some(p),
            VoteSide::Against => if p.against_votes >= weight {
                Some(Proposal { against_votes: (p.against_votes - weight) as u64, ..p })
            } else {
                None
            },
            VoteSide::For => if p.for_votes >= weight {
                Some(Proposal { for_votes: (p.for_votes - weight) as u64, ..p })
            } else {
                None
            },
            VoteSide::Abstain => if p.abstain_votes >= weight {
                Some(Proposal { abstain_votes: (p.abstain_votes - weight) as u64, ..p })
            } else {
                None
            },
        }
    }
}

/// The proposal after `weight` is added to `side`'s tally, or no value if
/// that tally would overflow. A zero weight, or the pending side, is a
/// no-op.
pub open spec fn spec_add_vote_weight(p: Proposal, side: VoteSide, weight: u64) -> Option<
    Proposal,
> {
    if weight == 0 {
        Some(p)
    } else {
        match side {
            VoteSide::Pending => Some(p),
            VoteSide::Against => if p.against_votes + weight <= u64::MAX {
                Some(Proposal { against_votes: (p.against_votes + weight) as u64, ..p })
            } else {
                None
            },
            VoteSide::For => if p.for_votes + weight <= u64::MAX {
                Some(Proposal { for_votes: (p.for_votes + weight) as u64, ..p })
            } else {
                None
            },
            VoteSide::Abstain => if p.abstain_votes + weight <= u64::MAX {
                Some(Proposal { abstain_votes: (p.abstain_votes + weight) as u64, ..p })
            } else {
                None
            },
        }
    }
}

impl Proposal {
    /// Checks if the proposal meets quorum; that is, enough votes were made
    /// on the proposal.
    pub fn meets_quorum(&self, quorum_votes: u64) -> (r: Option<bool>)
        ensures
            r == spec_meets_quorum(*self, quorum_votes),
    {
        if self.for_votes > u64::MAX - self.against_votes {
            return None;
        }
        let for_and_against: u64 = self.for_votes + self.against_votes;
        if for_and_against > u64::MAX - self.abstain_votes {
            return None;
        }
        Some(for_and_against + self.abstain_votes >= quorum_votes)
    }

    /// The state of the proposal at `current_time`, re-derived from the
    /// record; see [`spec_state`] for the priority order.
    pub fn state(&self, current_time: i64) -> (r: Option<ProposalState>)
        ensures
            r == spec_state(*self, current_time),
    {
        if self.canceled_at > 0 {
            return Some(ProposalState::Canceled);
        }
        if self.activated_at == 0 {
            return Some(ProposalState::Draft);
        }
        if current_time < self.voting_ends_at {
            return Some(ProposalState::Active);
        }
        if self.for_votes <= self.against_votes {
            return Some(ProposalState::Defeated);
        }
        match self.meets_quorum(self.quorum_votes) {
            None => None,
            Some(met) => if !met {
                Some(ProposalState::Defeated)
            } else if self.queued_at > 0 {
                Some(ProposalState::Queued)
            } else {
                Some(ProposalState::Succeeded)
            },
        }
    }

    /// Subtracts from the total weight of a vote for this proposal.
    /// Underflow is a fatal arithmetic fault and leaves the record
    /// untouched: a tally is never clamped to zero.
    pub(crate) fn subtract_vote_weight(&mut self, vote_side: VoteSide, vote_weight: u64) -> (r: Result<
        (),
        ErrorCode,
    >)
        ensures
            match spec_subtract_vote_weight(*old(self), vote_side, vote_weight) {
                Some(p) => r is Ok && *final(self) == p,
                None => {
                    &&& r == Err::<(), ErrorCode>(ErrorCode::ArithmeticFault)
                    &&& *final(self) == *old(self)
                },
            },
    {
        if vote_weight == 0 {
            return Ok(());
        }
        match vote_side {
            VoteSide::Pending => Ok(()),
            VoteSide::Against => {
                if self.against_votes >= vote_weight {
                    self.against_votes = self.against_votes - vote_weight;
                    Ok(())
                } else {
                    Err(ErrorCode::ArithmeticFault)
                }
            },
            VoteSide::For => {
                if self.for_votes >= vote_weight {
                    self.for_votes = self.for_votes - vote_weight;
                    Ok(())
                } else {
                    Err(ErrorCode::ArithmeticFault)
                }
            },
            VoteSide::Abstain => {
                if self.abstain_votes >= vote_weight {
                    self.abstain_votes = self.abstain_votes - vote_weight;
                    Ok(())
                } else {
                    Err(ErrorCode::ArithmeticFault)
                }
            },
        }
    }

    /// Adds to the total weight of a vote for this proposal. Overflow is a
    /// fatal arithmetic fault and leaves the record untouched.
    pub(crate) fn add_vote_weight(&mut self, vote_side: VoteSide, vote_weight: u64) -> (r: Result<
        (),
        ErrorCode,
    >)
        ensures
            match spec_add_vote_weight(*old(self), vote_side, vote_weight) {
                Some(p) => r is Ok && *final(self) == p,
                None => {
                    &&& r == Err::<(), ErrorCode>(ErrorCode::ArithmeticFault)
                    &&& *final(self) == *old(self)
                },
            },
    {
        if vote_weight == 0 {
            return Ok(());
        }
        match vote_side {
            VoteSide::Pending => Ok(()),
            VoteSide::Against => {
                if self.against_votes <= u64::MAX - vote_weight {
                    self.against_votes = self.against_votes + vote_weight;
                    Ok(())
                } else {
                    Err(ErrorCode::ArithmeticFault)
                }
            },
            VoteSide::For => {
                if self.for_votes <= u64::MAX - vote_weight {
                    self.for_votes = self.for_votes + vote_weight;
                    Ok(())
                } else {
                    Err(ErrorCode::ArithmeticFault)
                }
            },
            VoteSide::Abstain => {
                if self.abstain_votes <= u64::MAX - vote_weight {
                    self.abstain_votes = self.abstain_votes + vote_weight;
                    Ok(())
                } else {
                    Err(ErrorCode::ArithmeticFault)
                }
            },
        }
    }
}

/// The state machine is total: for every proposal whose tallies sum without
/// overflowing a 64-bit count, and for every time, the derived state is
/// defined — and, being an enum value, it is exactly one of the six states.
pub proof fn lemma_state_total(p: Proposal, now: i64)
    requires
        p.for_votes + p.against_votes + p.abstain_votes <= u64::MAX,
    ensures
        spec_state(p, now) is Some,
{
}

/// Cancellation is terminal: once `canceled_at` is set, the derived state
/// is `Canceled` at every time, whatever the other fields hold.
pub proof fn lemma_canceled_overrides(p: Proposal, now: i64)
    requires
        p.canceled_at > 0,
    ensures
        spec_state(p, now) == Some(ProposalState::Canceled),
{
}

} // verus!

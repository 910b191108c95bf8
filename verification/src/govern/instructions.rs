//! The governance operations: every mutation of a governor, proposal or
//! vote record, each with an exact contract.
//!
//! Access control (who may sign which operation) and the transaction
//! boundary that discards partial effects on failure belong to the
//! hosting platform; each operation here re-asserts its lifecycle
//! preconditions defensively and reports the resulting fact on success.

use vstd::prelude::*;

use crate::account_key::AccountKey;
use crate::error::ErrorCode;
use crate::govern::events::{
    GovernorCreateEvent, GovernorSetElectorateEvent, GovernorSetParamsEvent, ProposalActivateEvent,
    ProposalCancelEvent, ProposalCreateEvent, ProposalMetaCreateEvent, ProposalQueueEvent,
    VoteSetEvent,
};
use crate::govern::proposal::{
    side_from_u8, spec_add_vote_weight, spec_state, spec_subtract_vote_weight, ProposalState,
    VoteSide,
};
use crate::govern::state::{
    duplicate_instructions, instruction_matches, GovernanceParameters, Governor, Proposal,
    ProposalInstruction, ProposalMeta, Vote,
};

verus! {

/// Creates a governor. A negative timelock delay is rejected; everything
/// else is recorded as given, with the proposal counter starting at zero.
pub fn create_governor(
    governor_key: AccountKey,
    base: AccountKey,
    bump: u8,
    smart_wallet: AccountKey,
    electorate: AccountKey,
    params: GovernanceParameters,
) -> (r: Result<(Governor, GovernorCreateEvent), ErrorCode>)
    ensures
        params.timelock_delay_seconds < 0 ==> r == Err::<(Governor, GovernorCreateEvent), ErrorCode>(
            ErrorCode::InvalidTimelockDelay,
        ),
        params.timelock_delay_seconds >= 0 ==> {
            &&& r is Ok
            &&& r->Ok_0.0 == (Governor {
                base,
                bump,
                proposal_count: 0,
                electorate,
                smart_wallet,
                params,
            })
            &&& r->Ok_0.1 == (GovernorCreateEvent {
                governor: governor_key,
                electorate,
                smart_wallet,
                parameters: params,
            })
        },
{
    if params.timelock_delay_seconds < 0 {
        return Err(ErrorCode::InvalidTimelockDelay);
    }
    let governor = Governor { base, bump, proposal_count: 0, electorate, smart_wallet, params };
    let event = GovernorCreateEvent {
        governor: governor_key,
        electorate,
        smart_wallet,
        parameters: params,
    };
    Ok((governor, event))
}

/// Creates a proposal under `governor`: the new record takes the counter's
/// current value as its never-reused index and snapshots the quorum
/// requirement, and the counter increases by one (checked — it must never
/// wrap back to a reused index). On a fault the governor is untouched.
pub fn create_proposal(
    governor: &mut Governor,
    governor_key: AccountKey,
    proposal_key: AccountKey,
    bump: u8,
    proposer: AccountKey,
    instructions: Vec<ProposalInstruction>,
    created_at: i64,
) -> (r: Result<(Proposal, ProposalCreateEvent), ErrorCode>)
    ensures
        old(governor).proposal_count == u64::MAX ==> {
            &&& r == Err::<(Proposal, ProposalCreateEvent), ErrorCode>(ErrorCode::ArithmeticFault)
            &&& *final(governor) == *old(governor)
        },
        old(governor).proposal_count < u64::MAX ==> {
            &&& r is Ok
            &&& *final(governor) == (Governor {
                proposal_count: (old(governor).proposal_count + 1) as u64,
                ..*old(governor)
            })
            &&& r->Ok_0.0 == (Proposal {
                governor: governor_key,
                index: old(governor).proposal_count,
                bump,
                proposer,
                quorum_votes: old(governor).params.quorum_votes,
                for_votes: 0,
                against_votes: 0,
                abstain_votes: 0,
                canceled_at: 0,
                created_at,
                activated_at: 0,
                voting_ends_at: 0,
                queued_at: 0,
                queued_transaction: AccountKey::spec_zero(),
                instructions,
            })
            &&& r->Ok_0.1.governor == governor_key
            &&& r->Ok_0.1.proposal == proposal_key
            &&& r->Ok_0.1.index == old(governor).proposal_count
            &&& r->Ok_0.1.instructions@.len() == instructions@.len()
            &&& forall|i: int|
                0 <= i < instructions@.len() ==> instruction_matches(
                    r->Ok_0.1.instructions@[i],
                    instructions@[i],
                )
        },
{
    if governor.proposal_count == u64::MAX {
        return Err(ErrorCode::ArithmeticFault);
    }
    let index = governor.proposal_count;
    let reported = duplicate_instructions(&instructions);
    let proposal = Proposal {
        governor: governor_key,
        index,
        bump,
        proposer,
        quorum_votes: governor.params.quorum_votes,
        for_votes: 0,
        against_votes: 0,
        abstain_votes: 0,
        canceled_at: 0,
        created_at,
        activated_at: 0,
        voting_ends_at: 0,
        queued_at: 0,
        queued_transaction: AccountKey::zero(),
        instructions,
    };
    governor.proposal_count = governor.proposal_count + 1;
    let event = ProposalCreateEvent {
        governor: governor_key,
        proposal: proposal_key,
        index,
        instructions: reported,
    };
    Ok((proposal, event))
}

/// The proposal after activation at `now`, or the error that rejects it:
/// only a draft may be activated, only once the voting delay has elapsed
/// since creation, and the voting window must fit the timestamp range.
pub open spec fn spec_activate(governor: Governor, p: Proposal, now: i64) -> Result<
    Proposal,
    ErrorCode,
> {
    if spec_state(p, now) is None {
        Err(ErrorCode::ArithmeticFault)
    } else if spec_state(p, now) != Some(ProposalState::Draft) {
        Err(ErrorCode::ProposalNotDraft)
    } else if p.created_at + governor.params.voting_delay > i64::MAX {
        Err(ErrorCode::ArithmeticFault)
    } else if now < p.created_at + governor.params.voting_delay {
        Err(ErrorCode::VotingDelayNotMet)
    } else if now + governor.params.voting_period > i64::MAX {
        Err(ErrorCode::ArithmeticFault)
    } else {
        Ok(
            Proposal {
                activated_at: now,
                voting_ends_at: (now + governor.params.voting_period) as i64,
                ..p
            },
        )
    }
}

/// Activates a draft proposal once its voting delay has elapsed: records
/// `now` as the activation time and schedules the end of voting one
/// voting period later. On any rejection the proposal is untouched.
pub fn activate_proposal(
    governor: &Governor,
    proposal: &mut Proposal,
    proposal_key: AccountKey,
    now: i64,
) -> (r: Result<ProposalActivateEvent, ErrorCode>)
    ensures
        match spec_activate(*governor, *old(proposal), now) {
            Ok(p) => {
                &&& *final(proposal) == p
                &&& r == Ok::<ProposalActivateEvent, ErrorCode>(ProposalActivateEvent {
                    governor: p.governor,
                    proposal: proposal_key,
                    voting_ends_at: p.voting_ends_at,
                })
            },
            Err(e) => {
                &&& r == Err::<ProposalActivateEvent, ErrorCode>(e)
                &&& *final(proposal) == *old(proposal)
            },
        },
{
    match proposal.state(now) {
        None => {
            return Err(ErrorCode::ArithmeticFault);
        },
        Some(state) => {
            if state != ProposalState::Draft {
                return Err(ErrorCode::ProposalNotDraft);
            }
        },
    }
    let earliest_activation: i128 = (proposal.created_at as i128) + (
    governor.params.voting_delay as i128);
    if earliest_activation > i64::MAX as i128 {
        return Err(ErrorCode::ArithmeticFault);
    }
    if (now as i128) < earliest_activation {
        return Err(ErrorCode::VotingDelayNotMet);
    }
    let voting_ends: i128 = (now as i128) + (governor.params.voting_period as i128);
    if voting_ends > i64::MAX as i128 {
        return Err(ErrorCode::ArithmeticFault);
    }
    proposal.activated_at = now;
    proposal.voting_ends_at = voting_ends as i64;
    Ok(
        ProposalActivateEvent {
            governor: proposal.governor,
            proposal: proposal_key,
            voting_ends_at: proposal.voting_ends_at,
        },
    )
}

/// The proposal after cancellation at `now`, or the error that rejects
/// it: only a draft may be canceled — once voting begins, the proposer
/// loses unilateral withdrawal rights.
pub open spec fn spec_cancel(p: Proposal, now: i64) -> Result<Proposal, ErrorCode> {
    if spec_state(p, now) is None {
        Err(ErrorCode::ArithmeticFault)
    } else if spec_state(p, now) != Some(ProposalState::Draft) {
        Err(ErrorCode::ProposalNotDraft)
    } else {
        Ok(Proposal { canceled_at: now, ..p })
    }
}

/// Cancels a draft proposal: records `now` as the cancellation time,
/// which makes the derived state `Canceled` forever after. On any
/// rejection the proposal is untouched.
pub fn cancel_proposal(proposal: &mut Proposal, proposal_key: AccountKey, now: i64) -> (r: Result<
    ProposalCancelEvent,
    ErrorCode,
>)
    ensures
        match spec_cancel(*old(proposal), now) {
            Ok(p) => {
                &&& *final(proposal) == p
                &&& r == Ok::<ProposalCancelEvent, ErrorCode>(ProposalCancelEvent {
                    governor: p.governor,
                    proposal: proposal_key,
                })
            },
            Err(e) => {
                &&& r == Err::<ProposalCancelEvent, ErrorCode>(e)
                &&& *final(proposal) == *old(proposal)
            },
        },
{
    match proposal.state(now) {
        None => {
            return Err(ErrorCode::ArithmeticFault);
        },
        Some(state) => {
            if state != ProposalState::Draft {
                return Err(ErrorCode::ProposalNotDraft);
            }
        },
    }
    proposal.canceled_at = now;
    Ok(ProposalCancelEvent { governor: proposal.governor, proposal: proposal_key })
}

/// The proposal after queueing at `now` together with the execution ETA,
/// or the error that rejects it. Only a proposal whose derived state is
/// exactly `Succeeded` may be queued. With a zero timelock delay the
/// batch is eligible immediately (no ETA); otherwise the ETA is
/// `now + timelock_delay_seconds`, checked.
pub open spec fn spec_queue(governor: Governor, p: Proposal, tx_key: AccountKey, now: i64) -> Result<
    (Proposal, Option<i64>),
    ErrorCode,
> {
    if spec_state(p, now) is None {
        Err(ErrorCode::ArithmeticFault)
    } else if spec_state(p, now) != Some(ProposalState::Succeeded) {
        Err(ErrorCode::ProposalNotSucceeded)
    } else if governor.params.timelock_delay_seconds == 0 {
        Ok((Proposal { queued_at: now, queued_transaction: tx_key, ..p }, None))
    } else if now + governor.params.timelock_delay_seconds > i64::MAX || now
        + governor.params.timelock_delay_seconds < i64::MIN {
        Err(ErrorCode::ArithmeticFault)
    } else {
        Ok(
            (
                Proposal { queued_at: now, queued_transaction: tx_key, ..p },
                Some((now + governor.params.timelock_delay_seconds) as i64),
            ),
        )
    }
}

/// Queues a succeeded proposal for execution: records `now` and the
/// execution record's key, and returns the fact together with the ETA the
/// caller must hand to the execution layer (`None` = eligible now). The
/// instruction batch itself is the proposal's stored list; this core does
/// not execute it. On any rejection the proposal is untouched.
pub fn queue_proposal(
    governor: &Governor,
    proposal: &mut Proposal,
    proposal_key: AccountKey,
    tx_key: AccountKey,
    now: i64,
) -> (r: Result<(ProposalQueueEvent, Option<i64>), ErrorCode>)
    ensures
        match spec_queue(*governor, *old(proposal), tx_key, now) {
            Ok(updated) => {
                &&& *final(proposal) == updated.0
                &&& r is Ok
                &&& r->Ok_0.0 == (ProposalQueueEvent {
                    governor: updated.0.governor,
                    proposal: proposal_key,
                    transaction: tx_key,
                })
                &&& r->Ok_0.1 == updated.1
            },
            Err(e) => {
                &&& r == Err::<(ProposalQueueEvent, Option<i64>), ErrorCode>(e)
                &&& *final(proposal) == *old(proposal)
            },
        },
{
    match proposal.state(now) {
        None => {
            return Err(ErrorCode::ArithmeticFault);
        },
        Some(state) => {
            if state != ProposalState::Succeeded {
                return Err(ErrorCode::ProposalNotSucceeded);
            }
        },
    }
    let delay = governor.params.timelock_delay_seconds;
    let eta: Option<i64> = if delay == 0 {
        None
    } else {
        if delay > 0 && now > i64::MAX - delay {
            return Err(ErrorCode::ArithmeticFault);
        }
        if delay < 0 && now < i64::MIN - delay {
            return Err(ErrorCode::ArithmeticFault);
        }
        Some(now + delay)
    };
    proposal.queued_at = now;
    proposal.queued_transaction = tx_key;
    Ok(
        (
            ProposalQueueEvent {
                governor: proposal.governor,
                proposal: proposal_key,
                transaction: tx_key,
            },
            eta,
        ),
    )
}

/// Creates a blank ballot for `voter` on a proposal: pending side, zero
/// weight. Anyone may do this; the ballot only gains weight through
/// [`set_vote`].
pub fn new_vote(proposal_key: AccountKey, voter: AccountKey, bump: u8) -> (r: Vote)
    ensures
        r == (Vote { proposal: proposal_key, voter, bump, side: 0, weight: 0 }),
{
    Vote { proposal: proposal_key, voter, bump, side: 0, weight: 0 }
}

/// The proposal and ballot after the ballot is re-set to `side` with
/// `weight` at time `now`, or the error that rejects the change.
///
/// The proposal must be active. The ballot's old weight is first
/// subtracted from its old side's tally and the new weight then added to
/// the new side's — never a blind overwrite — so the tallies always equal
/// the sum of the live ballots (see [`crate::govern::tally`]). An
/// out-of-range side byte is rejected before any tally math; an underflow
/// or overflow is a fatal arithmetic fault.
pub open spec fn spec_set_vote(p: Proposal, v: Vote, side: u8, weight: u64, now: i64) -> Result<
    (Proposal, Vote),
    ErrorCode,
> {
    if spec_state(p, now) is None {
        Err(ErrorCode::ArithmeticFault)
    } else if spec_state(p, now) != Some(ProposalState::Active) {
        Err(ErrorCode::ProposalNotActive)
    } else {
        match side_from_u8(v.side) {
            None => Err(ErrorCode::InvalidVoteSide),
            Some(old_side) => match spec_subtract_vote_weight(p, old_side, v.weight) {
                None => Err(ErrorCode::ArithmeticFault),
                Some(p1) => match side_from_u8(side) {
                    None => Err(ErrorCode::InvalidVoteSide),
                    Some(new_side) => match spec_add_vote_weight(p1, new_side, weight) {
                        None => Err(ErrorCode::ArithmeticFault),
                        Some(p2) => Ok((p2, Vote { side, weight, ..v })),
                    },
                },
            },
        }
    }
}

/// Sets a ballot's side and weight while the proposal is active,
/// re-weighing the proposal's tallies atomically: on any rejection both
/// records are untouched.
pub fn set_vote(
    proposal: &mut Proposal,
    vote: &mut Vote,
    proposal_key: AccountKey,
    vote_key: AccountKey,
    side: u8,
    weight: u64,
    now: i64,
) -> (r: Result<VoteSetEvent, ErrorCode>)
    ensures
        match spec_set_vote(*old(proposal), *old(vote), side, weight, now) {
            Ok(updated) => {
                &&& *final(proposal) == updated.0
                &&& *final(vote) == updated.1
                &&& r == Ok::<VoteSetEvent, ErrorCode>(VoteSetEvent {
                    governor: updated.0.governor,
                    proposal: proposal_key,
                    voter: updated.1.voter,
                    vote: vote_key,
                    side,
                    weight,
                })
            },
            Err(e) => {
                &&& r == Err::<VoteSetEvent, ErrorCode>(e)
                &&& *final(proposal) == *old(proposal)
                &&& *final(vote) == *old(vote)
            },
        },
{
    match proposal.state(now) {
        None => {
            return Err(ErrorCode::ArithmeticFault);
        },
        Some(state) => {
            if state != ProposalState::Active {
                return Err(ErrorCode::ProposalNotActive);
            }
        },
    }
    let old_side = match VoteSide::try_from(vote.side) {
        Ok(s) => s,
        Err(e) => {
            return Err(e);
        },
    };
    if let Err(e) = proposal.subtract_vote_weight(old_side, vote.weight) {
        return Err(e);
    }
    let new_side = match VoteSide::try_from(side) {
        Ok(s) => s,
        Err(e) => {
            // undo the subtraction: adding the same weight back cannot fail
            let restored = proposal.add_vote_weight(old_side, vote.weight);
            assert(restored is Ok);
            assert(*proposal == *old(proposal));
            return Err(e);
        },
    };
    if let Err(e) = proposal.add_vote_weight(new_side, weight) {
        let restored = proposal.add_vote_weight(old_side, vote.weight);
        assert(restored is Ok);
        assert(*proposal == *old(proposal));
        return Err(e);
    }
    vote.side = side;
    vote.weight = weight;
    Ok(
        VoteSetEvent {
            governor: proposal.governor,
            proposal: proposal_key,
            voter: vote.voter,
            vote: vote_key,
            side,
            weight,
        },
    )
}

/// Replaces the governor's parameters and reports the change. Only the
/// governor's own smart wallet may invoke this; that check belongs to the
/// caller's validation layer.
pub fn set_governance_params(
    governor: &mut Governor,
    governor_key: AccountKey,
    params: GovernanceParameters,
) -> (r: GovernorSetParamsEvent)
    ensures
        *final(governor) == (Governor { params, ..*old(governor) }),
        r == (GovernorSetParamsEvent {
            governor: governor_key,
            prev_params: old(governor).params,
            params,
        }),
{
    let prev_params = governor.params;
    governor.params = params;
    GovernorSetParamsEvent { governor: governor_key, prev_params, params }
}

/// Replaces the governor's electorate and reports the change.
pub fn set_electorate(
    governor: &mut Governor,
    governor_key: AccountKey,
    new_electorate: AccountKey,
) -> (r: GovernorSetElectorateEvent)
    ensures
        *final(governor) == (Governor { electorate: new_electorate, ..*old(governor) }),
        r == (GovernorSetElectorateEvent {
            governor: governor_key,
            prev_electorate: old(governor).electorate,
            new_electorate,
        }),
{
    let prev_electorate = governor.electorate;
    governor.electorate = new_electorate;
    GovernorSetElectorateEvent { governor: governor_key, prev_electorate, new_electorate }
}

/// Attaches a title and a description link to a proposal and reports the
/// fact.
pub fn create_proposal_meta(
    proposal: &Proposal,
    proposal_key: AccountKey,
    title: String,
    description_link: String,
) -> (r: (ProposalMeta, ProposalMetaCreateEvent))
    ensures
        r.0 == (ProposalMeta { proposal: proposal_key, title, description_link }),
        r.1 == (ProposalMetaCreateEvent {
            governor: proposal.governor,
            proposal: proposal_key,
            title,
            description_link,
        }),
{
    let reported_title = title.clone();
    let reported_link = description_link.clone();
    let meta = ProposalMeta { proposal: proposal_key, title, description_link };
    let event = ProposalMetaCreateEvent {
        governor: proposal.governor,
        proposal: proposal_key,
        title: reported_title,
        description_link: reported_link,
    };
    (meta, event)
}

} // verus!

//! Tally conservation: the proposal's three tallies always equal the
//! summed weight of the live ballots, under any sequence of vote changes.

use vstd::prelude::*;

use crate::error::ErrorCode;
use crate::govern::instructions::spec_set_vote;
use crate::govern::proposal::{
    side_from_u8, spec_add_vote_weight, spec_subtract_vote_weight, VoteSide,
};
use crate::govern::state::{Proposal, Vote};

verus! {

/// How much ballot `v` contributes to the tally of `side`: its weight if
/// the ballot is currently set to that side, nothing otherwise. A pending
/// or out-of-range side byte contributes to no tally.
pub open spec fn side_contribution(v: Vote, side: VoteSide) -> int {
    if side_from_u8(v.side) == Some(side) {
        v.weight as int
    } else {
        0
    }
}

/// The total weight of all ballots in `votes` currently set to `side`.
pub open spec fn side_total(votes: Seq<Vote>, side: VoteSide) -> int
    decreases votes.len(),
{
    if votes.len() == 0 {
        0
    } else {
        side_total(votes.drop_last(), side) + side_contribution(votes.last(), side)
    }
}

/// The ground truth the proposal's tallies must never drift from: each
/// tally equals the summed weight of the ballots on its side.
pub open spec fn tallies_match(p: Proposal, votes: Seq<Vote>) -> bool {
    &&& p.for_votes == side_total(votes, VoteSide::For)
    &&& p.against_votes == side_total(votes, VoteSide::Against)
    &&& p.abstain_votes == side_total(votes, VoteSide::Abstain)
}

/// Replacing one ballot moves each side's total by exactly the departing
/// ballot's contribution out and the arriving ballot's contribution in.
pub proof fn lemma_side_total_update(votes: Seq<Vote>, i: int, v: Vote, side: VoteSide)
    requires
        0 <= i < votes.len(),
    ensures
        side_total(votes.update(i, v), side) == side_total(votes, side) - side_contribution(
            votes[i],
            side,
        ) + side_contribution(v, side),
    decreases votes.len(),
{
    let updated = votes.update(i, v);
    if i == votes.len() - 1 {
        assert(updated.drop_last() =~= votes.drop_last());
        assert(updated.last() == v);
    } else {
        assert(updated.drop_last() =~= votes.drop_last().update(i, v));
        lemma_side_total_update(votes.drop_last(), i, v, side);
        assert(updated.last() == votes.last());
    }
}

/// A proposal with all-zero tallies matches an empty electorate: the
/// starting point of every conservation argument.
pub proof fn lemma_tallies_match_empty(p: Proposal)
    requires
        p.for_votes == 0,
        p.against_votes == 0,
        p.abstain_votes == 0,
    ensures
        tallies_match(p, Seq::<Vote>::empty()),
{
}

/// Creating a fresh ballot (weight zero) never disturbs the tallies.
pub proof fn lemma_new_vote_preserves_tallies(p: Proposal, votes: Seq<Vote>, v: Vote)
    requires
        tallies_match(p, votes),
        v.weight == 0,
    ensures
        tallies_match(p, votes.push(v)),
{
    assert(votes.push(v).drop_last() =~= votes);
    assert(votes.push(v).last() == v);
}

/// Conservation under vote changes: whenever a set-vote operation
/// succeeds on ballot `i`, the updated proposal's tallies equal the
/// summed weights of the updated ballots. Applied inductively over any
/// sequence of successful calls starting from all-zero tallies, the
/// tallies never drift from the ground truth of live ballots.
pub proof fn lemma_set_vote_preserves_tallies(
    p: Proposal,
    votes: Seq<Vote>,
    i: int,
    side: u8,
    weight: u64,
    now: i64,
    p2: Proposal,
    v2: Vote,
)
    requires
        tallies_match(p, votes),
        0 <= i < votes.len(),
        spec_set_vote(p, votes[i], side, weight, now) == Ok::<(Proposal, Vote), ErrorCode>(
            (p2, v2),
        ),
    ensures
        tallies_match(p2, votes.update(i, v2)),
{
    let v = votes[i];
    let old_side = side_from_u8(v.side)->Some_0;
    let new_side = side_from_u8(side)->Some_0;
    let p1 = spec_subtract_vote_weight(p, old_side, v.weight)->Some_0;
    assert(spec_add_vote_weight(p1, new_side, weight) == Some(p2));
    lemma_side_total_update(votes, i, v2, VoteSide::For);
    lemma_side_total_update(votes, i, v2, VoteSide::Against);
    lemma_side_total_update(votes, i, v2, VoteSide::Abstain);
}

} // verus!

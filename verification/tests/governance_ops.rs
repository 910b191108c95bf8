//! Governance operations: the proposal counter, vote re-weighing and
//! tally conservation, and the simple 1-token-1-vote electorate.

use tribeca::account_key::AccountKey;
use tribeca::error::ErrorCode;
use tribeca::govern::instructions::{
    create_governor, create_proposal, new_vote, set_electorate, set_governance_params, set_vote,
};
use tribeca::govern::proposal::ProposalState;
use tribeca::govern::state::{GovernanceParameters, Governor, Proposal};
use tribeca::simple_voter::{initialize_token_record, TokenRecord};

fn key(n: u64) -> AccountKey {
    AccountKey::new(n, 0, 0, 0)
}

fn test_governor() -> Governor {
    create_governor(
        key(1),
        key(2),
        0,
        key(3),
        key(4),
        GovernanceParameters {
            voting_delay: 10,
            voting_period: 1_000,
            quorum_votes: 60,
            timelock_delay_seconds: 0,
        },
    )
    .unwrap()
    .0
}

fn active_proposal() -> Proposal {
    Proposal {
        quorum_votes: 60,
        activated_at: 10,
        voting_ends_at: 1_000,
        ..Proposal::default()
    }
}

#[test]
fn test_proposal_counter_increments() {
    let mut governor = test_governor();
    assert_eq!(governor.proposal_count, 0);
    let (p0, ev0) = create_proposal(
        &mut governor,
        key(1),
        key(10),
        0,
        key(20),
        Vec::new(),
        500,
    )
    .unwrap();
    assert_eq!(p0.index, 0);
    assert_eq!(ev0.index, 0);
    assert_eq!(governor.proposal_count, 1);
    assert_eq!(p0.quorum_votes, 60, "quorum is snapshotted at creation");
    assert_eq!(p0.created_at, 500);
    assert_eq!(p0.state(500).unwrap(), ProposalState::Draft);

    let (p1, _) = create_proposal(
        &mut governor,
        key(1),
        key(11),
        0,
        key(20),
        Vec::new(),
        600,
    )
    .unwrap();
    assert_eq!(p1.index, 1, "indexes are sequential and never reused");
    assert_eq!(governor.proposal_count, 2);
}

#[test]
fn test_quorum_snapshot_survives_param_change() {
    let mut governor = test_governor();
    let (proposal, _) = create_proposal(
        &mut governor,
        key(1),
        key(10),
        0,
        key(20),
        Vec::new(),
        500,
    )
    .unwrap();
    let new_params = GovernanceParameters {
        quorum_votes: 1_000_000,
        ..governor.params
    };
    let event = set_governance_params(&mut governor, key(1), new_params);
    assert_eq!(event.prev_params.quorum_votes, 60);
    assert_eq!(governor.params.quorum_votes, 1_000_000);
    assert_eq!(
        proposal.quorum_votes, 60,
        "an in-flight proposal keeps its snapshotted quorum"
    );
}

#[test]
fn test_set_electorate() {
    let mut governor = test_governor();
    let event = set_electorate(&mut governor, key(1), key(99));
    assert_eq!(governor.electorate, key(99));
    assert_eq!(event.prev_electorate, key(4));
    assert_eq!(event.new_electorate, key(99));
}

#[test]
fn test_tally_conservation_over_vote_changes() {
    let mut proposal = active_proposal();
    let now = 500;
    let mut alice = new_vote(key(10), key(31), 0);
    let mut bob = new_vote(key(10), key(32), 0);
    let mut carol = new_vote(key(10), key(33), 0);
    assert_eq!(alice.weight, 0);
    assert_eq!(alice.side, 0);

    // three voters cast their ballots
    set_vote(&mut proposal, &mut alice, key(10), key(41), 2, 50, now).unwrap();
    set_vote(&mut proposal, &mut bob, key(10), key(42), 1, 30, now).unwrap();
    set_vote(&mut proposal, &mut carol, key(10), key(43), 3, 20, now).unwrap();
    assert_eq!(
        (proposal.for_votes, proposal.against_votes, proposal.abstain_votes),
        (50, 30, 20)
    );

    // alice flips from for to against: 50 leaves one tally and enters
    // the other, the total stays the sum of live ballots
    set_vote(&mut proposal, &mut alice, key(10), key(41), 1, 50, now).unwrap();
    assert_eq!(
        (proposal.for_votes, proposal.against_votes, proposal.abstain_votes),
        (0, 80, 20)
    );
    assert_eq!(alice.side, 1);
    assert_eq!(alice.weight, 50);

    // bob lowers his weight: subtract-then-add, never a blind overwrite
    set_vote(&mut proposal, &mut bob, key(10), key(42), 1, 10, now).unwrap();
    assert_eq!(
        (proposal.for_votes, proposal.against_votes, proposal.abstain_votes),
        (0, 60, 20)
    );
    assert_eq!(
        proposal.for_votes + proposal.against_votes + proposal.abstain_votes,
        alice.weight + bob.weight + carol.weight,
        "tallies equal the sum of live ballots"
    );

    // carol retracts entirely
    set_vote(&mut proposal, &mut carol, key(10), key(43), 0, 0, now).unwrap();
    assert_eq!(
        (proposal.for_votes, proposal.against_votes, proposal.abstain_votes),
        (0, 60, 0)
    );
}

#[test]
fn test_set_vote_requires_active() {
    let mut draft = Proposal::default();
    let mut vote = new_vote(key(10), key(31), 0);
    assert_eq!(
        set_vote(&mut draft, &mut vote, key(10), key(41), 2, 50, 500),
        Err(ErrorCode::ProposalNotActive)
    );
    assert_eq!(vote.weight, 0);
}

#[test]
fn test_set_vote_rejects_bad_side() {
    let mut proposal = active_proposal();
    let mut vote = new_vote(key(10), key(31), 0);
    let before = proposal.clone();
    assert_eq!(
        set_vote(&mut proposal, &mut vote, key(10), key(41), 9, 50, 500),
        Err(ErrorCode::InvalidVoteSide)
    );
    assert_eq!(proposal.for_votes, before.for_votes);
    assert_eq!(vote.side, 0);
}

#[test]
fn test_set_vote_overflow_is_fault() {
    let mut proposal = active_proposal();
    let mut alice = new_vote(key(10), key(31), 0);
    let mut bob = new_vote(key(10), key(32), 0);
    set_vote(&mut proposal, &mut alice, key(10), key(41), 2, u64::MAX, 500).unwrap();
    let r = set_vote(&mut proposal, &mut bob, key(10), key(42), 2, 1, 500);
    assert_eq!(r, Err(ErrorCode::ArithmeticFault));
    assert_eq!(proposal.for_votes, u64::MAX, "a faulted change leaves the tally");
    assert_eq!(bob.weight, 0);
}

#[test]
fn test_simple_voter_lifecycle() {
    let mut record = initialize_token_record(0, key(50), key(51), key(52), 75);
    assert_eq!(record.balance, 75);
    assert_eq!(record.unfinalized_votes, 0);

    record.deposit_tokens(100);
    assert_eq!(record.balance, 100);

    let mut proposal = active_proposal();
    let mut vote = new_vote(key(10), key(50), 0);
    let event = tribeca::simple_voter::cast_votes(
        &mut record,
        &mut proposal,
        &mut vote,
        key(10),
        key(41),
        2,
        500,
    )
    .unwrap();
    assert_eq!(event.weight, 100, "the whole balance is the ballot weight");
    assert_eq!(proposal.for_votes, 100);
    assert_eq!(record.unfinalized_votes, 1);

    // tokens are locked behind the unfinalized ballot
    assert_eq!(
        record.withdraw_tokens(0),
        Err(ErrorCode::UnfinalizedVotesRemaining)
    );

    // voting is still open, so the ballot cannot be finalized yet
    assert_eq!(
        tribeca::simple_voter::finalize_votes(&mut record, &proposal, 500),
        Err(ErrorCode::ProposalStillActive)
    );

    // once voting closes, finalize and withdraw
    tribeca::simple_voter::finalize_votes(&mut record, &proposal, 1_000).unwrap();
    assert_eq!(record.unfinalized_votes, 0);
    record.withdraw_tokens(0).unwrap();
    assert_eq!(record.balance, 0);
}

#[test]
fn test_simple_voter_withdraw_votes() {
    let mut record = TokenRecord {
        balance: 40,
        ..initialize_token_record(0, key(50), key(51), key(52), 40)
    };
    let mut proposal = active_proposal();
    let mut vote = new_vote(key(10), key(50), 0);
    tribeca::simple_voter::cast_votes(
        &mut record,
        &mut proposal,
        &mut vote,
        key(10),
        key(41),
        1,
        500,
    )
    .unwrap();
    assert_eq!(proposal.against_votes, 40);
    tribeca::simple_voter::withdraw_votes(
        &mut record,
        &mut proposal,
        &mut vote,
        key(10),
        key(41),
        500,
    )
    .unwrap();
    assert_eq!(proposal.against_votes, 0, "the retracted weight leaves the tally");
    assert_eq!(vote.weight, 0);
    assert_eq!(record.unfinalized_votes, 0);
}

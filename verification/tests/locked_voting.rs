//! The escrow-weighted entry points into governance: activation gated by
//! voting power, and vote casting weighted by power at the end of voting.

use tribeca::account_key::AccountKey;
use tribeca::error::ErrorCode;
use tribeca::govern::instructions::{create_governor, new_vote};
use tribeca::govern::state::{GovernanceParameters, Governor, Proposal};
use tribeca::locked_voter::instructions::{activate_proposal, cast_vote};
use tribeca::locked_voter::state::{Escrow, Locker, LockerParams};

fn key(n: u64) -> AccountKey {
    AccountKey::new(n, 0, 0, 0)
}

fn test_governor() -> Governor {
    create_governor(
        key(1),
        key(2),
        0,
        key(3),
        key(4),
        GovernanceParameters {
            voting_delay: 0,
            voting_period: 100,
            quorum_votes: 10,
            timelock_delay_seconds: 0,
        },
    )
    .unwrap()
    .0
}

fn test_locker(min_votes: u64) -> Locker {
    Locker {
        params: LockerParams {
            max_stake_duration: 1_000,
            max_stake_vote_multiplier: 2,
            proposal_activation_min_votes: min_votes,
            ..LockerParams::default()
        },
        ..Locker::default()
    }
}

fn locked_escrow() -> Escrow {
    Escrow {
        amount: 100,
        escrow_started_at: 100,
        escrow_ends_at: 2_000,
        ..Escrow::default()
    }
}

#[test]
fn test_activate_gated_by_voting_power() {
    // power at t=500: 100 tokens * 2, 1500 s remaining clamped to the
    // 1000 s maximum = full power 200
    let governor = test_governor();
    let escrow = locked_escrow();
    let mut proposal = Proposal::default();

    let strict = test_locker(300);
    assert_eq!(
        activate_proposal(&strict, &escrow, &governor, &mut proposal, key(10), 500),
        Err(ErrorCode::InsufficientVotingPower)
    );
    assert_eq!(proposal.activated_at, 0);

    let lenient = test_locker(200);
    let event =
        activate_proposal(&lenient, &escrow, &governor, &mut proposal, key(10), 500).unwrap();
    assert_eq!(proposal.activated_at, 500);
    assert_eq!(proposal.voting_ends_at, 600);
    assert_eq!(event.voting_ends_at, 600);
}

#[test]
fn test_cast_vote_weighs_power_at_voting_end() {
    let locker = test_locker(0);
    let escrow = locked_escrow();
    let mut proposal = Proposal {
        activated_at: 10,
        voting_ends_at: 1_100,
        ..Proposal::default()
    };
    let mut vote = new_vote(key(10), key(31), 0);
    // power at the end of voting (t = 1100): 100 * 2 * min(900, 1000) /
    // 1000 = 180 — not the larger power held at cast time
    let event = cast_vote(
        &locker,
        &escrow,
        &mut proposal,
        &mut vote,
        key(10),
        key(41),
        2,
        500,
    )
    .unwrap()
    .unwrap();
    assert_eq!(event.weight, 180);
    assert_eq!(proposal.for_votes, 180);
    assert_eq!(vote.weight, 180);
    assert_eq!(vote.side, 2);
}

#[test]
fn test_cast_vote_zero_power_is_no_op() {
    let locker = test_locker(0);
    // the lock expires before voting ends, so the ballot carries nothing
    let escrow = Escrow {
        amount: 100,
        escrow_started_at: 100,
        escrow_ends_at: 800,
        ..Escrow::default()
    };
    let mut proposal = Proposal {
        activated_at: 10,
        voting_ends_at: 1_100,
        ..Proposal::default()
    };
    let mut vote = new_vote(key(10), key(31), 0);
    let r = cast_vote(
        &locker,
        &escrow,
        &mut proposal,
        &mut vote,
        key(10),
        key(41),
        2,
        500,
    )
    .unwrap();
    assert_eq!(r, None, "a zero-weight ballot is silently skipped");
    assert_eq!(proposal.for_votes, 0);
    assert_eq!(vote.weight, 0);
}

#[test]
fn test_cast_vote_requires_active_proposal() {
    let locker = test_locker(0);
    let escrow = locked_escrow();
    let mut draft = Proposal::default();
    let mut vote = new_vote(key(10), key(31), 0);
    assert_eq!(
        cast_vote(
            &locker,
            &escrow,
            &mut draft,
            &mut vote,
            key(10),
            key(41),
            2,
            500
        ),
        Err(ErrorCode::ProposalNotActive)
    );
}

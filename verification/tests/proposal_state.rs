//! The proposal state machine: derivation priority, quorum boundaries
//! and the lifecycle transitions.

use tribeca::account_key::AccountKey;
use tribeca::error::ErrorCode;
use tribeca::govern::instructions::{
    activate_proposal, cancel_proposal, create_governor, queue_proposal,
};
use tribeca::govern::proposal::{ProposalState, VoteSide};
use tribeca::govern::state::{GovernanceParameters, Governor, Proposal};

#[derive(Default)]
struct TestProposalParams {
    pub canceled_at: i64,
    pub current_ts: i64,
    pub activated_at: i64,
    pub created_at: i64,
    pub voting_ends_at: i64,
    pub queued_at: i64,
    pub abstain_votes: u64,
    pub against_votes: u64,
    pub for_votes: u64,
    pub quorum_votes: u64,
}

fn test_proposal_state(t: TestProposalParams) -> ProposalState {
    let proposal = Proposal {
        for_votes: t.for_votes,
        against_votes: t.against_votes,
        abstain_votes: t.abstain_votes,
        canceled_at: t.canceled_at,
        created_at: t.created_at,
        activated_at: t.activated_at,
        voting_ends_at: t.voting_ends_at,
        queued_at: t.queued_at,
        quorum_votes: t.quorum_votes,
        ..Proposal::default()
    };

    proposal.state(t.current_ts).unwrap()
}

#[test]
fn test_draft_state() {
    let params = TestProposalParams {
        activated_at: 0,
        ..TestProposalParams::default()
    };
    assert_eq!(test_proposal_state(params), ProposalState::Draft);
}

#[test]
fn test_canceled_overrides_everything() {
    // even fields that would otherwise read as active/succeeded lose to
    // a cancellation mark
    let params = TestProposalParams {
        canceled_at: 5,
        activated_at: 10,
        voting_ends_at: 1_000_000,
        queued_at: 50,
        for_votes: 100,
        quorum_votes: 1,
        current_ts: 500,
        ..TestProposalParams::default()
    };
    assert_eq!(test_proposal_state(params), ProposalState::Canceled);
}

#[test]
fn test_active_while_voting_open() {
    let params = TestProposalParams {
        activated_at: 10,
        voting_ends_at: 1_000,
        current_ts: 999,
        ..TestProposalParams::default()
    };
    assert_eq!(test_proposal_state(params), ProposalState::Active);
}

#[test]
fn test_tie_goes_to_defeat() {
    let params = TestProposalParams {
        activated_at: 10,
        voting_ends_at: 1_000,
        current_ts: 1_000,
        for_votes: 40,
        against_votes: 40,
        quorum_votes: 10,
        ..TestProposalParams::default()
    };
    assert_eq!(test_proposal_state(params), ProposalState::Defeated);
}

#[test]
fn test_quorum_boundary_defeated() {
    // 80 + 10 + 5 = 95 < 100: quorum missed despite for > against
    let params = TestProposalParams {
        quorum_votes: 100,
        for_votes: 80,
        against_votes: 10,
        abstain_votes: 5,
        activated_at: 10,
        voting_ends_at: 1_000,
        current_ts: 1_000,
        ..TestProposalParams::default()
    };
    assert_eq!(test_proposal_state(params), ProposalState::Defeated);
}

#[test]
fn test_quorum_met_succeeded_then_queued() {
    // 80 + 10 + 25 = 115 >= 100 and 80 > 10: succeeded
    let mut proposal = Proposal {
        quorum_votes: 100,
        for_votes: 80,
        against_votes: 10,
        abstain_votes: 25,
        activated_at: 10,
        voting_ends_at: 1_000,
        ..Proposal::default()
    };
    let now = 1_000;
    assert_eq!(proposal.state(now).unwrap(), ProposalState::Succeeded);

    let (governor, _) = create_governor(
        AccountKey::new(1, 0, 0, 0),
        AccountKey::new(2, 0, 0, 0),
        0,
        AccountKey::new(3, 0, 0, 0),
        AccountKey::new(4, 0, 0, 0),
        GovernanceParameters {
            timelock_delay_seconds: 0,
            ..GovernanceParameters::default()
        },
    )
    .unwrap();
    let tx_key = AccountKey::new(7, 7, 7, 7);
    let (event, eta) = queue_proposal(
        &governor,
        &mut proposal,
        AccountKey::new(5, 0, 0, 0),
        tx_key,
        now,
    )
    .unwrap();
    assert_eq!(eta, None, "a zero timelock queues for immediate execution");
    assert_eq!(event.transaction, tx_key);
    assert!(proposal.queued_at > 0);
    assert_eq!(proposal.queued_transaction, tx_key);
    assert_eq!(proposal.state(now).unwrap(), ProposalState::Queued);
}

#[test]
fn test_state_defined_for_many_combinations() {
    for canceled_at in [0i64, 3] {
        for activated_at in [0i64, 8] {
            for queued_at in [0i64, 2_000] {
                for current_ts in [-5i64, 0, 500, 1_000, 5_000] {
                    for for_votes in [0u64, 40, 90] {
                        let params = TestProposalParams {
                            canceled_at,
                            activated_at,
                            queued_at,
                            current_ts,
                            for_votes,
                            against_votes: 30,
                            abstain_votes: 30,
                            quorum_votes: 80,
                            voting_ends_at: 1_000,
                            ..TestProposalParams::default()
                        };
                        // every non-overflowing combination derives a state
                        test_proposal_state(params);
                    }
                }
            }
        }
    }
}

#[test]
fn test_overflowing_tallies_have_no_state() {
    let proposal = Proposal {
        for_votes: u64::MAX,
        against_votes: 0,
        abstain_votes: 1,
        activated_at: 10,
        voting_ends_at: 100,
        quorum_votes: 5,
        ..Proposal::default()
    };
    assert_eq!(proposal.state(100), None);
    assert_eq!(proposal.meets_quorum(5), None);
}

fn governor_with(params: GovernanceParameters) -> Governor {
    create_governor(
        AccountKey::new(1, 0, 0, 0),
        AccountKey::new(2, 0, 0, 0),
        0,
        AccountKey::new(3, 0, 0, 0),
        AccountKey::new(4, 0, 0, 0),
        params,
    )
    .unwrap()
    .0
}

#[test]
fn test_activate_respects_voting_delay() {
    let governor = governor_with(GovernanceParameters {
        voting_delay: 100,
        voting_period: 1_000,
        ..GovernanceParameters::default()
    });
    let mut proposal = Proposal {
        created_at: 50,
        ..Proposal::default()
    };
    let key = AccountKey::default();
    assert_eq!(
        activate_proposal(&governor, &mut proposal, key, 149),
        Err(ErrorCode::VotingDelayNotMet)
    );
    assert_eq!(proposal.activated_at, 0, "a rejected activation changes nothing");
    let event = activate_proposal(&governor, &mut proposal, key, 150).unwrap();
    assert_eq!(proposal.activated_at, 150);
    assert_eq!(proposal.voting_ends_at, 1_150);
    assert_eq!(event.voting_ends_at, 1_150);
    // re-activation of a non-draft proposal is rejected
    assert_eq!(
        activate_proposal(&governor, &mut proposal, key, 200),
        Err(ErrorCode::ProposalNotDraft)
    );
}

#[test]
fn test_cancel_only_drafts() {
    let mut draft = Proposal::default();
    let key = AccountKey::default();
    cancel_proposal(&mut draft, key, 77).unwrap();
    assert_eq!(draft.canceled_at, 77);
    assert_eq!(draft.state(100).unwrap(), ProposalState::Canceled);
    // cancelling twice fails: the proposal is no longer a draft
    assert_eq!(
        cancel_proposal(&mut draft, key, 78),
        Err(ErrorCode::ProposalNotDraft)
    );
    let mut active = Proposal {
        activated_at: 10,
        voting_ends_at: 1_000,
        ..Proposal::default()
    };
    assert_eq!(
        cancel_proposal(&mut active, key, 500),
        Err(ErrorCode::ProposalNotDraft),
        "once voting begins, the proposer cannot withdraw"
    );
}

#[test]
fn test_queue_requires_success() {
    let governor = governor_with(GovernanceParameters::default());
    let key = AccountKey::default();
    let mut active = Proposal {
        activated_at: 10,
        voting_ends_at: 1_000,
        ..Proposal::default()
    };
    assert_eq!(
        queue_proposal(&governor, &mut active, key, key, 500),
        Err(ErrorCode::ProposalNotSucceeded)
    );
    assert_eq!(active.queued_at, 0);
}

#[test]
fn test_queue_computes_eta() {
    let governor = governor_with(GovernanceParameters {
        timelock_delay_seconds: 60,
        ..GovernanceParameters::default()
    });
    let mut proposal = Proposal {
        quorum_votes: 10,
        for_votes: 50,
        against_votes: 5,
        activated_at: 10,
        voting_ends_at: 1_000,
        ..Proposal::default()
    };
    let (_, eta) = queue_proposal(
        &governor,
        &mut proposal,
        AccountKey::default(),
        AccountKey::new(7, 7, 7, 7),
        2_000,
    )
    .unwrap();
    assert_eq!(eta, Some(2_060));
}

#[test]
fn test_create_governor_rejects_negative_timelock() {
    let r = create_governor(
        AccountKey::default(),
        AccountKey::default(),
        0,
        AccountKey::default(),
        AccountKey::default(),
        GovernanceParameters {
            timelock_delay_seconds: -1,
            ..GovernanceParameters::default()
        },
    );
    assert_eq!(r.unwrap_err(), ErrorCode::InvalidTimelockDelay);
}

#[test]
fn test_vote_side_codec() {
    assert_eq!(VoteSide::try_from(0).unwrap(), VoteSide::Pending);
    assert_eq!(VoteSide::try_from(1).unwrap(), VoteSide::Against);
    assert_eq!(VoteSide::try_from(2).unwrap(), VoteSide::For);
    assert_eq!(VoteSide::try_from(3).unwrap(), VoteSide::Abstain);
    assert_eq!(VoteSide::try_from(4), Err(ErrorCode::InvalidVoteSide));
    assert_eq!(u8::from(VoteSide::Abstain), 3);
    assert_eq!(VoteSide::default(), VoteSide::Pending);
    assert_eq!(ProposalState::default(), ProposalState::Draft);
}

#[test]
fn test_state_error_propagates_to_transitions() {
    // an overflowing tally makes the derived state undefined, and every
    // transition then reports the arithmetic fault instead of guessing
    let governor = governor_with(GovernanceParameters::default());
    let key = AccountKey::default();
    let mut broken = Proposal {
        for_votes: u64::MAX,
        against_votes: 1,
        abstain_votes: 1,
        activated_at: 10,
        voting_ends_at: 100,
        ..Proposal::default()
    };
    assert_eq!(
        cancel_proposal(&mut broken, key, 500),
        Err(ErrorCode::ArithmeticFault)
    );
    assert_eq!(
        queue_proposal(&governor, &mut broken, key, key, 500),
        Err(ErrorCode::ArithmeticFault)
    );
}

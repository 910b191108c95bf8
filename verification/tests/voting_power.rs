//! Voting-power model: exact values at the lock boundaries and the decay
//! law on concrete inputs.

use tribeca::locked_voter::state::{Escrow, LockerParams};

const ONE_DAY: u64 = 24 * 60 * 60;
const ONE_YEAR: u64 = 365 * ONE_DAY;

#[test]
fn test_max_lockup() {
    let locker_params = &LockerParams {
        max_stake_duration: 4 * ONE_YEAR,
        max_stake_vote_multiplier: 10,
        ..LockerParams::default()
    };
    let escrow = Escrow {
        escrow_started_at: 100,
        escrow_ends_at: (100 + locker_params.max_stake_duration) as i64,
        amount: 100_000,
        ..Escrow::default()
    };
    let power = locker_params.calculate_voter_power(&escrow, 100).unwrap();
    assert_eq!(
        power,
        escrow.amount * locker_params.max_stake_vote_multiplier as u64,
        "full power"
    );

    assert_eq!(
        locker_params
            .calculate_voter_power(&escrow, 100 + 2 * ONE_YEAR as i64)
            .unwrap(),
        escrow.amount * locker_params.max_stake_vote_multiplier as u64 / 2,
        "half lockup"
    );

    assert_eq!(
        locker_params
            .calculate_voter_power(&escrow, 100 + 5 * ONE_YEAR as i64)
            .unwrap(),
        0,
        "expired lockup"
    );
}

#[test]
fn test_decreased_max_lockup() {
    // if the max lockup is decreased later, the user should keep their
    // lockup parameters but only be subject to the max.
    let locker_params = &LockerParams {
        max_stake_duration: 4 * ONE_YEAR,
        max_stake_vote_multiplier: 10,
        ..LockerParams::default()
    };
    let escrow = Escrow {
        escrow_started_at: 100,
        escrow_ends_at: 1_000_000 + (locker_params.max_stake_duration) as i64,
        amount: 100_000,
        ..Escrow::default()
    };
    let power = locker_params.calculate_voter_power(&escrow, 600).unwrap();
    assert_eq!(
        power,
        escrow.amount * locker_params.max_stake_vote_multiplier as u64
    );
}

#[test]
fn test_monotonic_decay_concrete() {
    let params = LockerParams {
        max_stake_duration: 1_000_000,
        max_stake_vote_multiplier: 7,
        ..LockerParams::default()
    };
    let escrow = Escrow {
        escrow_started_at: 1_000,
        escrow_ends_at: 1_000 + 1_000_000,
        amount: 123_456,
        ..Escrow::default()
    };
    let mut previous = escrow
        .voting_power_at_time(&params, escrow.escrow_started_at)
        .unwrap();
    assert_eq!(previous, 123_456 * 7, "full power at lock start");
    let mut t = escrow.escrow_started_at;
    while t <= escrow.escrow_ends_at {
        let power = escrow.voting_power_at_time(&params, t).unwrap();
        assert!(power <= previous, "power never increases over time");
        previous = power;
        t += 50_000;
    }
    assert_eq!(
        escrow
            .voting_power_at_time(&params, escrow.escrow_ends_at)
            .unwrap(),
        0,
        "no power at expiry"
    );
    assert_eq!(
        escrow.voting_power_at_time(&params, 999).unwrap(),
        0,
        "no power before the lock starts"
    );
}

#[test]
fn test_zero_balance_always_zero_power() {
    let params = LockerParams {
        max_stake_duration: 5 * ONE_YEAR,
        max_stake_vote_multiplier: 10,
        ..LockerParams::default()
    };
    let escrow = Escrow {
        escrow_started_at: 1_000,
        escrow_ends_at: 2_000_000,
        amount: 0,
        ..Escrow::default()
    };
    for t in [1i64, 999, 1_000, 50_000, 1_999_999, 2_000_000, 5_000_000] {
        assert_eq!(escrow.voting_power_at_time(&params, t).unwrap(), 0);
    }
}

#[test]
fn test_power_undefined_inputs() {
    let params = LockerParams {
        max_stake_duration: 1_000,
        max_stake_vote_multiplier: 10,
        ..LockerParams::default()
    };
    let escrow = Escrow {
        escrow_started_at: 100,
        escrow_ends_at: 1_100,
        amount: 50,
        ..Escrow::default()
    };
    // a zero timestamp is an invalid query
    assert_eq!(params.calculate_voter_power(&escrow, 0), None);
    // an overflowing full power is a hard error, not a clamp
    let huge = Escrow {
        amount: u64::MAX,
        ..escrow
    };
    assert_eq!(params.calculate_voter_power(&huge, 500), None);
    // a zero maximum duration cannot scale the power
    let bad_params = LockerParams {
        max_stake_duration: 0,
        ..params
    };
    assert_eq!(bad_params.calculate_voter_power(&escrow, 500), None);
}

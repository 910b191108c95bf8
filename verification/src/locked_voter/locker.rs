//! The voting-power model: linear time-decay of a locked position.

use vstd::arithmetic::div_mod::{lemma_div_is_ordered, lemma_div_multiples_vanish, lemma_div_of0};
use vstd::arithmetic::mul::{
    lemma_mul_inequality, lemma_mul_is_commutative, lemma_mul_nonnegative, lemma_mul_upper_bound,
};
use vstd::prelude::*;

use crate::locked_voter::state::{Escrow, LockerParams};

verus! {

/// The voting power of `escrow` under `params` at time `now`.
///
/// A zero `now` is an invalid input and yields no value. A never-locked
/// escrow, or one queried before its lock started or at or after its
/// expiry, has zero power. Inside the lock window the power is
/// `amount * max_stake_vote_multiplier`, scaled down by the fraction of
/// the maximum stake duration still remaining — with the remaining time
/// clamped to the *current* maximum, so a later reduction of
/// `max_stake_duration` can only shrink an existing lock's power.
///
/// No value is returned when the remaining seconds overflow a 64-bit
/// signed range, when `amount * max_stake_vote_multiplier` overflows a
/// 64-bit unsigned range, or when `max_stake_duration` is zero: the caller
/// must treat that as a hard error, never as zero power.
pub open spec fn spec_voter_power(params: LockerParams, escrow: Escrow, now: i64) -> Option<u64> {
    if now == 0 {
        None
    } else if escrow.escrow_started_at == 0 {
        Some(0u64)
    } else if now < escrow.escrow_started_at || now >= escrow.escrow_ends_at {
        Some(0u64)
    } else if escrow.escrow_ends_at - now > i64::MAX {
        None
    } else {
        let remaining = if escrow.escrow_ends_at - now < params.max_stake_duration {
            escrow.escrow_ends_at - now
        } else {
            params.max_stake_duration as int
        };
        if escrow.amount * params.max_stake_vote_multiplier > u64::MAX {
            None
        } else if params.max_stake_duration == 0 {
            None
        } else {
            Some(
                ((escrow.amount * params.max_stake_vote_multiplier * remaining) / (
                params.max_stake_duration as int)) as u64,
            )
        }
    }
}

impl LockerParams {
    /// Calculates the amount of voting power an [`Escrow`] has, exactly as
    /// [`spec_voter_power`] states it. The product of the full power and
    /// the remaining seconds is widened to 128 bits before the division,
    /// so the only overflow that can fail the computation is in
    /// `amount * max_stake_vote_multiplier` itself.
    pub fn calculate_voter_power(&self, escrow: &Escrow, now: i64) -> (r: Option<u64>)
        ensures
            r == spec_voter_power(*self, *escrow, now),
    {
        // invalid `now` argument, should never happen.
        if now == 0 {
            return None;
        }
        if escrow.escrow_started_at == 0 {
            return Some(0);
        }
        // Lockup had zero power before the start time.
        // At the end time, lockup also has zero power.
        if now < escrow.escrow_started_at || now >= escrow.escrow_ends_at {
            return Some(0);
        }
        let diff: i128 = (escrow.escrow_ends_at as i128) - (now as i128);
        if diff > i64::MAX as i128 {
            return None;
        }
        let seconds_until_lockup_expiry: u64 = diff as u64;
        // remaining seconds, clamped to the maximum duration
        let relevant_seconds: u64 = if seconds_until_lockup_expiry < self.max_stake_duration {
            seconds_until_lockup_expiry
        } else {
            self.max_stake_duration
        };
        // voting power at max lockup
        proof {
            lemma_mul_upper_bound(
                escrow.amount as int,
                u64::MAX as int,
                self.max_stake_vote_multiplier as int,
                u8::MAX as int,
            );
        }
        let max_power: u128 = (escrow.amount as u128) * (self.max_stake_vote_multiplier as u128);
        if max_power > u64::MAX as u128 {
            return None;
        }
        if self.max_stake_duration == 0 {
            return None;
        }
        proof {
            lemma_mul_upper_bound(
                max_power as int,
                u64::MAX as int,
                relevant_seconds as int,
                u64::MAX as int,
            );
        }
        // multiply the max lockup power by the fraction of the max stake
        // duration still remaining
        let scaled: u128 = max_power * (relevant_seconds as u128);
        let power_wide: u128 = scaled / (self.max_stake_duration as u128);
        proof {
            let mp = max_power as int;
            let d = self.max_stake_duration as int;
            lemma_mul_inequality(relevant_seconds as int, d, mp);
            lemma_mul_is_commutative(relevant_seconds as int, mp);
            lemma_mul_is_commutative(d, mp);
            lemma_div_is_ordered(mp * (relevant_seconds as int), mp * d, d);
            lemma_div_multiples_vanish(mp, d);
        }
        Some(power_wide as u64)
    }
}

/// Voting power decays monotonically: from the start of the lock onward, a
/// later query never yields more power than an earlier one. The hypotheses
/// ask only that the first query is defined; the later one then is too.
pub proof fn lemma_voting_power_monotonic(params: LockerParams, escrow: Escrow, t1: i64, t2: i64)
    requires
        escrow.escrow_started_at > 0,
        escrow.escrow_started_at <= t1 <= t2,
        spec_voter_power(params, escrow, t1) is Some,
    ensures
        spec_voter_power(params, escrow, t2) is Some,
        spec_voter_power(params, escrow, t2)->Some_0 <= spec_voter_power(params, escrow, t1)->Some_0,
{
    let mp = escrow.amount * params.max_stake_vote_multiplier;
    let d = params.max_stake_duration as int;
    if t1 < escrow.escrow_ends_at {
        // t1 lies inside the lock window, so the first query took the
        // arithmetic path: the product fits and the duration is nonzero.
        let rem1 = if escrow.escrow_ends_at - t1 < params.max_stake_duration {
            escrow.escrow_ends_at - t1
        } else {
            d
        };
        lemma_mul_nonnegative(mp, rem1);
        lemma_div_is_ordered(0, mp * rem1, d);
        lemma_div_of0(d);
        // the first power is at most the full power, so its 64-bit cast is
        // exact
        lemma_mul_inequality(rem1, d, mp);
        lemma_mul_is_commutative(rem1, mp);
        lemma_mul_is_commutative(d, mp);
        lemma_div_is_ordered(mp * rem1, mp * d, d);
        lemma_div_multiples_vanish(mp, d);
        if t2 < escrow.escrow_ends_at {
            let rem2 = if escrow.escrow_ends_at - t2 < params.max_stake_duration {
                escrow.escrow_ends_at - t2
            } else {
                d
            };
            lemma_mul_inequality(rem2, rem1, mp);
            lemma_mul_is_commutative(rem2, mp);
            lemma_mul_is_commutative(rem1, mp);
            lemma_div_is_ordered(mp * rem2, mp * rem1, d);
            lemma_mul_nonnegative(mp, rem2);
            lemma_div_is_ordered(0, mp * rem2, d);
        }
    }
}

/// A lock locked for at least the maximum stake duration carries exactly
/// its full power, `amount * max_stake_vote_multiplier`, when queried at
/// the moment the lock started.
pub proof fn lemma_full_power_at_lock_start(params: LockerParams, escrow: Escrow)
    requires
        escrow.escrow_started_at > 0,
        params.max_stake_duration > 0,
        escrow.escrow_ends_at - escrow.escrow_started_at >= params.max_stake_duration,
        escrow.amount * params.max_stake_vote_multiplier <= u64::MAX,
    ensures
        spec_voter_power(params, escrow, escrow.escrow_started_at) == Some(
            (escrow.amount * params.max_stake_vote_multiplier) as u64,
        ),
{
    let mp = escrow.amount * params.max_stake_vote_multiplier;
    let d = params.max_stake_duration as int;
    lemma_mul_is_commutative(mp, d);
    lemma_div_multiples_vanish(mp, d);
}

/// Outside the lock window there is no power: before the lock starts, at
/// or after its expiry, and on a never-locked escrow, the power is zero.
pub proof fn lemma_zero_power_outside_window(params: LockerParams, escrow: Escrow, now: i64)
    requires
        now != 0,
        escrow.escrow_started_at == 0 || now < escrow.escrow_started_at || now
            >= escrow.escrow_ends_at,
    ensures
        spec_voter_power(params, escrow, now) == Some(0u64),
{
}

/// An escrow holding no tokens has no voting power at any valid query
/// time, for any nonnegative lock window and positive maximum duration.
pub proof fn lemma_zero_balance_zero_power(params: LockerParams, escrow: Escrow, now: i64)
    requires
        escrow.amount == 0,
        now != 0,
        escrow.escrow_started_at >= 0,
        params.max_stake_duration > 0,
    ensures
        spec_voter_power(params, escrow, now) == Some(0u64),
{
    if escrow.escrow_started_at != 0 && escrow.escrow_started_at <= now && now
        < escrow.escrow_ends_at {
        let d = params.max_stake_duration as int;
        let remaining = if escrow.escrow_ends_at - now < params.max_stake_duration {
            escrow.escrow_ends_at - now
        } else {
            d
        };
        assert(escrow.amount * params.max_stake_vote_multiplier == 0);
        assert(0int * remaining == 0);
        lemma_div_of0(d);
    }
}

} // verus!

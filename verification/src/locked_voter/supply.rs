//! Supply conservation: the locker's `locked_supply` always equals the
//! sum of its escrows' balances, under any sequence of locks and exits.

use vstd::prelude::*;

use crate::error::ErrorCode;
use crate::locked_voter::instructions::{spec_exit, spec_lock};
use crate::locked_voter::state::{Escrow, Locker};

verus! {

/// The total balance held across `escrows`.
pub open spec fn total_locked(escrows: Seq<Escrow>) -> int
    decreases escrows.len(),
{
    if escrows.len() == 0 {
        0
    } else {
        total_locked(escrows.drop_last()) + escrows.last().amount
    }
}

/// The running-sum invariant: the locker's recorded supply equals the sum
/// of all its escrows' balances.
pub open spec fn supply_matches(locker: Locker, escrows: Seq<Escrow>) -> bool {
    locker.locked_supply == total_locked(escrows)
}

/// Replacing one escrow moves the total by exactly the balance that
/// leaves and the balance that arrives.
pub proof fn lemma_total_locked_update(escrows: Seq<Escrow>, i: int, e: Escrow)
    requires
        0 <= i < escrows.len(),
    ensures
        total_locked(escrows.update(i, e)) == total_locked(escrows) - escrows[i].amount
            + e.amount,
    decreases escrows.len(),
{
    let updated = escrows.update(i, e);
    if i == escrows.len() - 1 {
        assert(updated.drop_last() =~= escrows.drop_last());
        assert(updated.last() == e);
    } else {
        assert(updated.drop_last() =~= escrows.drop_last().update(i, e));
        lemma_total_locked_update(escrows.drop_last(), i, e);
        assert(updated.last() == escrows.last());
    }
}

/// An empty locker matches an empty pool of escrows, and opening a new,
/// empty escrow never disturbs the sum.
pub proof fn lemma_new_escrow_preserves_supply(locker: Locker, escrows: Seq<Escrow>, e: Escrow)
    requires
        supply_matches(locker, escrows),
        e.amount == 0,
    ensures
        supply_matches(locker, escrows.push(e)),
{
    assert(escrows.push(e).drop_last() =~= escrows);
    assert(escrows.push(e).last() == e);
}

/// Locking preserves the running sum: whatever joins escrow `i`'s balance
/// joins the locker's supply too.
pub proof fn lemma_lock_preserves_supply(
    locker: Locker,
    escrows: Seq<Escrow>,
    i: int,
    amount: u64,
    duration: i64,
    now: i64,
    updated_escrow: Escrow,
    updated_locker: Locker,
)
    requires
        supply_matches(locker, escrows),
        0 <= i < escrows.len(),
        spec_lock(locker, escrows[i], amount, duration, now) == Ok::<(Escrow, Locker), ErrorCode>(
            (updated_escrow, updated_locker),
        ),
    ensures
        supply_matches(updated_locker, escrows.update(i, updated_escrow)),
{
    lemma_total_locked_update(escrows, i, updated_escrow);
}

/// Exiting preserves the running sum: the full balance that leaves escrow
/// `i` leaves the locker's supply too.
pub proof fn lemma_exit_preserves_supply(
    locker: Locker,
    escrows: Seq<Escrow>,
    i: int,
    now: i64,
    updated_escrow: Escrow,
    updated_locker: Locker,
    released: u64,
)
    requires
        supply_matches(locker, escrows),
        0 <= i < escrows.len(),
        spec_exit(locker, escrows[i], now) == Ok::<(Escrow, Locker, u64), ErrorCode>(
            (updated_escrow, updated_locker, released),
        ),
    ensures
        supply_matches(updated_locker, escrows.update(i, updated_escrow)),
        released == escrows[i].amount,
{
    lemma_total_locked_update(escrows, i, updated_escrow);
}

} // verus!

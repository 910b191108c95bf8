//! Lock entry point for lockers without a whitelist.

use vstd::prelude::*;

use crate::account_key::AccountKey;
use crate::error::ErrorCode;
use crate::locked_voter::events::LockEvent;
use crate::locked_voter::instructions::{lock, spec_lock, spec_lock_event};
use crate::locked_voter::state::{Escrow, Locker};

verus! {

/// The outcome of a permissionless lock request: admitted only when the
/// locker has no whitelist, then governed by
/// [`spec_lock`].
pub open spec fn spec_lock_permissionless(
    locker: Locker,
    escrow: Escrow,
    amount: u64,
    duration: i64,
    now: i64,
) -> Result<(Escrow, Locker), ErrorCode> {
    if locker.params.whitelist_enabled {
        Err(ErrorCode::MustProvideWhitelist)
    } else {
        spec_lock(locker, escrow, amount, duration, now)
    }
}

/// Stakes `amount` tokens into the escrow if there is no whitelist.
pub fn handler(
    locker: &mut Locker,
    escrow: &mut Escrow,
    locker_key: AccountKey,
    amount: u64,
    duration: i64,
    now: i64,
) -> (r: Result<LockEvent, ErrorCode>)
    ensures
        match spec_lock_permissionless(*old(locker), *old(escrow), amount, duration, now) {
            Ok(updated) => {
                &&& *final(escrow) == updated.0
                &&& *final(locker) == updated.1
                &&& r == Ok::<LockEvent, ErrorCode>(
                    spec_lock_event(
                        *old(locker),
                        *old(escrow),
                        locker_key,
                        amount,
                        duration,
                        now,
                        updated.1.locked_supply,
                    ),
                )
            },
            Err(e) => {
                &&& r == Err::<LockEvent, ErrorCode>(e)
                &&& *final(escrow) == *old(escrow)
                &&& *final(locker) == *old(locker)
            },
        },
{
    if locker.params.whitelist_enabled {
        return Err(ErrorCode::MustProvideWhitelist);
    }
    lock(locker, escrow, locker_key, amount, duration, now)
}

} // verus!

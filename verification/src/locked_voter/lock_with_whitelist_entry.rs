//! Lock entry point for whitelisted lockers, for cross-program callers
//! presenting a whitelist entry.

use vstd::prelude::*;

use crate::account_key::AccountKey;
use crate::error::ErrorCode;
use crate::locked_voter::events::LockEvent;
use crate::locked_voter::instructions::{lock, spec_lock, spec_lock_event, spec_program_id};
use crate::locked_voter::state::{Escrow, Locker, LockerWhitelistEntry};

verus! {

/// The outcome of a whitelist-entry lock request: the locker must have
/// its whitelist enabled and the entry must belong to it. A direct call
/// from the locked-voter program itself bypasses the entry checks; a
/// cross-program caller must match the entry's program, and — unless the
/// entry is scoped to any owner by the all-zero system key — the escrow's
/// owner must match the entry's owner. The admitted request is then
/// governed by [`spec_lock`].
pub open spec fn spec_lock_with_whitelist_entry(
    locker: Locker,
    escrow: Escrow,
    entry: LockerWhitelistEntry,
    locker_key: AccountKey,
    caller_program: AccountKey,
    amount: u64,
    duration: i64,
    now: i64,
) -> Result<(Escrow, Locker), ErrorCode> {
    if !locker.params.whitelist_enabled {
        Err(ErrorCode::MustCallLockPermissionless)
    } else if entry.locker != locker_key {
        Err(ErrorCode::KeyMismatch)
    } else if caller_program == spec_program_id() {
        spec_lock(locker, escrow, amount, duration, now)
    } else if entry.owner != AccountKey::spec_zero() && entry.owner != escrow.owner {
        Err(ErrorCode::EscrowOwnerNotWhitelisted)
    } else if entry.program_id != caller_program {
        Err(ErrorCode::KeyMismatch)
    } else {
        spec_lock(locker, escrow, amount, duration, now)
    }
}

/// Stakes `amount` tokens into the escrow via cross-program call, using
/// the provided whitelist entry. `caller_program` is the program that
/// issued the current instruction, read from the platform's instruction
/// introspection by the caller.
pub fn handler(
    locker: &mut Locker,
    escrow: &mut Escrow,
    entry: &LockerWhitelistEntry,
    locker_key: AccountKey,
    caller_program: AccountKey,
    amount: u64,
    duration: i64,
    now: i64,
) -> (r: Result<LockEvent, ErrorCode>)
    ensures
        match spec_lock_with_whitelist_entry(
            *old(locker),
            *old(escrow),
            *entry,
            locker_key,
            caller_program,
            amount,
            duration,
            now,
        ) {
            Ok(updated) => {
                &&& *final(escrow) == updated.0
                &&& *final(locker) == updated.1
                &&& r == Ok::<LockEvent, ErrorCode>(
                    spec_lock_event(
                        *old(locker),
                        *old(escrow),
                        locker_key,
                        amount,
                        duration,
                        now,
                        updated.1.locked_supply,
                    ),
                )
            },
            Err(e) => {
                &&& r == Err::<LockEvent, ErrorCode>(e)
                &&& *final(escrow) == *old(escrow)
                &&& *final(locker) == *old(locker)
            },
        },
{
    if !locker.params.whitelist_enabled {
        return Err(ErrorCode::MustCallLockPermissionless);
    }
    if entry.locker != locker_key {
        return Err(ErrorCode::KeyMismatch);
    }
    let own_program = crate::locked_voter::instructions::program_id();
    if caller_program == own_program {
        return lock(locker, escrow, locker_key, amount, duration, now);
    }
    let any_owner = AccountKey::zero();
    if entry.owner != any_owner && entry.owner != escrow.owner {
        return Err(ErrorCode::EscrowOwnerNotWhitelisted);
    }
    if entry.program_id != caller_program {
        return Err(ErrorCode::KeyMismatch);
    }
    lock(locker, escrow, locker_key, amount, duration, now)
}

} // verus!

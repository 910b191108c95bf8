//! Lock entry point for whitelisted lockers, for direct (top-level)
//! calls.

use vstd::prelude::*;

use crate::account_key::AccountKey;
use crate::error::ErrorCode;
use crate::locked_voter::events::LockEvent;
use crate::locked_voter::instructions::{lock, spec_lock, spec_lock_event, spec_program_id};
use crate::locked_voter::state::{Escrow, Locker};

verus! {

/// The outcome of a whitelist-gated direct lock request: the locker must
/// have its whitelist enabled, the calling program must be the
/// locked-voter program itself (a cross-program caller must present a
/// whitelist entry instead), and the request is then governed by
/// [`spec_lock`].
pub open spec fn spec_lock_with_whitelist(
    locker: Locker,
    escrow: Escrow,
    caller_program: AccountKey,
    amount: u64,
    duration: i64,
    now: i64,
) -> Result<(Escrow, Locker), ErrorCode> {
    if !locker.params.whitelist_enabled {
        Err(ErrorCode::MustCallLockPermissionless)
    } else if caller_program != spec_program_id() {
        Err(ErrorCode::MustCallLockWithWhitelistEntry)
    } else {
        spec_lock(locker, escrow, amount, duration, now)
    }
}

/// Stakes `amount` tokens into the escrow of a whitelisted locker.
/// `caller_program` is the program that issued the current instruction,
/// read from the platform's instruction introspection by the caller.
pub fn handler(
    locker: &mut Locker,
    escrow: &mut Escrow,
    locker_key: AccountKey,
    caller_program: AccountKey,
    amount: u64,
    duration: i64,
    now: i64,
) -> (r: Result<LockEvent, ErrorCode>)
    ensures
        match spec_lock_with_whitelist(
            *old(locker),
            *old(escrow),
            caller_program,
            amount,
            duration,
            now,
        ) {
            Ok(updated) => {
                &&& *final(escrow) == updated.0
                &&& *final(locker) == updated.1
                &&& r == Ok::<LockEvent, ErrorCode>(
                    spec_lock_event(
                        *old(locker),
                        *old(escrow),
                        locker_key,
                        amount,
                        duration,
                        now,
                        updated.1.locked_supply,
                    ),
                )
            },
            Err(e) => {
                &&& r == Err::<LockEvent, ErrorCode>(e)
                &&& *final(escrow) == *old(escrow)
                &&& *final(locker) == *old(locker)
            },
        },
{
    if !locker.params.whitelist_enabled {
        return Err(ErrorCode::MustCallLockPermissionless);
    }
    let own_program = crate::locked_voter::instructions::program_id();
    if caller_program != own_program {
        return Err(ErrorCode::MustCallLockWithWhitelistEntry);
    }
    lock(locker, escrow, locker_key, amount, duration, now)
}

} // verus!

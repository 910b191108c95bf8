//! The locked-voter operations: locker and escrow mutations, and the
//! escrow-weighted entry points into the governance state machine.

use vstd::prelude::*;

use crate::account_key::AccountKey;
use crate::error::ErrorCode;
use crate::govern::events::ProposalActivateEvent;
use crate::govern::events::VoteSetEvent;
use crate::govern::instructions::spec_activate;
use crate::govern::instructions::spec_set_vote;
use crate::govern::proposal::ProposalState;
use crate::govern::state::{Governor, Proposal, Vote};
use crate::locked_voter::events::{
    ApproveLockPrivilegeEvent, ExitEscrowEvent, LockEvent, LockerSetParamsEvent, NewEscrowEvent,
    NewLockerEvent, RevokeLockPrivilegeEvent,
};
use crate::locked_voter::locker::spec_voter_power;
use crate::locked_voter::state::{
    spec_record_lock_event, Escrow, Locker, LockerParams, LockerWhitelistEntry,
};

verus! {

/// The locked-voter program's own address. A lock request arriving from
/// this program (a top-level call rather than another program's
/// cross-program call) bypasses the whitelist.
pub open spec fn spec_program_id() -> AccountKey {
    AccountKey {
        w0: 0x8a353cd3abbe1205,
        w1: 0xdf05d4d4e462d236,
        w2: 0xaeb3688bf768e0c0,
        w3: 0x0a3a98bce29783dd,
    }
}

/// The locked-voter program's own address.
pub fn program_id() -> (r: AccountKey)
    ensures
        r == spec_program_id(),
{
    AccountKey {
        w0: 0x8a353cd3abbe1205,
        w1: 0xdf05d4d4e462d236,
        w2: 0xaeb3688bf768e0c0,
        w3: 0x0a3a98bce29783dd,
    }
}

/// Whether a lock request from `caller_program` on behalf of
/// `escrow_owner` passes the whitelist: the locked-voter program itself
/// always may; any other program needs an entry for this locker naming it,
/// scoped either to any owner (the all-zero system key) or to this owner.
pub open spec fn spec_check_whitelisted(
    locker_key: AccountKey,
    escrow_owner: AccountKey,
    caller_program: AccountKey,
    entry: Option<LockerWhitelistEntry>,
) -> Result<(), ErrorCode> {
    if caller_program == spec_program_id() {
        Ok(())
    } else {
        match entry {
            None => Err(ErrorCode::ProgramNotWhitelisted),
            Some(entry) => if entry.locker != locker_key {
                Err(ErrorCode::KeyMismatch)
            } else if entry.program_id != caller_program {
                Err(ErrorCode::KeyMismatch)
            } else if entry.owner != AccountKey::spec_zero() && entry.owner != escrow_owner {
                Err(ErrorCode::EscrowOwnerNotWhitelisted)
            } else {
                Ok(())
            },
        }
    }
}

/// Checks a cross-program lock request against the locker's whitelist;
/// `entry` is the whitelist record found for the calling program, if any.
pub fn check_whitelisted(
    locker_key: AccountKey,
    escrow_owner: AccountKey,
    caller_program: AccountKey,
    entry: Option<&LockerWhitelistEntry>,
) -> (r: Result<(), ErrorCode>)
    ensures
        r == spec_check_whitelisted(
            locker_key,
            escrow_owner,
            caller_program,
            match entry {
                Some(e) => Some(*e),
                None => None,
            },
        ),
{
    let own_program = program_id();
    if caller_program == own_program {
        return Ok(());
    }
    match entry {
        None => Err(ErrorCode::ProgramNotWhitelisted),
        Some(entry) => {
            if entry.locker != locker_key {
                Err(ErrorCode::KeyMismatch)
            } else if entry.program_id != caller_program {
                Err(ErrorCode::KeyMismatch)
            } else if entry.owner != AccountKey::zero() && entry.owner != escrow_owner {
                Err(ErrorCode::EscrowOwnerNotWhitelisted)
            } else {
                Ok(())
            }
        },
    }
}

/// The escrow and locker after locking `amount` tokens for `duration`
/// seconds at time `now`, or the error that rejects the request:
/// a negative duration is an arithmetic fault; the duration must lie
/// within the locker's stake-duration bounds; the new unlock time must
/// fit the timestamp range; a relock may extend or hold the unlock time
/// but never shorten it; and both running sums must fit (see
/// [`spec_record_lock_event`]).
pub open spec fn spec_lock(
    locker: Locker,
    escrow: Escrow,
    amount: u64,
    duration: i64,
    now: i64,
) -> Result<(Escrow, Locker), ErrorCode> {
    if duration < 0 {
        Err(ErrorCode::ArithmeticFault)
    } else if duration < locker.params.min_stake_duration {
        Err(ErrorCode::LockupDurationTooShort)
    } else if duration > locker.params.max_stake_duration {
        Err(ErrorCode::LockupDurationTooLong)
    } else if now + duration > i64::MAX {
        Err(ErrorCode::ArithmeticFault)
    } else if now + duration < escrow.escrow_ends_at {
        Err(ErrorCode::RefreshCannotShorten)
    } else {
        match spec_record_lock_event(escrow, locker, amount, now, (now + duration) as i64) {
            None => Err(ErrorCode::ArithmeticFault),
            Some(updated) => Ok(updated),
        }
    }
}

/// The fact reported by a successful lock.
pub open spec fn spec_lock_event(
    old_locker: Locker,
    old_escrow: Escrow,
    locker_key: AccountKey,
    amount: u64,
    duration: i64,
    now: i64,
    new_supply: u64,
) -> LockEvent {
    LockEvent {
        locker: locker_key,
        escrow_owner: old_escrow.owner,
        token_mint: old_locker.token_mint,
        amount,
        locker_supply: new_supply,
        duration,
        prev_escrow_ends_at: old_escrow.escrow_ends_at,
        next_escrow_ends_at: (now + duration) as i64,
        next_escrow_started_at: now,
    }
}

/// Locks `amount` tokens (possibly zero, for a pure duration refresh)
/// into the escrow for `duration` seconds from `now`, exactly as
/// [`spec_lock`] states it. The caller transfers the tokens themselves;
/// this records the accounting. On any rejection neither record changes.
pub fn lock(
    locker: &mut Locker,
    escrow: &mut Escrow,
    locker_key: AccountKey,
    amount: u64,
    duration: i64,
    now: i64,
) -> (r: Result<LockEvent, ErrorCode>)
    ensures
        match spec_lock(*old(locker), *old(escrow), amount, duration, now) {
            Ok(updated) => {
                &&& *final(escrow) == updated.0
                &&& *final(locker) == updated.1
                &&& r == Ok::<LockEvent, ErrorCode>(
                    spec_lock_event(
                        *old(locker),
                        *old(escrow),
                        locker_key,
                        amount,
                        duration,
                        now,
                        updated.1.locked_supply,
                    ),
                )
            },
            Err(e) => {
                &&& r == Err::<LockEvent, ErrorCode>(e)
                &&& *final(escrow) == *old(escrow)
                &&& *final(locker) == *old(locker)
            },
        },
{
    if duration < 0 {
        return Err(ErrorCode::ArithmeticFault);
    }
    let duration_seconds = duration as u64;
    if duration_seconds < locker.params.min_stake_duration {
        return Err(ErrorCode::LockupDurationTooShort);
    }
    if duration_seconds > locker.params.max_stake_duration {
        return Err(ErrorCode::LockupDurationTooLong);
    }
    let next_escrow_ends_wide: i128 = (now as i128) + (duration as i128);
    if next_escrow_ends_wide > i64::MAX as i128 {
        return Err(ErrorCode::ArithmeticFault);
    }
    let next_escrow_ends_at = next_escrow_ends_wide as i64;
    let prev_escrow_ends_at = escrow.escrow_ends_at;
    if next_escrow_ends_at < prev_escrow_ends_at {
        return Err(ErrorCode::RefreshCannotShorten);
    }
    let escrow_owner = escrow.owner;
    let token_mint = locker.token_mint;
    if let Err(e) = escrow.record_lock_event(locker, amount, now, next_escrow_ends_at) {
        return Err(e);
    }
    Ok(
        LockEvent {
            locker: locker_key,
            escrow_owner,
            token_mint,
            amount,
            locker_supply: locker.locked_supply,
            duration,
            prev_escrow_ends_at,
            next_escrow_ends_at,
            next_escrow_started_at: now,
        },
    )
}

/// The escrow and locker after a full exit at time `now`, together with
/// the released amount, or the error that rejects it: an escrow may only
/// be exited strictly after its unlock time, and the locker's supply must
/// cover the escrow's balance (it always does when the running-sum
/// invariant holds).
pub open spec fn spec_exit(locker: Locker, escrow: Escrow, now: i64) -> Result<
    (Escrow, Locker, u64),
    ErrorCode,
> {
    if escrow.escrow_ends_at >= now {
        Err(ErrorCode::EscrowNotEnded)
    } else if locker.locked_supply < escrow.amount {
        Err(ErrorCode::ArithmeticFault)
    } else {
        Ok(
            (
                Escrow { amount: 0, escrow_started_at: 0, escrow_ends_at: 0, ..escrow },
                Locker {
                    locked_supply: (locker.locked_supply - escrow.amount) as u64,
                    ..locker
                },
                escrow.amount,
            ),
        )
    }
}

/// Exits the escrow: releases its full balance back to the owner,
/// subtracts it from the locker's supply (checked), and zeroes the lock
/// window. Permitted only strictly past expiry — at `now ==
/// escrow_ends_at` the request is still rejected. On any rejection
/// neither record changes.
pub fn exit(locker: &mut Locker, escrow: &mut Escrow, locker_key: AccountKey, now: i64) -> (r:
    Result<ExitEscrowEvent, ErrorCode>)
    ensures
        match spec_exit(*old(locker), *old(escrow), now) {
            Ok(updated) => {
                &&& *final(escrow) == updated.0
                &&& *final(locker) == updated.1
                &&& r == Ok::<ExitEscrowEvent, ErrorCode>(ExitEscrowEvent {
                    escrow_owner: old(escrow).owner,
                    locker: locker_key,
                    timestamp: now,
                    locker_supply: updated.1.locked_supply,
                    released_amount: updated.2,
                })
            },
            Err(e) => {
                &&& r == Err::<ExitEscrowEvent, ErrorCode>(e)
                &&& *final(escrow) == *old(escrow)
                &&& *final(locker) == *old(locker)
            },
        },
{
    if escrow.escrow_ends_at >= now {
        return Err(ErrorCode::EscrowNotEnded);
    }
    if locker.locked_supply < escrow.amount {
        return Err(ErrorCode::ArithmeticFault);
    }
    let released_amount = escrow.amount;
    locker.locked_supply = locker.locked_supply - released_amount;
    escrow.amount = 0;
    escrow.escrow_started_at = 0;
    escrow.escrow_ends_at = 0;
    Ok(
        ExitEscrowEvent {
            escrow_owner: escrow.owner,
            locker: locker_key,
            timestamp: now,
            locker_supply: locker.locked_supply,
            released_amount,
        },
    )
}

/// Creates a new locker for `governor` around `token_mint`, with nothing
/// locked yet.
pub fn new_locker(
    locker_key: AccountKey,
    base: AccountKey,
    bump: u8,
    token_mint: AccountKey,
    governor: AccountKey,
    params: LockerParams,
) -> (r: (Locker, NewLockerEvent))
    ensures
        r.0 == (Locker { base, bump, token_mint, locked_supply: 0, governor, params }),
        r.1 == (NewLockerEvent { governor, locker: locker_key, token_mint, params }),
{
    let locker = Locker { base, bump, token_mint, locked_supply: 0, governor, params };
    let event = NewLockerEvent { governor, locker: locker_key, token_mint, params };
    (locker, event)
}

/// Creates a new, empty escrow for `escrow_owner` under the locker. The
/// caller derives the escrow's token-account key and passes it in; the
/// owner starts as their own vote delegate.
pub fn new_escrow(
    escrow_key: AccountKey,
    locker_key: AccountKey,
    escrow_owner: AccountKey,
    bump: u8,
    tokens: AccountKey,
    now: i64,
) -> (r: (Escrow, NewEscrowEvent))
    ensures
        r.0 == (Escrow {
            locker: locker_key,
            owner: escrow_owner,
            bump,
            tokens,
            amount: 0,
            escrow_started_at: 0,
            escrow_ends_at: 0,
            vote_delegate: escrow_owner,
        }),
        r.1 == (NewEscrowEvent { escrow: escrow_key, escrow_owner, locker: locker_key, timestamp: now }),
{
    let escrow = Escrow {
        locker: locker_key,
        owner: escrow_owner,
        bump,
        tokens,
        amount: 0,
        escrow_started_at: 0,
        escrow_ends_at: 0,
        vote_delegate: escrow_owner,
    };
    let event = NewEscrowEvent {
        escrow: escrow_key,
        escrow_owner,
        locker: locker_key,
        timestamp: now,
    };
    (escrow, event)
}

/// Replaces the locker's parameters and reports the change. Only the
/// governor's smart wallet may invoke this; that check belongs to the
/// caller's validation layer.
pub fn set_locker_params(locker: &mut Locker, locker_key: AccountKey, params: LockerParams) -> (r:
    LockerSetParamsEvent)
    ensures
        *final(locker) == (Locker { params, ..*old(locker) }),
        r == (LockerSetParamsEvent {
            locker: locker_key,
            prev_params: old(locker).params,
            params,
        }),
{
    let prev_params = locker.params;
    locker.params = params;
    LockerSetParamsEvent { locker: locker_key, prev_params, params }
}

/// Grants `program_id` the privilege to lock via cross-program call,
/// scoped to `owner` (the all-zero system key means any owner), and
/// reports the fact.
pub fn approve_program_lock_privilege(
    locker_key: AccountKey,
    bump: u8,
    program_id: AccountKey,
    owner: AccountKey,
    now: i64,
) -> (r: (LockerWhitelistEntry, ApproveLockPrivilegeEvent))
    ensures
        r.0 == (LockerWhitelistEntry { bump, locker: locker_key, program_id, owner }),
        r.1 == (ApproveLockPrivilegeEvent { locker: locker_key, program_id, owner, timestamp: now }),
{
    let entry = LockerWhitelistEntry { bump, locker: locker_key, program_id, owner };
    let event = ApproveLockPrivilegeEvent { locker: locker_key, program_id, owner, timestamp: now };
    (entry, event)
}

/// Reports that a whitelist entry was closed, revoking its program's
/// lock privilege. The entry's removal is the platform's account close.
pub fn revoke_program_lock_privilege(entry: &LockerWhitelistEntry, now: i64) -> (r:
    RevokeLockPrivilegeEvent)
    ensures
        r == (RevokeLockPrivilegeEvent {
            locker: entry.locker,
            program_id: entry.program_id,
            timestamp: now,
        }),
{
    RevokeLockPrivilegeEvent {
        locker: entry.locker,
        program_id: entry.program_id,
        timestamp: now,
    }
}

/// Activates `proposal` on the strength of the caller's escrow: the
/// escrow's voting power at `now` must reach the locker's activation
/// threshold, and the proposal must then satisfy every rule of
/// [`spec_activate`]. On any rejection the proposal is untouched.
pub fn activate_proposal(
    locker: &Locker,
    escrow: &Escrow,
    governor: &Governor,
    proposal: &mut Proposal,
    proposal_key: AccountKey,
    now: i64,
) -> (r: Result<ProposalActivateEvent, ErrorCode>)
    ensures
        match spec_voter_power(locker.params, *escrow, now) {
            None => {
                &&& r == Err::<ProposalActivateEvent, ErrorCode>(ErrorCode::ArithmeticFault)
                &&& *final(proposal) == *old(proposal)
            },
            Some(power) => if power < locker.params.proposal_activation_min_votes {
                &&& r == Err::<ProposalActivateEvent, ErrorCode>(
                    ErrorCode::InsufficientVotingPower,
                )
                &&& *final(proposal) == *old(proposal)
            } else {
                match spec_activate(*governor, *old(proposal), now) {
                    Ok(p) => {
                        &&& *final(proposal) == p
                        &&& r == Ok::<ProposalActivateEvent, ErrorCode>(ProposalActivateEvent {
                            governor: p.governor,
                            proposal: proposal_key,
                            voting_ends_at: p.voting_ends_at,
                        })
                    },
                    Err(e) => {
                        &&& r == Err::<ProposalActivateEvent, ErrorCode>(e)
                        &&& *final(proposal) == *old(proposal)
                    },
                }
            },
        },
{
    let power = match escrow.voting_power(&locker.params, now) {
        Ok(power) => power,
        Err(e) => {
            return Err(e);
        },
    };
    if power < locker.params.proposal_activation_min_votes {
        return Err(ErrorCode::InsufficientVotingPower);
    }
    crate::govern::instructions::activate_proposal(governor, proposal, proposal_key, now)
}

/// Casts the escrow's vote on an active proposal, weighted by the voting
/// power the escrow will still hold when voting ends — so power expiring
/// mid-vote counts for nothing. A zero-power ballot is a quiet no-op
/// reporting no fact. On any rejection both records are untouched.
pub fn cast_vote(
    locker: &Locker,
    escrow: &Escrow,
    proposal: &mut Proposal,
    vote: &mut Vote,
    proposal_key: AccountKey,
    vote_key: AccountKey,
    side: u8,
    now: i64,
) -> (r: Result<Option<VoteSetEvent>, ErrorCode>)
    ensures
        match crate::govern::proposal::spec_state(*old(proposal), now) {
            None => {
                &&& r == Err::<Option<VoteSetEvent>, ErrorCode>(ErrorCode::ArithmeticFault)
                &&& *final(proposal) == *old(proposal)
                &&& *final(vote) == *old(vote)
            },
            Some(state) => if state != ProposalState::Active {
                &&& r == Err::<Option<VoteSetEvent>, ErrorCode>(ErrorCode::ProposalNotActive)
                &&& *final(proposal) == *old(proposal)
                &&& *final(vote) == *old(vote)
            } else {
                match spec_voter_power(locker.params, *escrow, old(proposal).voting_ends_at) {
                    None => {
                        &&& r == Err::<Option<VoteSetEvent>, ErrorCode>(ErrorCode::ArithmeticFault)
                        &&& *final(proposal) == *old(proposal)
                        &&& *final(vote) == *old(vote)
                    },
                    Some(power) => if power == 0 {
                        &&& r == Ok::<Option<VoteSetEvent>, ErrorCode>(None)
                        &&& *final(proposal) == *old(proposal)
                        &&& *final(vote) == *old(vote)
                    } else {
                        match spec_set_vote(*old(proposal), *old(vote), side, power, now) {
                            Ok(updated) => {
                                &&& *final(proposal) == updated.0
                                &&& *final(vote) == updated.1
                                &&& r == Ok::<Option<VoteSetEvent>, ErrorCode>(
                                    Some(
                                        VoteSetEvent {
                                            governor: updated.0.governor,
                                            proposal: proposal_key,
                                            voter: updated.1.voter,
                                            vote: vote_key,
                                            side,
                                            weight: power,
                                        },
                                    ),
                                )
                            },
                            Err(e) => {
                                &&& r == Err::<Option<VoteSetEvent>, ErrorCode>(e)
                                &&& *final(proposal) == *old(proposal)
                                &&& *final(vote) == *old(vote)
                            },
                        }
                    },
                }
            },
        },
{
    match proposal.state(now) {
        None => {
            return Err(ErrorCode::ArithmeticFault);
        },
        Some(state) => {
            if state != ProposalState::Active {
                return Err(ErrorCode::ProposalNotActive);
            }
        },
    }
    let voting_power = match escrow.voting_power(&locker.params, proposal.voting_ends_at) {
        Ok(power) => power,
        Err(e) => {
            return Err(e);
        },
    };
    // zero votes should short circuit.
    if voting_power == 0 {
        return Ok(None);
    }
    match crate::govern::instructions::set_vote(
        proposal,
        vote,
        proposal_key,
        vote_key,
        side,
        voting_power,
        now,
    ) {
        Ok(event) => Ok(Some(event)),
        Err(e) => Err(e),
    }
}

} // verus!

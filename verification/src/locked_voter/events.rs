//! Facts reported by successful locked-voter operations.
//!
//! Every successful mutation returns one of these records so the caller
//! can hand it to the logging collaborator; how it is transported is not
//! the core's concern.

use vstd::prelude::*;

use crate::account_key::AccountKey;
use crate::locked_voter::state::LockerParams;

verus! {

/// A new locker was created.
#[derive(Clone, Copy, Debug, PartialEq, Eq, Structural)]
pub struct NewLockerEvent {
    /// The governor for the locker.
    pub governor: AccountKey,
    /// The locker being created.
    pub locker: AccountKey,
    /// Mint of the token that can be used to join the locker.
    pub token_mint: AccountKey,
    /// New locker parameters.
    pub params: LockerParams,
}

/// A new escrow was created.
#[derive(Clone, Copy, Debug, PartialEq, Eq, Structural)]
pub struct NewEscrowEvent {
    /// The escrow being created.
    pub escrow: AccountKey,
    /// The owner of the escrow.
    pub escrow_owner: AccountKey,
    /// The locker for the escrow.
    pub locker: AccountKey,
    /// Timestamp for the event.
    pub timestamp: i64,
}

/// Tokens were locked, or an existing lock was refreshed.
#[derive(Clone, Copy, Debug, PartialEq, Eq, Structural)]
pub struct LockEvent {
    /// The locker of the escrow.
    pub locker: AccountKey,
    /// The owner of the escrow.
    pub escrow_owner: AccountKey,
    /// Mint of the token for the locker.
    pub token_mint: AccountKey,
    /// Amount of tokens locked.
    pub amount: u64,
    /// Amount of tokens locked inside the locker.
    pub locker_supply: u64,
    /// Duration of lock time.
    pub duration: i64,
    /// The previous timestamp that the escrow ended at.
    pub prev_escrow_ends_at: i64,
    /// The new escrow end time.
    pub next_escrow_ends_at: i64,
    /// The new escrow start time.
    pub next_escrow_started_at: i64,
}

/// An escrow was exited and its tokens released.
#[derive(Clone, Copy, Debug, PartialEq, Eq, Structural)]
pub struct ExitEscrowEvent {
    /// The owner of the escrow.
    pub escrow_owner: AccountKey,
    /// The locker for the escrow.
    pub locker: AccountKey,
    /// Timestamp for the event.
    pub timestamp: i64,
    /// The amount of tokens still locked inside the locker.
    pub locker_supply: u64,
    /// The amount released from the escrow.
    pub released_amount: u64,
}

/// A program was granted the privilege to lock via cross-program call.
#[derive(Clone, Copy, Debug, PartialEq, Eq, Structural)]
pub struct ApproveLockPrivilegeEvent {
    /// The locker.
    pub locker: AccountKey,
    /// Program approved to make cross-program calls to the lock operation.
    pub program_id: AccountKey,
    /// The only escrow owner the program may lock for; the all-zero system
    /// key means any owner.
    pub owner: AccountKey,
    /// Timestamp of the event.
    pub timestamp: i64,
}

/// A program's lock privilege was revoked.
#[derive(Clone, Copy, Debug, PartialEq, Eq, Structural)]
pub struct RevokeLockPrivilegeEvent {
    /// The locker.
    pub locker: AccountKey,
    /// Program whose lock privilege was revoked.
    pub program_id: AccountKey,
    /// Timestamp of the event.
    pub timestamp: i64,
}

/// The locker's parameters were replaced.
#[derive(Clone, Copy, Debug, PartialEq, Eq, Structural)]
pub struct LockerSetParamsEvent {
    /// The locker.
    pub locker: AccountKey,
    /// Previous locker parameters.
    pub prev_params: LockerParams,
    /// New locker parameters.
    pub params: LockerParams,
}

/// An escrow's vote delegate was reassigned.
#[derive(Clone, Copy, Debug, PartialEq, Eq, Structural)]
pub struct SetVoteDelegateEvent {
    /// The owner of the escrow.
    pub escrow_owner: AccountKey,
    /// The old escrow delegate.
    pub old_delegate: AccountKey,
    /// The new escrow delegate.
    pub new_delegate: AccountKey,
}

} // verus!

//! Records that hold locked-voter state.

use vstd::prelude::*;

use crate::account_key::AccountKey;
use crate::error::ErrorCode;
use crate::locked_voter::events::SetVoteDelegateEvent;
use crate::locked_voter::locker::spec_voter_power;

verus! {

/// A group of escrows: the pool-level configuration and aggregate
/// accounting for all time-locked positions under one DAO.
#[derive(Clone, Copy, Debug, PartialEq, Eq, Structural)]
pub struct Locker {
    /// Base key used to derive the locker's address.
    pub base: AccountKey,
    /// Address-derivation bump seed.
    pub bump: u8,
    /// Mint of the token that must be locked in the locker.
    pub token_mint: AccountKey,
    /// Total number of tokens locked across all escrows. An exact running
    /// sum: every lock adds to it and every exit subtracts from it, both
    /// checked.
    pub locked_supply: u64,
    /// Governor associated with the locker.
    pub governor: AccountKey,
    /// Mutable parameters of how the locker should behave.
    pub params: LockerParams,
}

impl Default for Locker {
    /// An empty locker: zero keys, nothing locked, zero parameters.
    fn default() -> (r: Locker)
        ensures
            r == (Locker {
                base: AccountKey::spec_zero(),
                bump: 0,
                token_mint: AccountKey::spec_zero(),
                locked_supply: 0,
                governor: AccountKey::spec_zero(),
                params: LockerParams {
                    whitelist_enabled: false,
                    max_stake_vote_multiplier: 0,
                    min_stake_duration: 0,
                    max_stake_duration: 0,
                    proposal_activation_min_votes: 0,
                },
            }),
    {
        Locker {
            base: AccountKey::zero(),
            bump: 0,
            token_mint: AccountKey::zero(),
            locked_supply: 0,
            governor: AccountKey::zero(),
            params: LockerParams::default(),
        }
    }
}

/// Parameters for a locker.
#[derive(Clone, Copy, Debug, PartialEq, Eq, Structural)]
pub struct LockerParams {
    /// Whether or not the locking whitelist system is enabled.
    pub whitelist_enabled: bool,
    /// The weight of a maximum vote lock relative to the total number of
    /// tokens locked: a token locked for the maximum duration is worth this
    /// many votes.
    pub max_stake_vote_multiplier: u8,
    /// Minimum staking duration, in seconds.
    pub min_stake_duration: u64,
    /// Maximum staking duration, in seconds.
    pub max_stake_duration: u64,
    /// Minimum number of votes required to activate a proposal.
    pub proposal_activation_min_votes: u64,
}

impl Default for LockerParams {
    /// All-zero parameters with the whitelist disabled.
    fn default() -> (r: LockerParams)
        ensures
            r == (LockerParams {
                whitelist_enabled: false,
                max_stake_vote_multiplier: 0,
                min_stake_duration: 0,
                max_stake_duration: 0,
                proposal_activation_min_votes: 0,
            }),
    {
        LockerParams {
            whitelist_enabled: false,
            max_stake_vote_multiplier: 0,
            min_stake_duration: 0,
            max_stake_duration: 0,
            proposal_activation_min_votes: 0,
        }
    }
}

/// An entry in the locker's whitelist: permission for a program — and
/// optionally only for one escrow owner — to invoke the lock operation on
/// behalf of a third party.
#[derive(Clone, Copy, Debug, PartialEq, Eq, Structural)]
pub struct LockerWhitelistEntry {
    /// Address-derivation bump seed.
    pub bump: u8,
    /// The locker this whitelist entry belongs to.
    pub locker: AccountKey,
    /// Key of the program allowed to lock on behalf of an escrow owner.
    pub program_id: AccountKey,
    /// The only escrow owner the program may lock for; the system
    /// program's key (all zeros) means any owner.
    pub owner: AccountKey,
}

/// A single user's time-locked position: tokens held until an unlock time
/// in exchange for voting rights that decay linearly toward that time.
#[derive(Clone, Copy, Debug, PartialEq, Eq, Structural)]
pub struct Escrow {
    /// The locker this escrow is part of.
    pub locker: AccountKey,
    /// The account authorized to stake into and withdraw from this escrow.
    pub owner: AccountKey,
    /// Address-derivation bump seed.
    pub bump: u8,
    /// The token account holding the escrow tokens.
    pub tokens: AccountKey,
    /// Amount of tokens staked.
    pub amount: u64,
    /// When the lock began; 0 = never locked or fully exited.
    pub escrow_started_at: i64,
    /// When the lock expires and the owner may withdraw; 0 = never locked
    /// or fully exited.
    pub escrow_ends_at: i64,
    /// Account authorized to vote on behalf of this escrow; defaults to
    /// the owner.
    pub vote_delegate: AccountKey,
}

/// The escrow and locker after a lock event of `lock_amount` tokens with
/// the new lock window, or no value if either running sum would overflow.
pub open spec fn spec_record_lock_event(
    escrow: Escrow,
    locker: Locker,
    lock_amount: u64,
    next_escrow_started_at: i64,
    next_escrow_ends_at: i64,
) -> Option<(Escrow, Locker)> {
    if escrow.amount + lock_amount > u64::MAX {
        None
    } else if locker.locked_supply + lock_amount > u64::MAX {
        None
    } else {
        Some(
            (
                Escrow {
                    amount: (escrow.amount + lock_amount) as u64,
                    escrow_started_at: next_escrow_started_at,
                    escrow_ends_at: next_escrow_ends_at,
                    ..escrow
                },
                Locker { locked_supply: (locker.locked_supply + lock_amount) as u64, ..locker },
            ),
        )
    }
}

impl Escrow {
    /// Gets the amount of voting power the escrow will have at the given
    /// time; see [`spec_voter_power`].
    pub fn voting_power_at_time(&self, locker: &LockerParams, timestamp: i64) -> (r: Option<u64>)
        ensures
            r == spec_voter_power(*locker, *self, timestamp),
    {
        locker.calculate_voter_power(self, timestamp)
    }

    /// Gets the amount of voting power the escrow has at time `now`, with
    /// an undefined power surfaced as an arithmetic fault rather than a
    /// missing value.
    pub fn voting_power(&self, locker: &LockerParams, now: i64) -> (r: Result<u64, ErrorCode>)
        ensures
            match spec_voter_power(*locker, *self, now) {
                Some(power) => r == Ok::<u64, ErrorCode>(power),
                None => r == Err::<u64, ErrorCode>(ErrorCode::ArithmeticFault),
            },
    {
        match self.voting_power_at_time(locker, now) {
            Some(power) => Ok(power),
            None => Err(ErrorCode::ArithmeticFault),
        }
    }

    /// Updates the escrow and its locker to account for a lock event:
    /// `lock_amount` joins both the escrow's balance and the locker's
    /// running supply (both checked), and the lock window is replaced.
    /// On a fault neither record changes.
    pub fn record_lock_event(
        &mut self,
        locker: &mut Locker,
        lock_amount: u64,
        next_escrow_started_at: i64,
        next_escrow_ends_at: i64,
    ) -> (r: Result<(), ErrorCode>)
        ensures
            match spec_record_lock_event(
                *old(self),
                *old(locker),
                lock_amount,
                next_escrow_started_at,
                next_escrow_ends_at,
            ) {
                Some(updated) => {
                    &&& r is Ok
                    &&& *final(self) == updated.0
                    &&& *final(locker) == updated.1
                },
                None => {
                    &&& r == Err::<(), ErrorCode>(ErrorCode::ArithmeticFault)
                    &&& *final(self) == *old(self)
                    &&& *final(locker) == *old(locker)
                },
            },
    {
        if self.amount > u64::MAX - lock_amount {
            return Err(ErrorCode::ArithmeticFault);
        }
        if locker.locked_supply > u64::MAX - lock_amount {
            return Err(ErrorCode::ArithmeticFault);
        }
        self.amount = self.amount + lock_amount;
        self.escrow_started_at = next_escrow_started_at;
        self.escrow_ends_at = next_escrow_ends_at;
        locker.locked_supply = locker.locked_supply + lock_amount;
        Ok(())
    }

    /// Reassigns the account authorized to vote on behalf of this escrow
    /// and reports the change.
    pub fn set_vote_delegate(&mut self, new_delegate: AccountKey) -> (r: SetVoteDelegateEvent)
        ensures
            *final(self) == (Escrow { vote_delegate: new_delegate, ..*old(self) }),
            r == (SetVoteDelegateEvent {
                escrow_owner: old(self).owner,
                old_delegate: old(self).vote_delegate,
                new_delegate,
            }),
    {
        let old_delegate = self.vote_delegate;
        self.vote_delegate = new_delegate;
        SetVoteDelegateEvent { escrow_owner: self.owner, old_delegate, new_delegate }
    }
}

impl Default for Escrow {
    /// An empty escrow: zero keys, nothing staked, no lock window.
    fn default() -> (r: Escrow)
        ensures
            r == (Escrow {
                locker: AccountKey::spec_zero(),
                owner: AccountKey::spec_zero(),
                bump: 0,
                tokens: AccountKey::spec_zero(),
                amount: 0,
                escrow_started_at: 0,
                escrow_ends_at: 0,
                vote_delegate: AccountKey::spec_zero(),
            }),
    {
        Escrow {
            locker: AccountKey::zero(),
            owner: AccountKey::zero(),
            bump: 0,
            tokens: AccountKey::zero(),
            amount: 0,
            escrow_started_at: 0,
            escrow_ends_at: 0,
            vote_delegate: AccountKey::zero(),
        }
    }
}

} // verus!

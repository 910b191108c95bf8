//! A simple voter where 1 token = 1 vote: an alternate electorate that
//! plugs into the same proposal state machine without time decay.
//!
//! Each voter's deposited balance is mirrored in a token record; casting
//! votes forwards that balance into the governance tallies, and a counter
//! of unfinalized ballots blocks withdrawal until every ballot on a
//! closed proposal is finalized.

use vstd::prelude::*;

use crate::account_key::AccountKey;
use crate::error::ErrorCode;
use crate::govern::events::VoteSetEvent;
use crate::govern::instructions::{set_vote, spec_set_vote};
use crate::govern::proposal::{spec_state, ProposalState};
use crate::govern::state::{Proposal, Vote};

verus! {

/// One simple-voter electorate: the pluggable voting body recorded as a
/// governor's electorate.
#[derive(Clone, Copy, Debug, PartialEq, Eq, Structural)]
pub struct Electorate {
    /// Address-derivation bump seed.
    pub bump: u8,
    /// Base key from which the electorate's address is derived.
    pub base: AccountKey,
    /// The governor this electorate votes under.
    pub governor: AccountKey,
    /// Mint of the governance token that backs votes.
    pub gov_token_mint: AccountKey,
    /// The number of votes required for a voter to activate a proposal.
    pub proposal_threshold: u64,
}

/// One voter's deposited-token record under an electorate.
#[derive(Clone, Copy, Debug, PartialEq, Eq, Structural)]
pub struct TokenRecord {
    /// Address-derivation bump seed.
    pub bump: u8,
    /// The voter who owns this record.
    pub authority: AccountKey,
    /// The electorate this record belongs to.
    pub electorate: AccountKey,
    /// The vault holding the deposited tokens.
    pub token_vault_key: AccountKey,
    /// The deposited balance, mirrored from the vault after every
    /// transfer.
    pub balance: u64,
    /// How many cast ballots have not yet been finalized; tokens may only
    /// be withdrawn when this is zero.
    pub unfinalized_votes: u64,
}

/// Creates an electorate.
pub fn initialize_electorate(
    base: AccountKey,
    bump: u8,
    governor: AccountKey,
    gov_token_mint: AccountKey,
    proposal_threshold: u64,
) -> (r: Electorate)
    ensures
        r == (Electorate { bump, base, governor, gov_token_mint, proposal_threshold }),
{
    Electorate { bump, base, governor, gov_token_mint, proposal_threshold }
}

/// Creates a voter's token record, mirroring the vault's current balance.
pub fn initialize_token_record(
    bump: u8,
    authority: AccountKey,
    electorate: AccountKey,
    token_vault_key: AccountKey,
    vault_balance: u64,
) -> (r: TokenRecord)
    ensures
        r == (TokenRecord {
            bump,
            authority,
            electorate,
            token_vault_key,
            balance: vault_balance,
            unfinalized_votes: 0,
        }),
{
    TokenRecord {
        bump,
        authority,
        electorate,
        token_vault_key,
        balance: vault_balance,
        unfinalized_votes: 0,
    }
}

impl TokenRecord {
    /// Records a deposit: after the caller has transferred tokens into
    /// the vault and re-read it, the record mirrors the vault's balance.
    pub fn deposit_tokens(&mut self, vault_balance: u64)
        ensures
            *final(self) == (TokenRecord { balance: vault_balance, ..*old(self) }),
    {
        self.balance = vault_balance;
    }

    /// Records a withdrawal: rejected while any ballot remains
    /// unfinalized, otherwise the record mirrors the vault's balance
    /// after the transfer out.
    pub fn withdraw_tokens(&mut self, vault_balance: u64) -> (r: Result<(), ErrorCode>)
        ensures
            old(self).unfinalized_votes != 0 ==> {
                &&& r == Err::<(), ErrorCode>(ErrorCode::UnfinalizedVotesRemaining)
                &&& *final(self) == *old(self)
            },
            old(self).unfinalized_votes == 0 ==> {
                &&& r is Ok
                &&& *final(self) == (TokenRecord { balance: vault_balance, ..*old(self) })
            },
    {
        if self.unfinalized_votes != 0 {
            return Err(ErrorCode::UnfinalizedVotesRemaining);
        }
        self.balance = vault_balance;
        Ok(())
    }
}

/// The record, proposal and ballot after this voter casts their full
/// balance on `side`, or the error that rejects it: the ballot change is
/// governed by [`spec_set_vote`] with the record's balance as the weight,
/// and one more ballot then awaits finalization (checked).
pub open spec fn spec_cast_votes(
    record: TokenRecord,
    p: Proposal,
    v: Vote,
    side: u8,
    now: i64,
) -> Result<(TokenRecord, Proposal, Vote), ErrorCode> {
    if record.unfinalized_votes == u64::MAX {
        Err(ErrorCode::ArithmeticFault)
    } else {
        match spec_set_vote(p, v, side, record.balance, now) {
            Err(e) => Err(e),
            Ok(updated) => Ok(
                (
                    TokenRecord {
                        unfinalized_votes: (record.unfinalized_votes + 1) as u64,
                        ..record
                    },
                    updated.0,
                    updated.1,
                ),
            ),
        }
    }
}

/// Casts this voter's whole deposited balance on `side` of an active
/// proposal. On any rejection no record changes.
pub fn cast_votes(
    record: &mut TokenRecord,
    proposal: &mut Proposal,
    vote: &mut Vote,
    proposal_key: AccountKey,
    vote_key: AccountKey,
    side: u8,
    now: i64,
) -> (r: Result<VoteSetEvent, ErrorCode>)
    ensures
        match spec_cast_votes(*old(record), *old(proposal), *old(vote), side, now) {
            Ok(updated) => {
                &&& *final(record) == updated.0
                &&& *final(proposal) == updated.1
                &&& *final(vote) == updated.2
                &&& r == Ok::<VoteSetEvent, ErrorCode>(VoteSetEvent {
                    governor: updated.1.governor,
                    proposal: proposal_key,
                    voter: updated.2.voter,
                    vote: vote_key,
                    side,
                    weight: old(record).balance,
                })
            },
            Err(e) => {
                &&& r == Err::<VoteSetEvent, ErrorCode>(e)
                &&& *final(record) == *old(record)
                &&& *final(proposal) == *old(proposal)
                &&& *final(vote) == *old(vote)
            },
        },
{
    if record.unfinalized_votes == u64::MAX {
        return Err(ErrorCode::ArithmeticFault);
    }
    let event = match set_vote(proposal, vote, proposal_key, vote_key, side, record.balance, now) {
        Ok(event) => event,
        Err(e) => {
            return Err(e);
        },
    };
    record.unfinalized_votes = record.unfinalized_votes + 1;
    Ok(event)
}

/// The record, proposal and ballot after this voter retracts their
/// ballot (sets it to zero weight on its current side), or the error
/// that rejects it.
pub open spec fn spec_withdraw_votes(
    record: TokenRecord,
    p: Proposal,
    v: Vote,
    now: i64,
) -> Result<(TokenRecord, Proposal, Vote), ErrorCode> {
    if record.unfinalized_votes == 0 {
        Err(ErrorCode::ArithmeticFault)
    } else {
        match spec_set_vote(p, v, v.side, 0, now) {
            Err(e) => Err(e),
            Ok(updated) => Ok(
                (
                    TokenRecord {
                        unfinalized_votes: (record.unfinalized_votes - 1) as u64,
                        ..record
                    },
                    updated.0,
                    updated.1,
                ),
            ),
        }
    }
}

/// Retracts this voter's ballot from an active proposal, freeing one
/// unfinalized slot. On any rejection no record changes.
pub fn withdraw_votes(
    record: &mut TokenRecord,
    proposal: &mut Proposal,
    vote: &mut Vote,
    proposal_key: AccountKey,
    vote_key: AccountKey,
    now: i64,
) -> (r: Result<VoteSetEvent, ErrorCode>)
    ensures
        match spec_withdraw_votes(*old(record), *old(proposal), *old(vote), now) {
            Ok(updated) => {
                &&& *final(record) == updated.0
                &&& *final(proposal) == updated.1
                &&& *final(vote) == updated.2
                &&& r == Ok::<VoteSetEvent, ErrorCode>(VoteSetEvent {
                    governor: updated.1.governor,
                    proposal: proposal_key,
                    voter: updated.2.voter,
                    vote: vote_key,
                    side: old(vote).side,
                    weight: 0,
                })
            },
            Err(e) => {
                &&& r == Err::<VoteSetEvent, ErrorCode>(e)
                &&& *final(record) == *old(record)
                &&& *final(proposal) == *old(proposal)
                &&& *final(vote) == *old(vote)
            },
        },
{
    if record.unfinalized_votes == 0 {
        return Err(ErrorCode::ArithmeticFault);
    }
    let side = vote.side;
    let event = match set_vote(proposal, vote, proposal_key, vote_key, side, 0, now) {
        Ok(event) => event,
        Err(e) => {
            return Err(e);
        },
    };
    record.unfinalized_votes = record.unfinalized_votes - 1;
    Ok(event)
}

/// Finalizes one of this voter's ballots once the proposal is no longer
/// active, freeing one unfinalized slot. Rejected while voting is still
/// open, on an undefined proposal state, and when no ballot awaits
/// finalization.
pub fn finalize_votes(record: &mut TokenRecord, proposal: &Proposal, now: i64) -> (r: Result<
    (),
    ErrorCode,
>)
    ensures
        match spec_state(*proposal, now) {
            None => {
                &&& r == Err::<(), ErrorCode>(ErrorCode::ArithmeticFault)
                &&& *final(record) == *old(record)
            },
            Some(state) => if state == ProposalState::Active {
                &&& r == Err::<(), ErrorCode>(ErrorCode::ProposalStillActive)
                &&& *final(record) == *old(record)
            } else if old(record).unfinalized_votes == 0 {
                &&& r == Err::<(), ErrorCode>(ErrorCode::ArithmeticFault)
                &&& *final(record) == *old(record)
            } else {
                &&& r is Ok
                &&& *final(record) == (TokenRecord {
                    unfinalized_votes: (old(record).unfinalized_votes - 1) as u64,
                    ..*old(record)
                })
            },
        },
{
    match proposal.state(now) {
        None => {
            return Err(ErrorCode::ArithmeticFault);
        },
        Some(state) => {
            if state == ProposalState::Active {
                return Err(ErrorCode::ProposalStillActive);
            }
        },
    }
    if record.unfinalized_votes == 0 {
        return Err(ErrorCode::ArithmeticFault);
    }
    record.unfinalized_votes = record.unfinalized_votes - 1;
    Ok(())
}

} // verus!

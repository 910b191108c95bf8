//! Error tags returned by the governance operations.

use vstd::prelude::*;

verus! {

/// Why an operation was rejected.
///
/// Every operation returns a `Result` with one of these tags; on failure the
/// caller discards the whole transaction, so no partial state is observable.
/// Arithmetic faults are distinguishable from lifecycle-precondition
/// violations, and both from identity mismatches.
#[derive(Clone, Copy, Debug, PartialEq, Eq, Structural)]
pub enum ErrorCode {
    /// A checked add, subtract, multiply or divide would have overflowed,
    /// underflowed, or divided by zero.
    ArithmeticFault,
    /// A vote side byte was none of pending, against, for or abstain.
    InvalidVoteSide,
    /// A governor cannot be created with a negative timelock delay.
    InvalidTimelockDelay,
    /// The owner of the smart wallet doesn't match with current.
    GovernorNotFound,
    /// The proposal cannot be activated since it has not yet passed the
    /// voting delay.
    VotingDelayNotMet,
    /// Only drafts can be canceled.
    ProposalNotDraft,
    /// The proposal must be active.
    ProposalNotActive,
    /// The proposal must no longer be active.
    ProposalStillActive,
    /// Only succeeded proposals may be queued for execution.
    ProposalNotSucceeded,
    /// The escrow's voting power is below the minimum required to activate
    /// a proposal.
    InsufficientVotingPower,
    /// CPI caller not whitelisted to invoke lock instruction.
    ProgramNotWhitelisted,
    /// Lockup duration must at least be the min stake duration.
    LockupDurationTooShort,
    /// Lockup duration must at most be the max stake duration.
    LockupDurationTooLong,
    /// A voting escrow refresh cannot shorten the escrow time remaining.
    RefreshCannotShorten,
    /// Escrow has not ended.
    EscrowNotEnded,
    /// Program whitelist enabled; a whitelist entry must be provided.
    MustProvideWhitelist,
    /// CPI caller not whitelisted for escrow owner to invoke lock
    /// instruction.
    EscrowOwnerNotWhitelisted,
    /// Must call `lock_with_whitelist_entry` to lock via CPI.
    MustCallLockWithWhitelistEntry,
    /// Must call `lock_permissionless` since this DAO does not have a CPI
    /// whitelist.
    MustCallLockPermissionless,
    /// Two keys that were required to refer to the same account differ.
    KeyMismatch,
    /// Below proposing threshold.
    BelowProposingThreshold,
    /// Tokens cannot be withdrawn while votes remain unfinalized.
    UnfinalizedVotesRemaining,
}

} // verus!

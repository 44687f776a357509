//! The error taxonomy: every violated precondition of a governance
//! operation is surfaced as a distinct, named failure.

use vstd::prelude::*;

verus! {

/// One variant per failure condition; no condition is ever coerced into a
/// generic error, and a failed call leaves the state unchanged.
#[derive(Clone, Copy, Debug, PartialEq, Eq, Structural)]
pub enum GovError {
    /// `initialize` was called a second time.
    AlreadyInitialized,
    /// A quorum above 10000 basis points was supplied.
    InvalidQuorum,
    /// The authenticated caller is not the stored admin.
    Unauthorized,
    /// An administrative operation named an address with no member record.
    MemberNotFound,
    /// A proposer or voter has no member record.
    NotAMember,
    /// A proposer or voter has a member record but is deactivated.
    MemberInactive,
    /// The proposer's voting power is below the proposal threshold.
    InsufficientVotingPower,
    /// No proposal exists under the given id.
    ProposalNotFound,
    /// A vote arrived after `voting_ends_at`.
    VotingPeriodEnded,
    /// A vote was cast on a proposal that is no longer `Active`.
    ProposalNotActive,
    /// The voter already holds a vote record for this proposal.
    AlreadyVoted,
    /// Finalization was attempted at or before `voting_ends_at`.
    VotingPeriodNotEnded,
    /// Finalization was attempted on a proposal that already left `Active`.
    AlreadyFinalized,
    /// Execution was attempted on a proposal whose status is not `Passed`.
    NotPassed,
    /// Execution was attempted on a proposal already marked executed.
    AlreadyExecuted,
    /// Execution was attempted before `voting_ends_at + execution_delay`.
    ExecutionDelayNotElapsed,
}

} // verus!

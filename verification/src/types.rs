//! The data model: members, proposals, votes and the global settings.

use vstd::prelude::*;

verus! {

/// An account identifier. The host's identity subsystem proves that a
/// caller controls a given identifier; the engine only compares them.
pub type Address = u64;

/// Lifecycle status of a proposal.
///
/// Transitions: `Active -> {Passed, Failed}` at finalization, and
/// `Passed -> Executed` at execution. `Failed` and `Executed` are terminal.
#[derive(Clone, Copy, Debug, PartialEq, Eq, Structural)]
pub enum ProposalStatus {
    Active,
    Passed,
    Failed,
    Executed,
}

/// A vote choice.
#[derive(Clone, Copy, Debug, PartialEq, Eq, Structural)]
pub enum Vote {
    For,
    Against,
    Abstain,
}

/// A member record. Never deleted: deactivation zeroes the voting power
/// and clears the active flag but keeps the record.
#[derive(Clone, Copy, Debug, PartialEq, Eq, Structural)]
pub struct Member {
    pub address: Address,
    pub joining_time: u64,
    pub voting_power: u64,
    pub is_active: bool,
}

/// Global configuration and running aggregates, created exactly once at
/// initialization. `quorum` is in basis points (10000 = 100%).
#[derive(Clone, Copy, Debug, PartialEq, Eq, Structural)]
pub struct DAOSettings {
    pub proposal_threshold: u64,
    pub quorum: u64,
    pub voting_period: u64,
    pub execution_delay: u64,
    pub total_voting_power: u64,
    pub member_count: u64,
    pub proposal_count: u64,
}

/// A proposal record. Ids are assigned sequentially starting at 1; the
/// vote tallies are running sums of voting power at cast time. Both
/// timing fields are computed from the settings in force at creation and
/// copied by value, so later settings changes never move them:
/// `voting_ends_at = creation_time + voting_period` and
/// `executable_at = voting_ends_at + execution_delay`.
#[derive(Debug)]
pub struct Proposal {
    pub id: u64,
    pub title: String,
    pub description: String,
    pub proposer: Address,
    pub creation_time: u64,
    pub voting_ends_at: u64,
    pub executable_at: u64,
    pub status: ProposalStatus,
    pub for_votes: u64,
    pub against_votes: u64,
    pub abstain_votes: u64,
    pub is_executed: bool,
    pub execution_time: u64,
}

impl Clone for Proposal {
    fn clone(&self) -> (res: Self)
        ensures
            res == *self,
    {
        Proposal {
            id: self.id,
            title: self.title.clone(),
            description: self.description.clone(),
            proposer: self.proposer,
            creation_time: self.creation_time,
            voting_ends_at: self.voting_ends_at,
            executable_at: self.executable_at,
            status: self.status,
            for_votes: self.for_votes,
            against_votes: self.against_votes,
            abstain_votes: self.abstain_votes,
            is_executed: self.is_executed,
            execution_time: self.execution_time,
        }
    }
}

/// One cast vote, keyed by `(proposal_id, voter)`. `weight` is the voter's
/// voting power at the moment the vote was cast; tallies sum these weights.
#[derive(Clone, Copy, Debug, PartialEq, Eq, Structural)]
pub struct VoteRecord {
    pub proposal_id: u64,
    pub voter: Address,
    pub vote: Vote,
    pub weight: u64,
}

} // verus!

//! Laws that relate several operations, stated and proved over the model.

use vstd::prelude::*;

use crate::contract::DAOGovernanceContract;
use crate::model::{lemma_tally_sum_split, votes_weight_sum};
use crate::types::Address;

verus! {

/// Exactly-one-vote: in every well-formed state the vote ledger holds at
/// most one record per `(proposal, voter)` pair — any two indices that
/// carry the same key are the same index.
pub proof fn lemma_exactly_one_vote(
    c: DAOGovernanceContract,
    pid: u64,
    voter: Address,
    i: int,
    j: int,
)
    requires
        c.wf(),
        0 <= i < c.votes@.len(),
        0 <= j < c.votes@.len(),
        c.votes@[i].proposal_id == pid,
        c.votes@[i].voter == voter,
        c.votes@[j].proposal_id == pid,
        c.votes@[j].voter == voter,
    ensures
        i == j,
{
}

/// Tally conservation: in every well-formed state, a proposal's three
/// tallies sum exactly to the total weight of the votes cast on it — the
/// voting powers, at cast time, of the distinct voters whose vote records
/// the ledger holds for that proposal.
pub proof fn lemma_tally_conservation(c: DAOGovernanceContract, i: int)
    requires
        c.wf(),
        0 <= i < c.proposals@.len(),
    ensures
        c.proposals@[i].for_votes + c.proposals@[i].against_votes
            + c.proposals@[i].abstain_votes
            == votes_weight_sum(c.votes@, c.proposals@[i].id),
{
    assert(c.proposal_wf_at(i));
    lemma_tally_sum_split(c.votes@, c.proposals@[i].id);
}

} // verus!

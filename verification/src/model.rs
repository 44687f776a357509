//! The mathematical model: spec-level sums and lookups over the record
//! sequences, and the lemmas that relate them to sequence operations.

use vstd::prelude::*;

use crate::types::{Address, Member, Vote, VoteRecord, ProposalStatus};

verus! {

/// Sum of `voting_power` over all members, active or not.
pub open spec fn power_sum(s: Seq<Member>) -> int
    decreases s.len(),
{
    if s.len() == 0 {
        0
    } else {
        power_sum(s.drop_last()) + s.last().voting_power
    }
}

/// Sum of `voting_power` over the members with `is_active == true`.
pub open spec fn active_power_sum(s: Seq<Member>) -> int
    decreases s.len(),
{
    if s.len() == 0 {
        0
    } else {
        active_power_sum(s.drop_last()) + if s.last().is_active {
            s.last().voting_power as int
        } else {
            0
        }
    }
}

/// Index of the member record for `addr`, or -1 when absent.
pub open spec fn member_idx(s: Seq<Member>, addr: Address) -> int
    decreases s.len(),
{
    if s.len() == 0 {
        -1
    } else if s.last().address == addr {
        s.len() - 1
    } else {
        member_idx(s.drop_last(), addr)
    }
}

/// Index of the vote record keyed by `(pid, voter)`, or -1 when absent.
pub open spec fn vote_idx(s: Seq<VoteRecord>, pid: u64, voter: Address) -> int
    decreases s.len(),
{
    if s.len() == 0 {
        -1
    } else if s.last().proposal_id == pid && s.last().voter == voter {
        s.len() - 1
    } else {
        vote_idx(s.drop_last(), pid, voter)
    }
}

/// Sum of the weights of the votes on proposal `pid` whose choice is `v`.
pub open spec fn tally_sum(s: Seq<VoteRecord>, pid: u64, v: Vote) -> int
    decreases s.len(),
{
    if s.len() == 0 {
        0
    } else {
        tally_sum(s.drop_last(), pid, v) + if s.last().proposal_id == pid && s.last().vote == v {
            s.last().weight as int
        } else {
            0
        }
    }
}

/// Sum of the weights of all votes on proposal `pid`.
pub open spec fn votes_weight_sum(s: Seq<VoteRecord>, pid: u64) -> int
    decreases s.len(),
{
    if s.len() == 0 {
        0
    } else {
        votes_weight_sum(s.drop_last(), pid) + if s.last().proposal_id == pid {
            s.last().weight as int
        } else {
            0
        }
    }
}

/// No two member records share an address.
pub open spec fn members_distinct(s: Seq<Member>) -> bool {
    forall|i: int, j: int|
        0 <= i < j < s.len() ==> s[i].address != s[j].address
}

/// No two vote records share a `(proposal_id, voter)` key.
pub open spec fn votes_distinct(s: Seq<VoteRecord>) -> bool {
    forall|i: int, j: int|
        0 <= i < j < s.len() ==> !(s[i].proposal_id == s[j].proposal_id
            && s[i].voter == s[j].voter)
}

/// The tally of `p` that a vote with choice `v` counts into.
pub open spec fn tally_of(p: crate::types::Proposal, v: Vote) -> u64 {
    match v {
        Vote::For => p.for_votes,
        Vote::Against => p.against_votes,
        Vote::Abstain => p.abstain_votes,
    }
}

/// The finalization decision rule: quorum first, then simple majority.
/// `quorum_threshold = floor(total_voting_power * quorum / 10000)`; a
/// turnout below it fails, otherwise strictly more For than Against passes
/// and a tie or an Against majority fails.
pub open spec fn decide_status(
    total_voting_power: u64,
    quorum: u64,
    for_votes: u64,
    against_votes: u64,
    abstain_votes: u64,
) -> ProposalStatus {
    let total_votes = for_votes + against_votes + abstain_votes;
    let quorum_threshold = (total_voting_power * quorum) / 10000;
    if total_votes < quorum_threshold {
        ProposalStatus::Failed
    } else if for_votes > against_votes {
        ProposalStatus::Passed
    } else {
        ProposalStatus::Failed
    }
}

/// `member_idx` returns -1 exactly when no record matches, and otherwise a
/// valid index whose record matches.
pub proof fn lemma_member_idx_props(s: Seq<Member>, addr: Address)
    ensures
        member_idx(s, addr) == -1 ==> forall|i: int|
            0 <= i < s.len() ==> s[i].address != addr,
        member_idx(s, addr) != -1 ==> 0 <= member_idx(s, addr) < s.len()
            && s[member_idx(s, addr)].address == addr,
    decreases s.len(),
{
    if s.len() > 0 && s.last().address != addr {
        lemma_member_idx_props(s.drop_last(), addr);
        if member_idx(s, addr) == -1 {
            assert forall|i: int| 0 <= i < s.len() implies s[i].address != addr by {
                if i < s.len() - 1 {
                    assert(s.drop_last()[i] == s[i]);
                }
            }
        }
    }
}

/// With distinct addresses, any matching index is the one `member_idx` names.
pub proof fn lemma_member_idx_of(s: Seq<Member>, addr: Address, i: int)
    requires
        members_distinct(s),
        0 <= i < s.len(),
        s[i].address == addr,
    ensures
        member_idx(s, addr) == i,
    decreases s.len(),
{
    if s.last().address == addr {
        assert(i == s.len() - 1) by {
            if i < s.len() - 1 {
                assert(s[i].address != s[s.len() - 1].address);
            }
        }
    } else {
        lemma_member_idx_of(s.drop_last(), addr, i);
    }
}

/// `vote_idx` returns -1 exactly when no record matches, and otherwise a
/// valid index whose record matches.
pub proof fn lemma_vote_idx_props(s: Seq<VoteRecord>, pid: u64, voter: Address)
    ensures
        vote_idx(s, pid, voter) == -1 ==> forall|i: int|
            0 <= i < s.len() ==> !(s[i].proposal_id == pid && s[i].voter == voter),
        vote_idx(s, pid, voter) != -1 ==> 0 <= vote_idx(s, pid, voter) < s.len()
            && s[vote_idx(s, pid, voter)].proposal_id == pid
            && s[vote_idx(s, pid, voter)].voter == voter,
    decreases s.len(),
{
    if s.len() > 0 && !(s.last().proposal_id == pid && s.last().voter == voter) {
        lemma_vote_idx_props(s.drop_last(), pid, voter);
        if vote_idx(s, pid, voter) == -1 {
            assert forall|i: int| 0 <= i < s.len()
                implies !(s[i].proposal_id == pid && s[i].voter == voter) by {
                if i < s.len() - 1 {
                    assert(s.drop_last()[i] == s[i]);
                }
            }
        }
    }
}

/// With distinct keys, any matching index is the one `vote_idx` names.
pub proof fn lemma_vote_idx_of(s: Seq<VoteRecord>, pid: u64, voter: Address, i: int)
    requires
        votes_distinct(s),
        0 <= i < s.len(),
        s[i].proposal_id == pid,
        s[i].voter == voter,
    ensures
        vote_idx(s, pid, voter) == i,
    decreases s.len(),
{
    if s.last().proposal_id == pid && s.last().voter == voter {
        assert(i == s.len() - 1) by {
            if i < s.len() - 1 {
                assert(!(s[i].proposal_id == s[s.len() - 1].proposal_id
                    && s[i].voter == s[s.len() - 1].voter));
            }
        }
    } else {
        lemma_vote_idx_of(s.drop_last(), pid, voter, i);
    }
}

/// Appending a member adds its power to both sums (to the active sum only
/// when it is active).
pub proof fn lemma_power_sum_push(s: Seq<Member>, m: Member)
    ensures
        power_sum(s.push(m)) == power_sum(s) + m.voting_power,
        active_power_sum(s.push(m)) == active_power_sum(s) + if m.is_active {
            m.voting_power as int
        } else {
            0
        },
{
    assert(s.push(m).drop_last() =~= s);
}

/// Overwriting one member record shifts both sums by that record's
/// contribution delta.
pub proof fn lemma_power_sum_update(s: Seq<Member>, i: int, m: Member)
    requires
        0 <= i < s.len(),
    ensures
        power_sum(s.update(i, m)) == power_sum(s) - s[i].voting_power + m.voting_power,
        active_power_sum(s.update(i, m)) == active_power_sum(s)
            - (if s[i].is_active { s[i].voting_power as int } else { 0 })
            + (if m.is_active { m.voting_power as int } else { 0 }),
    decreases s.len(),
{
    if i == s.len() - 1 {
        assert(s.update(i, m).drop_last() =~= s.drop_last());
    } else {
        assert(s.update(i, m).drop_last() =~= s.drop_last().update(i, m));
        lemma_power_sum_update(s.drop_last(), i, m);
    }
}

/// Every member's power is bounded by the total power sum.
pub proof fn lemma_power_sum_bounds(s: Seq<Member>, i: int)
    requires
        0 <= i < s.len(),
    ensures
        power_sum(s) >= s[i].voting_power,
        power_sum(s) >= 0,
    decreases s.len(),
{
    lemma_power_sum_nonneg(s.drop_last());
    if i < s.len() - 1 {
        lemma_power_sum_bounds(s.drop_last(), i);
    }
}

/// The power sum is never negative.
pub proof fn lemma_power_sum_nonneg(s: Seq<Member>)
    ensures
        power_sum(s) >= 0,
    decreases s.len(),
{
    if s.len() > 0 {
        lemma_power_sum_nonneg(s.drop_last());
    }
}

/// Overwriting a member record without changing its address keeps the
/// registry free of duplicate addresses.
pub proof fn lemma_distinct_update_same_addr(s: Seq<Member>, i: int, m: Member)
    requires
        members_distinct(s),
        0 <= i < s.len(),
        m.address == s[i].address,
    ensures
        members_distinct(s.update(i, m)),
{
    let t = s.update(i, m);
    assert forall|a: int, b: int| 0 <= a < b < t.len()
        implies t[a].address != t[b].address by {
        assert(s[a].address != s[b].address);
    }
}

/// Appending a member whose address is absent keeps the registry free of
/// duplicate addresses.
pub proof fn lemma_distinct_push_fresh(s: Seq<Member>, m: Member)
    requires
        members_distinct(s),
        forall|i: int| 0 <= i < s.len() ==> s[i].address != m.address,
    ensures
        members_distinct(s.push(m)),
{
    let t = s.push(m);
    assert forall|a: int, b: int| 0 <= a < b < t.len()
        implies t[a].address != t[b].address by {
        if b < s.len() {
            assert(s[a].address != s[b].address);
        } else {
            assert(s[a].address != m.address);
        }
    }
}

/// Appending a vote under a key the ledger does not hold keeps the keys
/// distinct.
pub proof fn lemma_votes_distinct_push_fresh(s: Seq<VoteRecord>, r: VoteRecord)
    requires
        votes_distinct(s),
        forall|i: int| 0 <= i < s.len()
            ==> !((#[trigger] s[i]).proposal_id == r.proposal_id && s[i].voter == r.voter),
    ensures
        votes_distinct(s.push(r)),
{
    let t = s.push(r);
    assert forall|a: int, b: int| 0 <= a < b < t.len()
        implies !(t[a].proposal_id == t[b].proposal_id && t[a].voter == t[b].voter) by {
        if b < s.len() {
            assert(!(s[a].proposal_id == s[b].proposal_id && s[a].voter == s[b].voter));
        } else {
            assert(!(s[a].proposal_id == r.proposal_id && s[a].voter == r.voter));
        }
    }
}

/// Appending a vote record moves each tally by that record's weight when
/// the proposal and choice match, and leaves it unchanged otherwise.
pub proof fn lemma_tally_sum_push(s: Seq<VoteRecord>, r: VoteRecord, pid: u64, v: Vote)
    ensures
        tally_sum(s.push(r), pid, v) == tally_sum(s, pid, v)
            + if r.proposal_id == pid && r.vote == v { r.weight as int } else { 0 },
        votes_weight_sum(s.push(r), pid) == votes_weight_sum(s, pid)
            + if r.proposal_id == pid { r.weight as int } else { 0 },
{
    assert(s.push(r).drop_last() =~= s);
}

/// A proposal id that no vote record carries has all tallies at zero.
pub proof fn lemma_tally_sum_absent(s: Seq<VoteRecord>, pid: u64, v: Vote)
    requires
        forall|i: int| 0 <= i < s.len() ==> s[i].proposal_id != pid,
    ensures
        tally_sum(s, pid, v) == 0,
        votes_weight_sum(s, pid) == 0,
    decreases s.len(),
{
    if s.len() > 0 {
        assert(s.last().proposal_id != pid);
        lemma_tally_sum_absent(s.drop_last(), pid, v);
    }
}

/// The three per-choice tallies partition the total weight cast on a
/// proposal.
pub proof fn lemma_tally_sum_split(s: Seq<VoteRecord>, pid: u64)
    ensures
        tally_sum(s, pid, Vote::For) + tally_sum(s, pid, Vote::Against)
            + tally_sum(s, pid, Vote::Abstain) == votes_weight_sum(s, pid),
    decreases s.len(),
{
    if s.len() > 0 {
        lemma_tally_sum_split(s.drop_last(), pid);
    }
}

} // verus!

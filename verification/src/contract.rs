//! The governance engine itself: the five record families and every
//! public operation over them.

use vstd::prelude::*;

use crate::errors::GovError;
use crate::model::{
    active_power_sum, decide_status, member_idx, members_distinct, power_sum, tally_sum,
    tally_of, vote_idx, votes_distinct, lemma_member_idx_props, lemma_member_idx_of,
    lemma_vote_idx_of,
    lemma_vote_idx_props, lemma_power_sum_push, lemma_power_sum_update,
    lemma_power_sum_bounds, lemma_tally_sum_push,
    lemma_tally_sum_absent, lemma_distinct_update_same_addr, lemma_distinct_push_fresh,
    lemma_votes_distinct_push_fresh,
};
use crate::types::{Address, DAOSettings, Member, Proposal, ProposalStatus, Vote, VoteRecord};

verus! {

/// The governance state machine. The host owns persistence: it stages the
/// whole state in memory for the duration of one call and commits it
/// atomically afterwards, so a failed call leaves everything unchanged.
pub struct DAOGovernanceContract {
    /// The single account allowed to perform administrative actions;
    /// absent until `initialize`.
    pub admin: Option<Address>,
    /// Global configuration and aggregates; absent until `initialize`.
    pub settings: Option<DAOSettings>,
    /// The membership registry, one record per address.
    pub members: Vec<Member>,
    /// The proposal registry; the record with id `i + 1` sits at index `i`.
    pub proposals: Vec<Proposal>,
    /// The vote ledger, one record per `(proposal_id, voter)` key.
    pub votes: Vec<VoteRecord>,
}

impl DAOGovernanceContract {
    /// The admin record exists, which is exactly "initialize has run".
    pub open spec fn is_initialized(self) -> bool {
        self.admin is Some
    }

    /// The stored settings (meaningful only once initialized).
    pub open spec fn stg(self) -> DAOSettings {
        self.settings->0
    }

    /// The stored admin (meaningful only once initialized).
    pub open spec fn admin_of(self) -> Address {
        self.admin->0
    }

    /// A member record for `addr` exists.
    pub open spec fn has_member(self, addr: Address) -> bool {
        member_idx(self.members@, addr) != -1
    }

    /// The member record for `addr` (meaningful only when present).
    pub open spec fn member_of(self, addr: Address) -> Member {
        self.members@[member_idx(self.members@, addr)]
    }

    /// A proposal with this id exists; ids run from 1 to the count.
    pub open spec fn has_proposal(self, pid: u64) -> bool {
        1 <= pid <= self.proposals@.len()
    }

    /// The proposal record for `pid` (meaningful only when present).
    pub open spec fn proposal_of(self, pid: u64) -> Proposal {
        self.proposals@[pid - 1]
    }

    /// A vote record for `(pid, voter)` exists.
    pub open spec fn has_vote(self, pid: u64, voter: Address) -> bool {
        vote_idx(self.votes@, pid, voter) != -1
    }

    /// The vote record for `(pid, voter)` (meaningful only when present).
    pub open spec fn vote_of(self, pid: u64, voter: Address) -> VoteRecord {
        self.votes@[vote_idx(self.votes@, pid, voter)]
    }

    /// Well-formedness: established by `new`, preserved by every operation.
    pub open spec fn wf(self) -> bool {
        &&& (self.admin is Some <==> self.settings is Some)
        &&& (self.settings is None ==> self.members@.len() == 0
            && self.proposals@.len() == 0 && self.votes@.len() == 0)
        &&& (self.settings is Some ==> {
            &&& self.stg().quorum <= 10000
            &&& self.stg().proposal_count == self.proposals@.len()
            &&& self.stg().total_voting_power >= power_sum(self.members@)
        })
        &&& members_distinct(self.members@)
        &&& votes_distinct(self.votes@)
        &&& (forall|i: int| 0 <= i < self.votes@.len()
            ==> 1 <= #[trigger] self.votes@[i].proposal_id <= self.proposals@.len())
        &&& (forall|i: int| 0 <= i < self.proposals@.len()
            ==> #[trigger] self.proposal_wf_at(i))
    }

    /// The per-proposal invariants: sequential id, executed-flag/status
    /// coherence, and tallies that equal the weight sums in the vote ledger.
    pub open spec fn proposal_wf_at(self, i: int) -> bool {
        let p = self.proposals@[i];
        &&& p.id == i + 1
        &&& (p.is_executed <==> p.status is Executed)
        &&& p.voting_ends_at >= p.creation_time
        &&& p.executable_at >= p.voting_ends_at
        &&& p.for_votes == tally_sum(self.votes@, p.id, Vote::For)
        &&& p.against_votes == tally_sum(self.votes@, p.id, Vote::Against)
        &&& p.abstain_votes == tally_sum(self.votes@, p.id, Vote::Abstain)
    }

    /// Voting-power conservation: the stored aggregate equals the sum of
    /// the active members' powers.
    pub open spec fn conserves(self) -> bool {
        self.settings is Some ==> self.stg().total_voting_power
            == active_power_sum(self.members@)
    }

    /// Deactivated members carry no voting power.
    pub open spec fn tidy(self) -> bool {
        forall|i: int| 0 <= i < self.members@.len()
            ==> (!(#[trigger] self.members@[i]).is_active ==> self.members@[i].voting_power == 0)
    }

    /// The empty, uninitialized state the host starts from.
    pub fn new() -> (r: Self)
        ensures
            r.wf(),
            !r.is_initialized(),
            r.conserves(),
            r.tidy(),
            r.members@.len() == 0,
            r.proposals@.len() == 0,
            r.votes@.len() == 0,
    {
        DAOGovernanceContract {
            admin: None,
            settings: None,
            members: Vec::new(),
            proposals: Vec::new(),
            votes: Vec::new(),
        }
    }

    /// Creates the admin authority and the settings singleton, with all
    /// aggregates at zero. Callable successfully exactly once; the host
    /// must have authenticated the caller as `admin`.
    pub fn initialize(
        &mut self,
        admin: Address,
        proposal_threshold: u64,
        quorum: u64,
        voting_period: u64,
        execution_delay: u64,
    ) -> (r: Result<(), GovError>)
        requires
            old(self).wf(),
        ensures
            final(self).wf(),
            r is Ok <==> !old(self).is_initialized() && quorum <= 10000,
            r == Err::<(), GovError>(GovError::AlreadyInitialized)
                <==> old(self).is_initialized(),
            r == Err::<(), GovError>(GovError::InvalidQuorum)
                <==> !old(self).is_initialized() && quorum > 10000,
            r is Err ==> *final(self) == *old(self),
            r is Ok ==> {
                &&& final(self).admin == Some(admin)
                &&& final(self).settings == Some(DAOSettings {
                    proposal_threshold,
                    quorum,
                    voting_period,
                    execution_delay,
                    total_voting_power: 0,
                    member_count: 0,
                    proposal_count: 0,
                })
                &&& final(self).members@.len() == 0
                &&& final(self).proposals@.len() == 0
                &&& final(self).votes@.len() == 0
                &&& final(self).is_initialized()
                &&& final(self).conserves()
                &&& final(self).tidy()
            },
            old(self).conserves() ==> final(self).conserves(),
            old(self).tidy() ==> final(self).tidy(),
    {
        if self.admin.is_some() {
            return Err(GovError::AlreadyInitialized);
        }
        if quorum > 10000 {
            return Err(GovError::InvalidQuorum);
        }
        self.admin = Some(admin);
        self.settings = Some(DAOSettings {
            proposal_threshold,
            quorum,
            voting_period,
            execution_delay,
            total_voting_power: 0,
            member_count: 0,
            proposal_count: 0,
        });
        Ok(())
    }

    /// Admin-only. Creates (or overwrites) the member record for
    /// `new_member` with the current timestamp as join time, marks it
    /// active, and adds `voting_power` to the aggregates. Re-adding an
    /// existing address overwrites the record and still counts into both
    /// aggregates; conservation is only promised for fresh addresses.
    pub fn add_member(
        &mut self,
        caller: Address,
        new_member: Address,
        voting_power: u64,
        now: u64,
    ) -> (r: Result<(), GovError>)
        requires
            old(self).wf(),
            old(self).is_initialized(),
            old(self).stg().total_voting_power + voting_power <= u64::MAX,
            old(self).stg().member_count + 1 <= u64::MAX,
        ensures
            final(self).wf(),
            final(self).is_initialized(),
            r is Ok <==> caller == old(self).admin_of(),
            r is Err ==> r == Err::<(), GovError>(GovError::Unauthorized)
                && *final(self) == *old(self),
            r is Ok ==> ({
                let m = (Member {
                    address: new_member,
                    joining_time: now,
                    voting_power,
                    is_active: true,
                });
                &&& (if old(self).has_member(new_member) {
                    final(self).members@ == old(self).members@.update(
                        member_idx(old(self).members@, new_member),
                        m,
                    )
                } else {
                    final(self).members@ == old(self).members@.push(m)
                })
                &&& final(self).has_member(new_member)
                &&& final(self).member_of(new_member) == m
                &&& final(self).settings == Some(DAOSettings {
                    total_voting_power: (old(self).stg().total_voting_power
                        + voting_power) as u64,
                    member_count: (old(self).stg().member_count + 1) as u64,
                    ..old(self).stg()
                })
                &&& final(self).admin == old(self).admin
                &&& final(self).proposals@ == old(self).proposals@
                &&& final(self).votes@ == old(self).votes@
            }),
            r is Ok && old(self).conserves() && old(self).tidy()
                && !old(self).has_member(new_member)
                ==> final(self).conserves() && final(self).tidy(),
    {
        let admin = self.admin.unwrap();
        if caller != admin {
            return Err(GovError::Unauthorized);
        }
        let member = Member {
            address: new_member,
            joining_time: now,
            voting_power,
            is_active: true,
        };
        let mut settings = self.settings.unwrap();
        settings.total_voting_power = settings.total_voting_power + voting_power;
        settings.member_count = settings.member_count + 1;
        proof {
            lemma_member_idx_props(self.members@, new_member);
        }
        match find_member(&self.members, new_member) {
            Some(i) => {
                proof {
                    lemma_power_sum_update(self.members@, i as int, member);
                }
                self.members[i] = member;
                proof {
                    lemma_distinct_update_same_addr(old(self).members@, i as int, member);
                    lemma_member_idx_of(self.members@, new_member, i as int);
                }
            },
            None => {
                proof {
                    lemma_power_sum_push(self.members@, member);
                }
                self.members.push(member);
                proof {
                    lemma_distinct_push_fresh(old(self).members@, member);
                    lemma_member_idx_of(
                        self.members@,
                        new_member,
                        self.members@.len() - 1,
                    );
                }
            },
        }
        self.settings = Some(settings);
        proof {
            assert forall|j: int| 0 <= j < self.proposals@.len()
                implies self.proposal_wf_at(j) by {
                assert(old(self).proposal_wf_at(j));
            }
        }
        Ok(())
    }

    /// Admin-only. Overwrites the member's voting power and shifts
    /// `total_voting_power` by the delta `new_voting_power - old power`.
    /// Conservation is promised when the member is active (or the new
    /// power is zero); adjusting an inactive member's power moves the
    /// aggregate without moving the active sum.
    pub fn update_voting_power(
        &mut self,
        caller: Address,
        member_addr: Address,
        new_voting_power: u64,
    ) -> (r: Result<(), GovError>)
        requires
            old(self).wf(),
            old(self).is_initialized(),
            old(self).has_member(member_addr)
                ==> old(self).stg().total_voting_power
                    - old(self).member_of(member_addr).voting_power
                    + new_voting_power <= u64::MAX,
        ensures
            final(self).wf(),
            final(self).is_initialized(),
            r is Ok <==> caller == old(self).admin_of() && old(self).has_member(member_addr),
            r == Err::<(), GovError>(GovError::Unauthorized)
                <==> caller != old(self).admin_of(),
            r == Err::<(), GovError>(GovError::MemberNotFound)
                <==> caller == old(self).admin_of() && !old(self).has_member(member_addr),
            r is Err ==> *final(self) == *old(self),
            r is Ok ==> ({
                let i = member_idx(old(self).members@, member_addr);
                let m = (Member {
                    voting_power: new_voting_power,
                    ..old(self).members@[i]
                });
                &&& final(self).members@ == old(self).members@.update(i, m)
                &&& final(self).member_of(member_addr) == m
                &&& final(self).settings == Some(DAOSettings {
                    total_voting_power: (old(self).stg().total_voting_power
                        - old(self).members@[i].voting_power + new_voting_power) as u64,
                    ..old(self).stg()
                })
                &&& final(self).admin == old(self).admin
                &&& final(self).proposals@ == old(self).proposals@
                &&& final(self).votes@ == old(self).votes@
            }),
            r is Ok && old(self).conserves() && old(self).tidy()
                && (old(self).member_of(member_addr).is_active || new_voting_power == 0)
                ==> final(self).conserves() && final(self).tidy(),
    {
        let admin = self.admin.unwrap();
        if caller != admin {
            return Err(GovError::Unauthorized);
        }
        proof {
            lemma_member_idx_props(self.members@, member_addr);
        }
        let i = match find_member(&self.members, member_addr) {
            Some(i) => i,
            None => {
                return Err(GovError::MemberNotFound);
            },
        };
        let mut member = self.members[i];
        let mut settings = self.settings.unwrap();
        proof {
            lemma_power_sum_bounds(self.members@, i as int);
        }
        settings.total_voting_power =
            settings.total_voting_power - member.voting_power + new_voting_power;
        member.voting_power = new_voting_power;
        proof {
            lemma_power_sum_update(self.members@, i as int, member);
        }
        self.members[i] = member;
        self.settings = Some(settings);
        proof {
            lemma_distinct_update_same_addr(old(self).members@, i as int, member);
            lemma_member_idx_of(self.members@, member_addr, i as int);
        }
        proof {
            assert forall|j: int| 0 <= j < self.proposals@.len()
                implies self.proposal_wf_at(j) by {
                assert(old(self).proposal_wf_at(j));
            }
        }
        Ok(())
    }

    /// Admin-only. Subtracts the member's current power from
    /// `total_voting_power`, clears the active flag and zeroes the power;
    /// the record itself and `member_count` are kept.
    pub fn deactivate_member(
        &mut self,
        caller: Address,
        member_addr: Address,
    ) -> (r: Result<(), GovError>)
        requires
            old(self).wf(),
            old(self).is_initialized(),
        ensures
            final(self).wf(),
            final(self).is_initialized(),
            r is Ok <==> caller == old(self).admin_of() && old(self).has_member(member_addr),
            r == Err::<(), GovError>(GovError::Unauthorized)
                <==> caller != old(self).admin_of(),
            r == Err::<(), GovError>(GovError::MemberNotFound)
                <==> caller == old(self).admin_of() && !old(self).has_member(member_addr),
            r is Err ==> *final(self) == *old(self),
            r is Ok ==> ({
                let i = member_idx(old(self).members@, member_addr);
                let m = (Member {
                    voting_power: 0,
                    is_active: false,
                    ..old(self).members@[i]
                });
                &&& final(self).members@ == old(self).members@.update(i, m)
                &&& final(self).member_of(member_addr) == m
                &&& final(self).settings == Some(DAOSettings {
                    total_voting_power: (old(self).stg().total_voting_power
                        - old(self).members@[i].voting_power) as u64,
                    ..old(self).stg()
                })
                &&& final(self).admin == old(self).admin
                &&& final(self).proposals@ == old(self).proposals@
                &&& final(self).votes@ == old(self).votes@
            }),
            r is Ok && old(self).conserves() && old(self).tidy()
                ==> final(self).conserves() && final(self).tidy(),
    {
        let admin = self.admin.unwrap();
        if caller != admin {
            return Err(GovError::Unauthorized);
        }
        proof {
            lemma_member_idx_props(self.members@, member_addr);
        }
        let i = match find_member(&self.members, member_addr) {
            Some(i) => i,
            None => {
                return Err(GovError::MemberNotFound);
            },
        };
        let mut member = self.members[i];
        let mut settings = self.settings.unwrap();
        proof {
            lemma_power_sum_bounds(self.members@, i as int);
        }
        settings.total_voting_power = settings.total_voting_power - member.voting_power;
        member.is_active = false;
        member.voting_power = 0;
        proof {
            lemma_power_sum_update(self.members@, i as int, member);
        }
        self.members[i] = member;
        self.settings = Some(settings);
        proof {
            lemma_distinct_update_same_addr(old(self).members@, i as int, member);
            lemma_member_idx_of(self.members@, member_addr, i as int);
        }
        proof {
            assert forall|j: int| 0 <= j < self.proposals@.len()
                implies self.proposal_wf_at(j) by {
                assert(old(self).proposal_wf_at(j));
            }
        }
        Ok(())
    }

    /// Creates a proposal. The host must have authenticated the caller as
    /// `proposer`, who must be an active member with voting power at least
    /// `proposal_threshold`. The new id is `proposal_count + 1`; voting
    /// ends at `now + voting_period` and execution opens at
    /// `voting_ends_at + execution_delay`, both computed here and copied
    /// by value so that later settings changes never touch proposals
    /// already in flight.
    pub fn create_proposal(
        &mut self,
        proposer: Address,
        title: String,
        description: String,
        now: u64,
    ) -> (r: Result<u64, GovError>)
        requires
            old(self).wf(),
            old(self).is_initialized(),
            now + old(self).stg().voting_period + old(self).stg().execution_delay
                <= u64::MAX,
            old(self).stg().proposal_count + 1 <= u64::MAX,
        ensures
            final(self).wf(),
            final(self).is_initialized(),
            r is Ok <==> old(self).has_member(proposer)
                && old(self).member_of(proposer).is_active
                && old(self).member_of(proposer).voting_power
                    >= old(self).stg().proposal_threshold,
            r == Err::<u64, GovError>(GovError::NotAMember)
                <==> !old(self).has_member(proposer),
            r == Err::<u64, GovError>(GovError::MemberInactive)
                <==> old(self).has_member(proposer)
                    && !old(self).member_of(proposer).is_active,
            r == Err::<u64, GovError>(GovError::InsufficientVotingPower)
                <==> old(self).has_member(proposer)
                    && old(self).member_of(proposer).is_active
                    && old(self).member_of(proposer).voting_power
                        < old(self).stg().proposal_threshold,
            r is Err ==> *final(self) == *old(self),
            r is Ok ==> ({
                let id = (old(self).stg().proposal_count + 1) as u64;
                let p = (Proposal {
                    id,
                    title,
                    description,
                    proposer,
                    creation_time: now,
                    voting_ends_at: (now + old(self).stg().voting_period) as u64,
                    executable_at: (now + old(self).stg().voting_period
                        + old(self).stg().execution_delay) as u64,
                    status: ProposalStatus::Active,
                    for_votes: 0,
                    against_votes: 0,
                    abstain_votes: 0,
                    is_executed: false,
                    execution_time: 0,
                });
                &&& r == Ok::<u64, GovError>(id)
                &&& final(self).proposals@ == old(self).proposals@.push(p)
                &&& final(self).has_proposal(id)
                &&& final(self).proposal_of(id) == p
                &&& final(self).settings == Some(DAOSettings {
                    proposal_count: id,
                    ..old(self).stg()
                })
                &&& final(self).admin == old(self).admin
                &&& final(self).members@ == old(self).members@
                &&& final(self).votes@ == old(self).votes@
            }),
            old(self).conserves() ==> final(self).conserves(),
            old(self).tidy() ==> final(self).tidy(),
    {
        proof {
            lemma_member_idx_props(self.members@, proposer);
        }
        let member = match find_member(&self.members, proposer) {
            Some(i) => self.members[i],
            None => {
                return Err(GovError::NotAMember);
            },
        };
        if !member.is_active {
            return Err(GovError::MemberInactive);
        }
        let mut settings = self.settings.unwrap();
        if member.voting_power < settings.proposal_threshold {
            return Err(GovError::InsufficientVotingPower);
        }
        let proposal_id = settings.proposal_count + 1;
        let proposal = Proposal {
            id: proposal_id,
            title,
            description,
            proposer,
            creation_time: now,
            voting_ends_at: now + settings.voting_period,
            executable_at: now + settings.voting_period + settings.execution_delay,
            status: ProposalStatus::Active,
            for_votes: 0,
            against_votes: 0,
            abstain_votes: 0,
            is_executed: false,
            execution_time: 0,
        };
        settings.proposal_count = proposal_id;
        self.proposals.push(proposal);
        self.settings = Some(settings);
        proof {
            assert forall|i: int| 0 <= i < self.votes@.len()
                implies #[trigger] self.votes@[i].proposal_id != proposal_id by {
                assert(1 <= self.votes@[i].proposal_id <= old(self).proposals@.len());
            }
            lemma_tally_sum_absent(self.votes@, proposal_id, Vote::For);
            lemma_tally_sum_absent(self.votes@, proposal_id, Vote::Against);
            lemma_tally_sum_absent(self.votes@, proposal_id, Vote::Abstain);
            assert forall|j: int| 0 <= j < self.proposals@.len()
                implies self.proposal_wf_at(j) by {
                if j < old(self).proposals@.len() {
                    assert(old(self).proposal_wf_at(j));
                }
            }
        }
        Ok(proposal_id)
    }

    /// Casts a weighted vote. The host must have authenticated the caller
    /// as `voter`, who must be an active member; the proposal must exist,
    /// still be `Active`, and its voting window must not have closed. The
    /// vote record is created at most once per `(proposal, voter)` key and
    /// carries the voter's power at cast time, which is added to the
    /// matching tally; later power changes never adjust cast votes.
    pub fn cast_vote(
        &mut self,
        voter: Address,
        proposal_id: u64,
        vote: Vote,
        now: u64,
    ) -> (r: Result<(), GovError>)
        requires
            old(self).wf(),
            old(self).has_member(voter) && old(self).has_proposal(proposal_id)
                ==> tally_of(old(self).proposal_of(proposal_id), vote)
                    + old(self).member_of(voter).voting_power <= u64::MAX,
        ensures
            final(self).wf(),
            r is Ok <==> old(self).has_member(voter)
                && old(self).member_of(voter).is_active
                && old(self).has_proposal(proposal_id)
                && now <= old(self).proposal_of(proposal_id).voting_ends_at
                && old(self).proposal_of(proposal_id).status is Active
                && !old(self).has_vote(proposal_id, voter),
            r == Err::<(), GovError>(GovError::NotAMember)
                <==> !old(self).has_member(voter),
            r == Err::<(), GovError>(GovError::MemberInactive)
                <==> old(self).has_member(voter)
                    && !old(self).member_of(voter).is_active,
            r == Err::<(), GovError>(GovError::ProposalNotFound)
                <==> old(self).has_member(voter)
                    && old(self).member_of(voter).is_active
                    && !old(self).has_proposal(proposal_id),
            r == Err::<(), GovError>(GovError::VotingPeriodEnded)
                <==> old(self).has_member(voter)
                    && old(self).member_of(voter).is_active
                    && old(self).has_proposal(proposal_id)
                    && now > old(self).proposal_of(proposal_id).voting_ends_at,
            r == Err::<(), GovError>(GovError::ProposalNotActive)
                <==> old(self).has_member(voter)
                    && old(self).member_of(voter).is_active
                    && old(self).has_proposal(proposal_id)
                    && now <= old(self).proposal_of(proposal_id).voting_ends_at
                    && !(old(self).proposal_of(proposal_id).status is Active),
            r == Err::<(), GovError>(GovError::AlreadyVoted)
                <==> old(self).has_member(voter)
                    && old(self).member_of(voter).is_active
                    && old(self).has_proposal(proposal_id)
                    && now <= old(self).proposal_of(proposal_id).voting_ends_at
                    && old(self).proposal_of(proposal_id).status is Active
                    && old(self).has_vote(proposal_id, voter),
            r is Err ==> *final(self) == *old(self),
            r is Ok ==> ({
                let w = old(self).member_of(voter).voting_power;
                let rec = (VoteRecord { proposal_id, voter, vote, weight: w });
                let p = old(self).proposal_of(proposal_id);
                let p2 = (match vote {
                    Vote::For => Proposal { for_votes: (p.for_votes + w) as u64, ..p },
                    Vote::Against => Proposal {
                        against_votes: (p.against_votes + w) as u64,
                        ..p
                    },
                    Vote::Abstain => Proposal {
                        abstain_votes: (p.abstain_votes + w) as u64,
                        ..p
                    },
                });
                &&& final(self).votes@ == old(self).votes@.push(rec)
                &&& final(self).has_vote(proposal_id, voter)
                &&& final(self).vote_of(proposal_id, voter) == rec
                &&& final(self).proposals@ == old(self).proposals@.update(
                    proposal_id - 1,
                    p2,
                )
                &&& final(self).members@ == old(self).members@
                &&& final(self).settings == old(self).settings
                &&& final(self).admin == old(self).admin
            }),
            old(self).conserves() ==> final(self).conserves(),
            old(self).tidy() ==> final(self).tidy(),
    {
        proof {
            lemma_member_idx_props(self.members@, voter);
        }
        let member = match find_member(&self.members, voter) {
            Some(i) => self.members[i],
            None => {
                return Err(GovError::NotAMember);
            },
        };
        if !member.is_active {
            return Err(GovError::MemberInactive);
        }
        if proposal_id < 1 || proposal_id > self.proposals.len() as u64 {
            return Err(GovError::ProposalNotFound);
        }
        let idx = (proposal_id - 1) as usize;
        if now > self.proposals[idx].voting_ends_at {
            return Err(GovError::VotingPeriodEnded);
        }
        match self.proposals[idx].status {
            ProposalStatus::Active => {},
            _ => {
                return Err(GovError::ProposalNotActive);
            },
        }
        proof {
            lemma_vote_idx_props(self.votes@, proposal_id, voter);
        }
        match find_vote(&self.votes, proposal_id, voter) {
            Some(_) => {
                return Err(GovError::AlreadyVoted);
            },
            None => {},
        }
        let rec = VoteRecord {
            proposal_id,
            voter,
            vote,
            weight: member.voting_power,
        };
        let mut updated = self.proposals[idx].clone();
        match vote {
            Vote::For => {
                updated.for_votes = updated.for_votes + member.voting_power;
            },
            Vote::Against => {
                updated.against_votes = updated.against_votes + member.voting_power;
            },
            Vote::Abstain => {
                updated.abstain_votes = updated.abstain_votes + member.voting_power;
            },
        }
        proof {
            lemma_votes_distinct_push_fresh(self.votes@, rec);
        }
        self.votes.push(rec);
        self.proposals[idx] = updated;
        proof {
            lemma_vote_idx_of(
                self.votes@,
                proposal_id,
                voter,
                self.votes@.len() - 1,
            );
            assert forall|j: int| 0 <= j < self.proposals@.len()
                implies self.proposal_wf_at(j) by {
                assert(old(self).proposal_wf_at(j));
                let pj = old(self).proposals@[j];
                lemma_tally_sum_push(old(self).votes@, rec, pj.id, Vote::For);
                lemma_tally_sum_push(old(self).votes@, rec, pj.id, Vote::Against);
                lemma_tally_sum_push(old(self).votes@, rec, pj.id, Vote::Abstain);
            }
        }
        Ok(())
    }

    /// Finalizes a proposal once its voting window has closed; callable by
    /// anyone, since the outcome is a fact derivable from public state.
    /// Quorum is checked first — turnout below
    /// `floor(total_voting_power * quorum / 10000)` fails the proposal —
    /// then strictly more For than Against passes it and anything else
    /// fails it. The transition out of `Active` is permanent.
    pub fn finalize_proposal(&mut self, proposal_id: u64, now: u64) -> (r: Result<
        (),
        GovError,
    >)
        requires
            old(self).wf(),
        ensures
            final(self).wf(),
            r is Ok <==> old(self).has_proposal(proposal_id)
                && now > old(self).proposal_of(proposal_id).voting_ends_at
                && old(self).proposal_of(proposal_id).status is Active,
            r == Err::<(), GovError>(GovError::ProposalNotFound)
                <==> !old(self).has_proposal(proposal_id),
            r == Err::<(), GovError>(GovError::VotingPeriodNotEnded)
                <==> old(self).has_proposal(proposal_id)
                    && now <= old(self).proposal_of(proposal_id).voting_ends_at,
            r == Err::<(), GovError>(GovError::AlreadyFinalized)
                <==> old(self).has_proposal(proposal_id)
                    && now > old(self).proposal_of(proposal_id).voting_ends_at
                    && !(old(self).proposal_of(proposal_id).status is Active),
            r is Err ==> *final(self) == *old(self),
            r is Ok ==> ({
                let p = old(self).proposal_of(proposal_id);
                let st = decide_status(
                    old(self).stg().total_voting_power,
                    old(self).stg().quorum,
                    p.for_votes,
                    p.against_votes,
                    p.abstain_votes,
                );
                &&& final(self).proposals@ == old(self).proposals@.update(
                    proposal_id - 1,
                    (Proposal { status: st, ..p }),
                )
                &&& final(self).proposal_of(proposal_id).status == st
                &&& final(self).members@ == old(self).members@
                &&& final(self).votes@ == old(self).votes@
                &&& final(self).settings == old(self).settings
                &&& final(self).admin == old(self).admin
            }),
            old(self).conserves() ==> final(self).conserves(),
            old(self).tidy() ==> final(self).tidy(),
    {
        if proposal_id < 1 || proposal_id > self.proposals.len() as u64 {
            return Err(GovError::ProposalNotFound);
        }
        let idx = (proposal_id - 1) as usize;
        if now <= self.proposals[idx].voting_ends_at {
            return Err(GovError::VotingPeriodNotEnded);
        }
        match self.proposals[idx].status {
            ProposalStatus::Active => {},
            _ => {
                return Err(GovError::AlreadyFinalized);
            },
        }
        let settings = self.settings.unwrap();
        let total_votes: u128 = self.proposals[idx].for_votes as u128
            + self.proposals[idx].against_votes as u128
            + self.proposals[idx].abstain_votes as u128;
        proof {
            assert(settings.total_voting_power as int * settings.quorum as int
                <= u64::MAX as int * 10000) by (nonlinear_arith)
                requires
                    settings.quorum <= 10000,
                    settings.total_voting_power <= u64::MAX,
            ;
        }
        let quorum_threshold: u128 = (settings.total_voting_power as u128)
            * (settings.quorum as u128) / 10000;
        let status = if total_votes < quorum_threshold {
            ProposalStatus::Failed
        } else if self.proposals[idx].for_votes > self.proposals[idx].against_votes {
            ProposalStatus::Passed
        } else {
            ProposalStatus::Failed
        };
        let mut updated = self.proposals[idx].clone();
        updated.status = status;
        self.proposals[idx] = updated;
        proof {
            assert forall|j: int| 0 <= j < self.proposals@.len()
                implies self.proposal_wf_at(j) by {
                assert(old(self).proposal_wf_at(j));
            }
        }
        Ok(())
    }

    /// Marks a passed proposal as executed once the mandatory delay after
    /// the voting window has elapsed; callable by anyone. The deadline is
    /// the proposal's own `executable_at`, baked in at creation, so a
    /// settings change after creation never moves it. The engine records
    /// only the authorization to proceed — the executed flag and time —
    /// and performs no payload side effect. Succeeds at most once: the
    /// status leaves `Passed` permanently.
    pub fn execute_proposal(&mut self, proposal_id: u64, now: u64) -> (r: Result<
        (),
        GovError,
    >)
        requires
            old(self).wf(),
        ensures
            final(self).wf(),
            r is Ok <==> old(self).has_proposal(proposal_id)
                && old(self).proposal_of(proposal_id).status is Passed
                && !old(self).proposal_of(proposal_id).is_executed
                && now >= old(self).proposal_of(proposal_id).executable_at,
            r == Err::<(), GovError>(GovError::ProposalNotFound)
                <==> !old(self).has_proposal(proposal_id),
            r == Err::<(), GovError>(GovError::NotPassed)
                <==> old(self).has_proposal(proposal_id)
                    && !(old(self).proposal_of(proposal_id).status is Passed),
            r == Err::<(), GovError>(GovError::AlreadyExecuted)
                <==> old(self).has_proposal(proposal_id)
                    && old(self).proposal_of(proposal_id).status is Passed
                    && old(self).proposal_of(proposal_id).is_executed,
            r == Err::<(), GovError>(GovError::ExecutionDelayNotElapsed)
                <==> old(self).has_proposal(proposal_id)
                    && old(self).proposal_of(proposal_id).status is Passed
                    && !old(self).proposal_of(proposal_id).is_executed
                    && now < old(self).proposal_of(proposal_id).executable_at,
            r is Err ==> *final(self) == *old(self),
            r is Ok ==> ({
                let p = old(self).proposal_of(proposal_id);
                &&& final(self).proposals@ == old(self).proposals@.update(
                    proposal_id - 1,
                    (Proposal {
                        status: ProposalStatus::Executed,
                        is_executed: true,
                        execution_time: now,
                        ..p
                    }),
                )
                &&& final(self).proposal_of(proposal_id).status is Executed
                &&& final(self).proposal_of(proposal_id).is_executed
                &&& final(self).members@ == old(self).members@
                &&& final(self).votes@ == old(self).votes@
                &&& final(self).settings == old(self).settings
                &&& final(self).admin == old(self).admin
            }),
            old(self).conserves() ==> final(self).conserves(),
            old(self).tidy() ==> final(self).tidy(),
    {
        if proposal_id < 1 || proposal_id > self.proposals.len() as u64 {
            return Err(GovError::ProposalNotFound);
        }
        let idx = (proposal_id - 1) as usize;
        match self.proposals[idx].status {
            ProposalStatus::Passed => {},
            _ => {
                return Err(GovError::NotPassed);
            },
        }
        if self.proposals[idx].is_executed {
            return Err(GovError::AlreadyExecuted);
        }
        if now < self.proposals[idx].executable_at {
            return Err(GovError::ExecutionDelayNotElapsed);
        }
        let mut updated = self.proposals[idx].clone();
        updated.is_executed = true;
        updated.execution_time = now;
        updated.status = ProposalStatus::Executed;
        self.proposals[idx] = updated;
        proof {
            assert forall|j: int| 0 <= j < self.proposals@.len()
                implies self.proposal_wf_at(j) by {
                assert(old(self).proposal_wf_at(j));
            }
        }
        Ok(())
    }

    /// Admin-only. Overwrites the four configuration fields, with the same
    /// quorum validation as initialization; the running aggregates are not
    /// touched. Proposals already in flight keep the timestamps computed
    /// at their creation.
    pub fn update_dao_settings(
        &mut self,
        caller: Address,
        proposal_threshold: u64,
        quorum: u64,
        voting_period: u64,
        execution_delay: u64,
    ) -> (r: Result<(), GovError>)
        requires
            old(self).wf(),
            old(self).is_initialized(),
        ensures
            final(self).wf(),
            final(self).is_initialized(),
            r is Ok <==> caller == old(self).admin_of() && quorum <= 10000,
            r == Err::<(), GovError>(GovError::Unauthorized)
                <==> caller != old(self).admin_of(),
            r == Err::<(), GovError>(GovError::InvalidQuorum)
                <==> caller == old(self).admin_of() && quorum > 10000,
            r is Err ==> *final(self) == *old(self),
            r is Ok ==> ({
                &&& final(self).settings == Some(DAOSettings {
                    proposal_threshold,
                    quorum,
                    voting_period,
                    execution_delay,
                    ..old(self).stg()
                })
                &&& final(self).admin == old(self).admin
                &&& final(self).members@ == old(self).members@
                &&& final(self).proposals@ == old(self).proposals@
                &&& final(self).votes@ == old(self).votes@
            }),
            old(self).conserves() ==> final(self).conserves(),
            old(self).tidy() ==> final(self).tidy(),
    {
        let admin = self.admin.unwrap();
        if caller != admin {
            return Err(GovError::Unauthorized);
        }
        if quorum > 10000 {
            return Err(GovError::InvalidQuorum);
        }
        let mut settings = self.settings.unwrap();
        settings.proposal_threshold = proposal_threshold;
        settings.quorum = quorum;
        settings.voting_period = voting_period;
        settings.execution_delay = execution_delay;
        self.settings = Some(settings);
        proof {
            assert forall|j: int| 0 <= j < self.proposals@.len()
                implies self.proposal_wf_at(j) by {
                assert(old(self).proposal_wf_at(j));
            }
        }
        Ok(())
    }

    /// Transfers the admin authority to `new_admin`, immediately and
    /// without confirmation; only the current admin may call this.
    pub fn transfer_admin(&mut self, caller: Address, new_admin: Address) -> (r: Result<
        (),
        GovError,
    >)
        requires
            old(self).wf(),
            old(self).is_initialized(),
        ensures
            final(self).wf(),
            final(self).is_initialized(),
            r is Ok <==> caller == old(self).admin_of(),
            r is Err ==> r == Err::<(), GovError>(GovError::Unauthorized)
                && *final(self) == *old(self),
            r is Ok ==> ({
                &&& final(self).admin == Some(new_admin)
                &&& final(self).settings == old(self).settings
                &&& final(self).members@ == old(self).members@
                &&& final(self).proposals@ == old(self).proposals@
                &&& final(self).votes@ == old(self).votes@
            }),
            old(self).conserves() ==> final(self).conserves(),
            old(self).tidy() ==> final(self).tidy(),
    {
        let admin = self.admin.unwrap();
        if caller != admin {
            return Err(GovError::Unauthorized);
        }
        self.admin = Some(new_admin);
        proof {
            assert forall|j: int| 0 <= j < self.proposals@.len()
                implies self.proposal_wf_at(j) by {
                assert(old(self).proposal_wf_at(j));
            }
        }
        Ok(())
    }

    /// Returns a copy of the proposal record for `proposal_id`.
    pub fn get_proposal(&self, proposal_id: u64) -> (r: Result<Proposal, GovError>)
        ensures
            r is Ok <==> self.has_proposal(proposal_id),
            r is Err ==> r == Err::<Proposal, GovError>(GovError::ProposalNotFound),
            r matches Ok(p) ==> p == self.proposal_of(proposal_id),
    {
        if proposal_id < 1 || proposal_id > self.proposals.len() as u64 {
            return Err(GovError::ProposalNotFound);
        }
        let idx = (proposal_id - 1) as usize;
        Ok(self.proposals[idx].clone())
    }

    /// Returns the member record for `member_addr`.
    pub fn get_member(&self, member_addr: Address) -> (r: Result<Member, GovError>)
        ensures
            r is Ok <==> self.has_member(member_addr),
            r is Err ==> r == Err::<Member, GovError>(GovError::MemberNotFound),
            r matches Ok(m) ==> m == self.member_of(member_addr),
    {
        match find_member(&self.members, member_addr) {
            Some(i) => Ok(self.members[i]),
            None => Err(GovError::MemberNotFound),
        }
    }

    /// Returns the current settings; meaningful only once initialized.
    pub fn get_dao_settings(&self) -> (r: DAOSettings)
        requires
            self.is_initialized(),
            self.wf(),
        ensures
            r == self.stg(),
    {
        self.settings.unwrap()
    }

    /// Returns the voter's choice on a proposal, or `None` when no vote
    /// record exists — absence of a vote is a normal state, not a failure.
    pub fn get_vote(&self, proposal_id: u64, voter: Address) -> (r: Option<Vote>)
        ensures
            r is Some <==> self.has_vote(proposal_id, voter),
            r matches Some(v) ==> v == self.vote_of(proposal_id, voter).vote,
    {
        match find_vote(&self.votes, proposal_id, voter) {
            Some(i) => Some(self.votes[i].vote),
            None => None,
        }
    }
}

/// Linear scan of the membership registry for `addr`, from the end, so
/// that the index returned is the one `member_idx` names.
fn find_member(members: &Vec<Member>, addr: Address) -> (r: Option<usize>)
    ensures
        match r {
            Some(i) => i < members@.len() && i as int == member_idx(members@, addr)
                && members@[i as int].address == addr,
            None => member_idx(members@, addr) == -1,
        },
{
    proof {
        assert(members@.take(members@.len() as int) =~= members@);
    }
    let mut i: usize = members.len();
    while i > 0
        invariant
            i <= members@.len(),
            member_idx(members@, addr) == member_idx(members@.take(i as int), addr),
        decreases i,
    {
        i = i - 1;
        proof {
            assert(members@.take(i as int + 1).drop_last() =~= members@.take(i as int));
            assert(members@.take(i as int + 1).last() == members@[i as int]);
        }
        if members[i].address == addr {
            return Some(i);
        }
    }
    None
}

/// Linear scan of the vote ledger for the `(pid, voter)` key, from the
/// end, so that the index returned is the one `vote_idx` names.
fn find_vote(votes: &Vec<VoteRecord>, pid: u64, voter: Address) -> (r: Option<usize>)
    ensures
        match r {
            Some(i) => i < votes@.len() && i as int == vote_idx(votes@, pid, voter)
                && votes@[i as int].proposal_id == pid && votes@[i as int].voter == voter,
            None => vote_idx(votes@, pid, voter) == -1,
        },
{
    proof {
        assert(votes@.take(votes@.len() as int) =~= votes@);
    }
    let mut i: usize = votes.len();
    while i > 0
        invariant
            i <= votes@.len(),
            vote_idx(votes@, pid, voter) == vote_idx(votes@.take(i as int), pid, voter),
        decreases i,
    {
        i = i - 1;
        proof {
            assert(votes@.take(i as int + 1).drop_last() =~= votes@.take(i as int));
            assert(votes@.take(i as int + 1).last() == votes@[i as int]);
        }
        if votes[i].proposal_id == pid && votes[i].voter == voter {
            return Some(i);
        }
    }
    None
}

} // verus!

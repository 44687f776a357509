// The full proposal lifecycle: initialize, join, propose, vote, finalize,
// execute — including the timing boundaries.

use dao_governance::contract::DAOGovernanceContract;
use dao_governance::errors::GovError;
use dao_governance::types::{ProposalStatus, Vote};

const ADMIN: u64 = 1;
const MEMBER_A: u64 = 7;
const T0: u64 = 100;

fn dao_with_member_a() -> DAOGovernanceContract {
    let mut c = DAOGovernanceContract::new();
    c.initialize(ADMIN, 10, 3000, 1000, 500).unwrap();
    c.add_member(ADMIN, MEMBER_A, 100, T0).unwrap();
    c
}

#[test]
fn setup_and_create_proposal() {
    let mut c = dao_with_member_a();
    let s = c.get_dao_settings();
    assert_eq!(s.quorum, 3000);
    assert_eq!(s.voting_period, 1000);
    assert_eq!(s.execution_delay, 500);
    assert_eq!(s.proposal_threshold, 10);
    assert_eq!(s.total_voting_power, 100);
    assert_eq!(s.member_count, 1);

    let id = c
        .create_proposal(MEMBER_A, "t".to_string(), "d".to_string(), T0)
        .unwrap();
    assert_eq!(id, 1);
    let p = c.get_proposal(1).unwrap();
    assert_eq!(p.voting_ends_at, T0 + 1000);
    assert_eq!(p.creation_time, T0);
    assert_eq!(p.status, ProposalStatus::Active);
    assert_eq!(p.proposer, MEMBER_A);
    assert!(!p.is_executed);
    assert_eq!(c.get_dao_settings().proposal_count, 1);
}

#[test]
fn double_vote_fails_and_keeps_tallies() {
    let mut c = dao_with_member_a();
    c.create_proposal(MEMBER_A, "t".to_string(), "d".to_string(), T0)
        .unwrap();
    c.cast_vote(MEMBER_A, 1, Vote::For, T0 + 1).unwrap();
    assert_eq!(c.get_proposal(1).unwrap().for_votes, 100);
    assert_eq!(c.get_vote(1, MEMBER_A), Some(Vote::For));

    let again = c.cast_vote(MEMBER_A, 1, Vote::Against, T0 + 2);
    assert_eq!(again, Err(GovError::AlreadyVoted));
    let p = c.get_proposal(1).unwrap();
    assert_eq!(p.for_votes, 100);
    assert_eq!(p.against_votes, 0);
    assert_eq!(c.get_vote(1, MEMBER_A), Some(Vote::For));
}

#[test]
fn finalize_meets_quorum_and_passes() {
    let mut c = dao_with_member_a();
    c.create_proposal(MEMBER_A, "t".to_string(), "d".to_string(), T0)
        .unwrap();
    c.cast_vote(MEMBER_A, 1, Vote::For, T0 + 1).unwrap();
    // total_votes = 100 >= floor(100 * 3000 / 10000) = 30, For > Against.
    c.finalize_proposal(1, T0 + 1001).unwrap();
    assert_eq!(c.get_proposal(1).unwrap().status, ProposalStatus::Passed);
}

#[test]
fn execute_respects_the_delay() {
    let mut c = dao_with_member_a();
    c.create_proposal(MEMBER_A, "t".to_string(), "d".to_string(), T0)
        .unwrap();
    c.cast_vote(MEMBER_A, 1, Vote::For, T0 + 1).unwrap();
    c.finalize_proposal(1, T0 + 1001).unwrap();

    // voting_ends_at = T0 + 1000; executable from T0 + 1500 on.
    let too_early = c.execute_proposal(1, T0 + 1001 + 498);
    assert_eq!(too_early, Err(GovError::ExecutionDelayNotElapsed));
    assert_eq!(c.get_proposal(1).unwrap().status, ProposalStatus::Passed);

    c.execute_proposal(1, T0 + 1500).unwrap();
    let p = c.get_proposal(1).unwrap();
    assert!(p.is_executed);
    assert_eq!(p.status, ProposalStatus::Executed);
    assert_eq!(p.execution_time, T0 + 1500);
}

#[test]
fn execute_never_succeeds_twice() {
    let mut c = dao_with_member_a();
    c.create_proposal(MEMBER_A, "t".to_string(), "d".to_string(), T0)
        .unwrap();
    c.cast_vote(MEMBER_A, 1, Vote::For, T0 + 1).unwrap();
    c.finalize_proposal(1, T0 + 1001).unwrap();
    c.execute_proposal(1, T0 + 1500).unwrap();
    // Execution moved the status out of Passed, permanently.
    assert_eq!(c.execute_proposal(1, T0 + 1600), Err(GovError::NotPassed));
}

#[test]
fn deactivated_member_cannot_propose() {
    let mut c = dao_with_member_a();
    c.deactivate_member(ADMIN, MEMBER_A).unwrap();
    assert_eq!(c.get_dao_settings().total_voting_power, 0);
    let m = c.get_member(MEMBER_A).unwrap();
    assert!(!m.is_active);
    assert_eq!(m.voting_power, 0);
    // Deactivation clears the active flag, so the member check fails
    // before the voting-power check can.
    let r = c.create_proposal(MEMBER_A, "t".to_string(), "d".to_string(), T0 + 10);
    assert_eq!(r, Err(GovError::MemberInactive));
}

#[test]
fn vote_is_weighted_at_cast_time() {
    let mut c = dao_with_member_a();
    c.create_proposal(MEMBER_A, "t".to_string(), "d".to_string(), T0)
        .unwrap();
    c.cast_vote(MEMBER_A, 1, Vote::For, T0 + 1).unwrap();
    c.update_voting_power(ADMIN, MEMBER_A, 5).unwrap();
    // The cast tally keeps the power the voter had when voting.
    assert_eq!(c.get_proposal(1).unwrap().for_votes, 100);
}

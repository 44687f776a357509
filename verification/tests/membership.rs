// Membership management: conservation of voting power, the member-count
// semantics, and the admin gate.

use dao_governance::contract::DAOGovernanceContract;
use dao_governance::errors::GovError;

const ADMIN: u64 = 1;

fn initialized() -> DAOGovernanceContract {
    let mut c = DAOGovernanceContract::new();
    c.initialize(ADMIN, 10, 3000, 1000, 500).unwrap();
    c
}

fn active_power_sum(c: &DAOGovernanceContract) -> u64 {
    c.members
        .iter()
        .filter(|m| m.is_active)
        .map(|m| m.voting_power)
        .sum()
}

#[test]
fn total_power_tracks_active_members() {
    let mut c = initialized();
    c.add_member(ADMIN, 7, 100, 1).unwrap();
    assert_eq!(c.get_dao_settings().total_voting_power, 100);
    assert_eq!(active_power_sum(&c), 100);

    c.add_member(ADMIN, 8, 40, 2).unwrap();
    c.add_member(ADMIN, 9, 2, 3).unwrap();
    assert_eq!(c.get_dao_settings().total_voting_power, 142);
    assert_eq!(active_power_sum(&c), 142);

    c.update_voting_power(ADMIN, 8, 55).unwrap();
    assert_eq!(c.get_dao_settings().total_voting_power, 157);
    assert_eq!(active_power_sum(&c), 157);

    c.deactivate_member(ADMIN, 7).unwrap();
    assert_eq!(c.get_dao_settings().total_voting_power, 57);
    assert_eq!(active_power_sum(&c), 57);

    c.update_voting_power(ADMIN, 9, 0).unwrap();
    assert_eq!(c.get_dao_settings().total_voting_power, 55);
    assert_eq!(active_power_sum(&c), 55);
}

#[test]
fn member_count_measures_ever_joined() {
    let mut c = initialized();
    c.add_member(ADMIN, 7, 100, 1).unwrap();
    c.add_member(ADMIN, 8, 50, 2).unwrap();
    assert_eq!(c.get_dao_settings().member_count, 2);
    c.deactivate_member(ADMIN, 7).unwrap();
    // Deactivation never decrements the count.
    assert_eq!(c.get_dao_settings().member_count, 2);
}

#[test]
fn readding_a_member_double_counts() {
    // Re-adding an existing address overwrites the record but still adds
    // into both aggregates; callers are expected to deactivate first.
    let mut c = initialized();
    c.add_member(ADMIN, 7, 100, 1).unwrap();
    c.add_member(ADMIN, 7, 50, 2).unwrap();
    let s = c.get_dao_settings();
    assert_eq!(s.total_voting_power, 150);
    assert_eq!(s.member_count, 2);
    assert_eq!(c.get_member(7).unwrap().voting_power, 50);
}

#[test]
fn membership_ops_are_admin_only() {
    let mut c = initialized();
    c.add_member(ADMIN, 7, 100, 1).unwrap();
    assert_eq!(c.add_member(7, 8, 5, 2), Err(GovError::Unauthorized));
    assert_eq!(c.update_voting_power(7, 7, 5), Err(GovError::Unauthorized));
    assert_eq!(c.deactivate_member(7, 7), Err(GovError::Unauthorized));
    assert_eq!(
        c.update_dao_settings(7, 1, 1, 1, 1),
        Err(GovError::Unauthorized)
    );
    assert_eq!(c.transfer_admin(7, 7), Err(GovError::Unauthorized));
    // Nothing changed.
    assert_eq!(c.get_dao_settings().total_voting_power, 100);
    assert_eq!(c.get_dao_settings().member_count, 1);
}

#[test]
fn missing_members_are_reported() {
    let mut c = initialized();
    assert_eq!(c.update_voting_power(ADMIN, 42, 5), Err(GovError::MemberNotFound));
    assert_eq!(c.deactivate_member(ADMIN, 42), Err(GovError::MemberNotFound));
    assert_eq!(c.get_member(42), Err(GovError::MemberNotFound));
}

#[test]
fn member_record_fields() {
    let mut c = initialized();
    c.add_member(ADMIN, 7, 100, 12345).unwrap();
    let m = c.get_member(7).unwrap();
    assert_eq!(m.address, 7);
    assert_eq!(m.joining_time, 12345);
    assert_eq!(m.voting_power, 100);
    assert!(m.is_active);
}

#[test]
fn transfer_admin_moves_the_gate() {
    let mut c = initialized();
    c.transfer_admin(ADMIN, 2).unwrap();
    // The old admin lost the authority immediately.
    assert_eq!(c.add_member(ADMIN, 7, 1, 1), Err(GovError::Unauthorized));
    c.add_member(2, 7, 1, 1).unwrap();
    assert_eq!(c.get_dao_settings().member_count, 1);
}

use veripact_backend::error::GovernanceError;
use veripact_backend::identity::Identity;
use veripact_backend::state::GovernanceState;
use veripact_backend::types::{DonationRecord, ProposalStatus, Vote};

fn voted() -> Result<String, GovernanceError> {
    Ok("Vote recorded successfully".to_string())
}

fn executed() -> Result<String, GovernanceError> {
    Ok("Proposal executed successfully".to_string())
}

fn donor(byte: u8) -> Identity {
    Identity::from_slice(&[byte]).unwrap()
}

/// Two donors, one executed proposal with both votes, one active proposal
/// with one vote, one charity project.
fn busy() -> GovernanceState {
    let mut state = GovernanceState::new();
    state.donate(donor(1), 600, 1);
    state.donate(donor(2), 400, 2);
    let first = state
        .create_proposal(donor(1), "a".to_string(), "b".to_string(), donor(9), 300, 0, 3)
        .unwrap();
    let _ = state.update_governance_settings(donor(1), None, Some(100), None);
    assert_eq!(state.vote_on_proposal(donor(2), first, false, 4), voted());
    assert_eq!(state.vote_on_proposal(donor(1), first, true, 5), voted());
    assert_eq!(state.get_proposal(first).unwrap().status, ProposalStatus::Approved);
    assert_eq!(state.execute_proposal(donor(1), first, 6), executed());
    let second = state
        .create_proposal(donor(2), "c".to_string(), "d".to_string(), donor(9), 700, 0, 7)
        .unwrap();
    assert_eq!(state.vote_on_proposal(donor(2), second, true, 8), voted());
    assert_eq!(state.register_charity(donor(3), "n".to_string(), "d".to_string(), 9), Ok(0));
    state
}

#[test]
fn a_state_built_by_requests_is_well_formed() {
    let state = busy();
    assert!(state.is_well_formed());
    assert_eq!(state.get_treasury_balance(), 700);
    assert_eq!(state.total_voting_power(), 1_000);
}

#[test]
fn a_snapshot_holds_the_whole_state() {
    let state = busy();
    let snapshot = state.capture();
    assert_eq!(snapshot, state);
    assert_eq!(snapshot.donors, state.donors);
    assert_eq!(snapshot.proposals, state.proposals);
    assert_eq!(snapshot.charity_projects, state.charity_projects);
    assert_eq!(snapshot.total_donations, state.total_donations);
    assert_eq!(snapshot.next_proposal_id, 2);
    assert_eq!(snapshot.next_project_id, 1);
    assert_eq!(snapshot.governance_settings, state.governance_settings);
}

#[test]
fn installing_a_snapshot_replaces_the_whole_state() {
    let snapshot = busy().capture();
    let mut state = GovernanceState::new();
    state.donate(donor(5), 1, 0);
    assert!(snapshot.is_well_formed());
    state.install(snapshot);
    assert_eq!(state, busy());
    assert_eq!(state.get_donor(&donor(5)), None);
    // The engine goes on where the snapshot left off.
    assert_eq!(state.vote_on_proposal(donor(1), 1, true, 10), voted());
    assert_eq!(state.get_proposal(1).unwrap().status, ProposalStatus::Approved);
    assert_eq!(state.execute_proposal(donor(1), 1, 11), executed());
    assert_eq!(state.get_treasury_balance(), 0);
}

#[test]
fn voting_power_that_differs_from_donations_is_ill_formed() {
    let mut state = busy();
    state.donors[0].voting_power += 1;
    assert!(!state.is_well_formed());
}

#[test]
fn a_history_that_does_not_add_up_is_ill_formed() {
    let mut state = busy();
    state.donors[0].donation_history.push(DonationRecord { timestamp: 0, amount: 1 });
    assert!(!state.is_well_formed());
    let mut state = busy();
    state.donors[1].donation_history.clear();
    assert!(!state.is_well_formed());
}

#[test]
fn a_donor_on_record_twice_is_ill_formed() {
    let mut state = GovernanceState::new();
    state.donate(donor(1), 0, 1);
    let twin = state.donors[0].clone();
    state.donors.push(twin);
    assert!(!state.is_well_formed());
}

#[test]
fn voting_power_beyond_the_largest_number_is_ill_formed() {
    let mut state = GovernanceState::new();
    state.donate(donor(1), u64::MAX, 1);
    assert!(state.is_well_formed());
    let mut second = state.donors[0].clone();
    second.id = donor(2);
    state.donors.push(second);
    assert!(!state.is_well_formed());
}

#[test]
fn a_treasury_out_of_balance_is_ill_formed() {
    let mut state = busy();
    state.total_donations += 1;
    assert!(!state.is_well_formed());
    let mut state = busy();
    state.total_donations -= 1;
    assert!(!state.is_well_formed());
    let mut state = busy();
    state.proposals[0].amount -= 1;
    assert!(!state.is_well_formed());
}

#[test]
fn misnumbered_records_are_ill_formed() {
    let mut state = busy();
    state.next_proposal_id = 3;
    assert!(!state.is_well_formed());
    let mut state = busy();
    state.proposals[1].id = 5;
    assert!(!state.is_well_formed());
    let mut state = busy();
    state.proposals.swap(0, 1);
    assert!(!state.is_well_formed());
    let mut state = busy();
    state.next_project_id = 0;
    assert!(!state.is_well_formed());
    let mut state = busy();
    state.charity_projects[0].id = 1;
    assert!(!state.is_well_formed());
}

#[test]
fn tallies_that_differ_from_the_votes_are_ill_formed() {
    let mut state = busy();
    state.proposals[1].yes_votes += 1;
    assert!(!state.is_well_formed());
    let mut state = busy();
    state.proposals[1].no_votes = 400;
    state.proposals[1].yes_votes = 0;
    assert!(!state.is_well_formed());
    let mut state = busy();
    state.proposals[0].votes[0].approved = true;
    assert!(!state.is_well_formed());
}

#[test]
fn a_second_vote_of_one_donor_is_ill_formed() {
    let mut state = busy();
    let again = Vote { donor: donor(2), voting_power: 0, approved: true, timestamp: 9 };
    state.proposals[1].votes.push(again);
    assert!(!state.is_well_formed());
}

#[test]
fn a_vote_without_backing_is_ill_formed() {
    // A vote of someone who is no donor.
    let mut state = busy();
    let stranger = Vote { donor: donor(7), voting_power: 0, approved: true, timestamp: 9 };
    state.proposals[1].votes.push(stranger);
    assert!(!state.is_well_formed());
    // A vote cast with more power than its donor has.
    let mut state = busy();
    state.proposals[1].votes.push(Vote {
        donor: donor(1),
        voting_power: 601,
        approved: false,
        timestamp: 9,
    });
    state.proposals[1].no_votes = 601;
    assert!(!state.is_well_formed());
    // The same vote within the donor's power is accepted.
    let mut state = busy();
    state.proposals[1].votes.push(Vote {
        donor: donor(1),
        voting_power: 600,
        approved: false,
        timestamp: 9,
    });
    state.proposals[1].no_votes = 600;
    assert!(state.is_well_formed());
}

#[test]
fn a_status_at_odds_with_the_record_is_ill_formed() {
    let mut state = busy();
    state.proposals[0].executed_at = None;
    assert!(!state.is_well_formed());
    let mut state = busy();
    state.proposals[1].executed_at = Some(1);
    assert!(!state.is_well_formed());
    let mut state = busy();
    state.proposals[1].votes.clear();
    state.proposals[1].yes_votes = 0;
    assert!(state.is_well_formed());
    state.proposals[1].status = ProposalStatus::Approved;
    assert!(!state.is_well_formed());
    state.proposals[1].status = ProposalStatus::Cancelled;
    assert!(state.is_well_formed());
}

#[test]
fn a_proposal_that_could_not_have_been_created_is_ill_formed() {
    let mut state = busy();
    state.proposals[1].amount = 0;
    assert!(!state.is_well_formed());
    let mut state = busy();
    state.proposals[1].creator = donor(8);
    assert!(!state.is_well_formed());
    let mut state = busy();
    state.proposals[1].expires_at = state.proposals[1].created_at - 1;
    assert!(!state.is_well_formed());
}

#[test]
fn percentages_above_100_are_ill_formed() {
    let mut state = busy();
    state.governance_settings.quorum_percentage = 101;
    assert!(!state.is_well_formed());
    let mut state = busy();
    state.governance_settings.approval_threshold = 255;
    assert!(!state.is_well_formed());
}

use veripact_backend::error::GovernanceError;
use veripact_backend::identity::Identity;
use veripact_backend::state::GovernanceState;
use veripact_backend::types::{DonationRecord, GovernanceSettings};

fn voted() -> Result<String, GovernanceError> {
    Ok("Vote recorded successfully".to_string())
}

fn updated() -> Result<String, GovernanceError> {
    Ok("Governance settings updated successfully".to_string())
}

fn donor(byte: u8) -> Identity {
    Identity::from_slice(&[byte]).unwrap()
}

#[test]
fn a_new_engine_is_empty_with_default_settings() {
    let state = GovernanceState::new();
    assert!(state.donors.is_empty());
    assert!(state.proposals.is_empty());
    assert!(state.charity_projects.is_empty());
    assert_eq!(state.get_treasury_balance(), 0);
    assert_eq!(state.next_proposal_id, 0);
    assert_eq!(state.next_project_id, 0);
    assert_eq!(state.total_voting_power(), 0);
    let settings = state.get_governance_settings();
    assert_eq!(settings.min_proposal_duration, 259_200);
    assert_eq!(settings.quorum_percentage, 25);
    assert_eq!(settings.approval_threshold, 51);
    assert_eq!(settings, GovernanceSettings::default());
    assert_eq!(state, GovernanceState::default());
    assert!(state.is_well_formed());
}

#[test]
fn donations_add_up_per_donor_and_in_the_treasury() {
    let mut state = GovernanceState::new();
    state.donate(donor(1), 100, 10);
    state.donate(donor(2), 250, 20);
    state.donate(donor(1), 50, 30);
    let first = state.get_donor(&donor(1)).unwrap();
    assert_eq!(first.total_donations, 150);
    assert_eq!(first.voting_power, 150);
    assert_eq!(
        first.donation_history,
        vec![
            DonationRecord { timestamp: 10, amount: 100 },
            DonationRecord { timestamp: 30, amount: 50 },
        ]
    );
    let second = state.get_donor(&donor(2)).unwrap();
    assert_eq!(second.total_donations, 250);
    assert_eq!(second.voting_power, 250);
    assert_eq!(second.donation_history, vec![DonationRecord { timestamp: 20, amount: 250 }]);
    assert_eq!(state.get_treasury_balance(), 400);
    assert_eq!(state.total_voting_power(), 400);
    assert_eq!(state.donors.len(), 2);
    assert_eq!(state.donors[0].id, donor(1));
    assert_eq!(state.donors[1].id, donor(2));
    assert!(state.is_well_formed());
}

#[test]
fn an_unknown_donor_is_not_found() {
    let mut state = GovernanceState::new();
    assert_eq!(state.get_donor(&donor(1)), None);
    state.donate(donor(1), 1, 0);
    assert_eq!(state.get_donor(&donor(2)), None);
    assert!(state.get_donor(&donor(1)).is_some());
}

#[test]
fn voting_power_equals_donations_for_every_donor() {
    let mut state = GovernanceState::new();
    for round in 0..5u64 {
        for byte in 1..4u8 {
            state.donate(donor(byte), round * 10 + byte as u64, round);
            for record in state.donors.iter() {
                assert_eq!(record.voting_power, record.total_donations);
                let recorded: u64 = record.donation_history.iter().map(|r| r.amount).sum();
                assert_eq!(record.total_donations, recorded);
            }
        }
    }
    assert_eq!(state.total_voting_power(), state.get_treasury_balance());
}

#[test]
fn the_largest_donation_fits() {
    let mut state = GovernanceState::new();
    state.donate(donor(1), u64::MAX - 5, 0);
    state.donate(donor(2), 5, 0);
    assert_eq!(state.total_voting_power(), u64::MAX);
    assert_eq!(state.get_treasury_balance(), u64::MAX);
    assert!(state.is_well_formed());
}

#[test]
fn charity_projects_are_numbered_in_order() {
    let mut state = GovernanceState::new();
    assert!(state.list_charity_projects().is_empty());
    assert_eq!(state.get_charity_project(0), None);
    let first = state.register_charity(donor(1), "Wells".to_string(), "Water".to_string(), 5);
    let second = state.register_charity(donor(2), "Books".to_string(), "Reading".to_string(), 6);
    assert_eq!(first, Ok(0));
    assert_eq!(second, Ok(1));
    let project = state.get_charity_project(1).unwrap();
    assert_eq!(project.id, 1);
    assert_eq!(project.owner, donor(2));
    assert_eq!(project.name, "Books");
    assert_eq!(project.description, "Reading");
    assert_eq!(project.total_received, 0);
    assert!(project.proposals.is_empty());
    assert_eq!(project.created_at, 6);
    let all = state.list_charity_projects();
    assert_eq!(all.len(), 2);
    assert_eq!(all[0].name, "Wells");
    assert_eq!(all[1], project);
    assert_eq!(state.get_charity_project(2), None);
    assert!(state.is_well_formed());
}

#[test]
fn a_charity_project_needs_a_name_and_a_description() {
    let mut state = GovernanceState::new();
    let answer = state.register_charity(donor(1), String::new(), "Water".to_string(), 5);
    assert_eq!(answer, Err(GovernanceError::EmptyNameOrDescription));
    let answer = state.register_charity(donor(1), "Wells".to_string(), String::new(), 5);
    assert_eq!(answer, Err(GovernanceError::EmptyNameOrDescription));
    assert_eq!(answer.unwrap_err().message(), "Name and description cannot be empty");
    assert_eq!(state, GovernanceState::new());
}

#[test]
fn settings_are_replaced_value_by_value() {
    let mut state = GovernanceState::new();
    assert_eq!(state.update_governance_settings(donor(1), Some(60), None, None), updated());
    assert_eq!(
        state.get_governance_settings(),
        GovernanceSettings {
            min_proposal_duration: 60,
            quorum_percentage: 25,
            approval_threshold: 51,
        }
    );
    assert_eq!(state.update_governance_settings(donor(1), None, Some(100), Some(0)), updated());
    assert_eq!(
        state.get_governance_settings(),
        GovernanceSettings {
            min_proposal_duration: 60,
            quorum_percentage: 100,
            approval_threshold: 0,
        }
    );
    assert_eq!(state.update_governance_settings(donor(1), None, None, None), updated());
    assert_eq!(
        state.get_governance_settings(),
        GovernanceSettings {
            min_proposal_duration: 60,
            quorum_percentage: 100,
            approval_threshold: 0,
        }
    );
    assert!(state.is_well_formed());
}

#[test]
fn a_threshold_above_100_is_refused() {
    let mut state = GovernanceState::new();
    let answer = state.update_governance_settings(donor(1), None, None, Some(101));
    assert_eq!(answer, Err(GovernanceError::ThresholdOutOfRange));
    assert_eq!(answer.unwrap_err().message(), "Approval threshold cannot exceed 100");
    assert_eq!(state.get_governance_settings(), GovernanceSettings::default());
}

#[test]
fn what_was_taken_before_a_refused_percentage_stays_changed() {
    let mut state = GovernanceState::new();
    let answer = state.update_governance_settings(donor(1), Some(60), Some(101), Some(10));
    assert_eq!(answer, Err(GovernanceError::QuorumOutOfRange));
    assert_eq!(
        state.get_governance_settings(),
        GovernanceSettings {
            min_proposal_duration: 60,
            quorum_percentage: 25,
            approval_threshold: 51,
        }
    );
    let answer = state.update_governance_settings(donor(1), Some(90), Some(30), Some(200));
    assert_eq!(answer, Err(GovernanceError::ThresholdOutOfRange));
    assert_eq!(
        state.get_governance_settings(),
        GovernanceSettings {
            min_proposal_duration: 90,
            quorum_percentage: 30,
            approval_threshold: 51,
        }
    );
    assert!(state.is_well_formed());
}

#[test]
fn new_settings_rule_the_next_vote() {
    let mut state = GovernanceState::new();
    state.donate(donor(1), 10, 0);
    state.donate(donor(2), 90, 0);
    assert_eq!(state.update_governance_settings(donor(1), Some(0), Some(5), Some(100)), updated());
    let proposal = state
        .create_proposal(donor(1), "t".to_string(), "d".to_string(), donor(3), 1, 7, 100)
        .unwrap();
    assert_eq!(state.get_proposal(proposal).unwrap().expires_at, 107);
    assert_eq!(state.vote_on_proposal(donor(1), proposal, true, 101), voted());
    let record = state.get_proposal(proposal).unwrap();
    assert_eq!(record.yes_votes, 10);
    assert_eq!(record.status, veripact_backend::types::ProposalStatus::Approved);
}

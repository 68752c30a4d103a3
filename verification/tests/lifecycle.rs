use veripact_backend::error::GovernanceError;
use veripact_backend::identity::Identity;
use veripact_backend::state::{GovernanceState, SIMULATED_DONATION};
use veripact_backend::types::{GovernanceSettings, ProposalStatus};

fn voted() -> Result<String, GovernanceError> {
    Ok("Vote recorded successfully".to_string())
}

fn executed() -> Result<String, GovernanceError> {
    Ok("Proposal executed successfully".to_string())
}

fn alice() -> Identity {
    Identity::from_slice(&[1, 2, 3]).unwrap()
}

fn bob() -> Identity {
    Identity::from_slice(&[9, 9]).unwrap()
}

fn charity() -> Identity {
    Identity::from_slice(&[7]).unwrap()
}

fn funded_by_alice() -> GovernanceState {
    let mut state = GovernanceState::new();
    let confirmation = state.donate(alice(), SIMULATED_DONATION, 1_000);
    assert_eq!(confirmation, "Successfully donated 100000000 e8s (1 ICP)");
    state
}

fn with_approved_proposal() -> (GovernanceState, u64) {
    let mut state = funded_by_alice();
    let id = state
        .create_proposal(
            alice(),
            "Well".to_string(),
            "Dig a well".to_string(),
            charity(),
            100_000_000,
            0,
            2_000,
        )
        .unwrap();
    assert_eq!(state.vote_on_proposal(alice(), id, true, 3_000), voted());
    (state, id)
}

#[test]
fn one_donation_gives_voting_power_and_fills_the_treasury() {
    let state = funded_by_alice();
    let donor = state.get_donor(&alice()).unwrap();
    assert_eq!(donor.id, alice());
    assert_eq!(donor.voting_power, 100_000_000);
    assert_eq!(donor.total_donations, 100_000_000);
    assert_eq!(donor.donation_history.len(), 1);
    assert_eq!(donor.donation_history[0].timestamp, 1_000);
    assert_eq!(donor.donation_history[0].amount, 100_000_000);
    assert_eq!(state.get_treasury_balance(), 100_000_000);
    assert_eq!(state.total_voting_power(), 100_000_000);
}

#[test]
fn the_simulated_donation_is_one_token() {
    assert_eq!(SIMULATED_DONATION, 100_000_000);
}

#[test]
fn sole_donor_approves_a_proposal_for_the_whole_treasury() {
    let (state, id) = with_approved_proposal();
    assert_eq!(id, 0);
    let settings = state.get_governance_settings();
    assert_eq!(settings.quorum_percentage, 25);
    assert_eq!(settings.approval_threshold, 51);
    let proposal = state.get_proposal(id).unwrap();
    assert_eq!(proposal.status, ProposalStatus::Approved);
    assert_eq!(proposal.yes_votes, 100_000_000);
    assert_eq!(proposal.no_votes, 0);
    assert_eq!(proposal.votes.len(), 1);
    assert_eq!(proposal.votes[0].donor, alice());
    assert_eq!(proposal.votes[0].voting_power, 100_000_000);
    assert!(proposal.votes[0].approved);
    assert_eq!(proposal.votes[0].timestamp, 3_000);
    assert_eq!(proposal.executed_at, None);
}

#[test]
fn executing_the_approved_proposal_empties_the_treasury() {
    let (mut state, id) = with_approved_proposal();
    assert_eq!(state.execute_proposal(bob(), id, 4_000), executed());
    let proposal = state.get_proposal(id).unwrap();
    assert_eq!(proposal.status, ProposalStatus::Executed);
    assert_eq!(proposal.executed_at, Some(4_000));
    assert_eq!(state.get_treasury_balance(), 0);
    assert!(state.is_well_formed());
}

#[test]
fn someone_who_never_donated_cannot_vote() {
    let mut state = funded_by_alice();
    let id = state
        .create_proposal(alice(), "t".to_string(), "d".to_string(), charity(), 1, 0, 0)
        .unwrap();
    let before = state.capture();
    let answer = state.vote_on_proposal(bob(), id, true, 1);
    assert_eq!(answer, Err(GovernanceError::VoterNotDonor));
    assert_eq!(answer.unwrap_err().message(), "Only donors can vote");
    assert_eq!(state, before);
}

#[test]
fn a_vote_after_expiry_fails_and_rejects_the_proposal() {
    let mut state = funded_by_alice();
    let id = state
        .create_proposal(alice(), "t".to_string(), "d".to_string(), charity(), 1, 0, 5_000)
        .unwrap();
    let expires_at = state.get_proposal(id).unwrap().expires_at;
    assert_eq!(expires_at, 5_000 + 259_200);
    let answer = state.vote_on_proposal(alice(), id, true, expires_at + 1);
    assert_eq!(answer, Err(GovernanceError::ProposalExpired));
    assert_eq!(answer.unwrap_err().message(), "Proposal has expired");
    let proposal = state.get_proposal(id).unwrap();
    assert_eq!(proposal.status, ProposalStatus::Rejected);
    assert_eq!(proposal.votes.len(), 0);
    assert_eq!(proposal.yes_votes, 0);
    assert_eq!(proposal.no_votes, 0);
    assert!(state.is_well_formed());
}

#[test]
fn a_vote_at_the_moment_of_expiry_still_counts() {
    let mut state = funded_by_alice();
    let id = state
        .create_proposal(alice(), "t".to_string(), "d".to_string(), charity(), 1, 0, 5_000)
        .unwrap();
    let expires_at = state.get_proposal(id).unwrap().expires_at;
    assert_eq!(state.vote_on_proposal(alice(), id, false, expires_at), voted());
    let proposal = state.get_proposal(id).unwrap();
    assert_eq!(proposal.status, ProposalStatus::Rejected);
    assert_eq!(proposal.no_votes, 100_000_000);
    assert_eq!(proposal.votes.len(), 1);
}

#[test]
fn a_quorum_of_150_is_refused_and_changes_nothing() {
    let mut state = GovernanceState::new();
    let answer = state.update_governance_settings(alice(), None, Some(150), None);
    assert_eq!(answer, Err(GovernanceError::QuorumOutOfRange));
    assert_eq!(answer.unwrap_err().message(), "Quorum percentage cannot exceed 100");
    assert_eq!(state.get_governance_settings(), GovernanceSettings::default());
    assert_eq!(state, GovernanceState::new());
}

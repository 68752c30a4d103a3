//! The reasons for which the engine turns a request down.

use vstd::prelude::*;

verus! {

/// Why a request was turned down.
#[derive(Clone, Copy, Debug, PartialEq, Eq, Structural)]
pub enum GovernanceError {
    /// A proposal needs a title and a description.
    EmptyTitleOrDescription,
    /// A proposal must request more than nothing.
    ZeroAmount,
    /// Only a donor may create a proposal.
    CreatorNotDonor,
    /// A proposal may not request more than the treasury holds.
    ExceedsAvailableFunds,
    /// Only a donor may vote.
    VoterNotDonor,
    /// No proposal has the given identifier.
    ProposalNotFound,
    /// Votes are taken on active proposals only.
    ProposalNotActive,
    /// The proposal's voting period is over.
    ProposalExpired,
    /// The donor has voted on this proposal before.
    AlreadyVoted,
    /// Only an approved proposal can be executed.
    ProposalNotApproved,
    /// The treasury no longer covers the approved amount.
    InsufficientFunds,
    /// A charity project needs a name and a description.
    EmptyNameOrDescription,
    /// A quorum percentage lies between 0 and 100.
    QuorumOutOfRange,
    /// An approval threshold lies between 0 and 100.
    ThresholdOutOfRange,
}

impl GovernanceError {
    /// The text shown to the caller for this error.
    pub open spec fn text(self) -> Seq<char> {
        match self {
            GovernanceError::EmptyTitleOrDescription => "Title and description cannot be empty"@,
            GovernanceError::ZeroAmount => "Amount must be greater than zero"@,
            GovernanceError::CreatorNotDonor => "Only donors can create proposals"@,
            GovernanceError::ExceedsAvailableFunds => "Requested amount exceeds available funds"@,
            GovernanceError::VoterNotDonor => "Only donors can vote"@,
            GovernanceError::ProposalNotFound => "Proposal not found"@,
            GovernanceError::ProposalNotActive => "Proposal is not active"@,
            GovernanceError::ProposalExpired => "Proposal has expired"@,
            GovernanceError::AlreadyVoted => "Already voted on this proposal"@,
            GovernanceError::ProposalNotApproved => "Only approved proposals can be executed"@,
            GovernanceError::InsufficientFunds => "Insufficient funds in treasury"@,
            GovernanceError::EmptyNameOrDescription => "Name and description cannot be empty"@,
            GovernanceError::QuorumOutOfRange => "Quorum percentage cannot exceed 100"@,
            GovernanceError::ThresholdOutOfRange => "Approval threshold cannot exceed 100"@,
        }
    }

    /// The text shown to the caller for this error.
    pub fn message(&self) -> (message: String)
        ensures
            message@ == self.text(),
    {
        match self {
            GovernanceError::EmptyTitleOrDescription => {
                "Title and description cannot be empty".to_owned()
            },
            GovernanceError::ZeroAmount => "Amount must be greater than zero".to_owned(),
            GovernanceError::CreatorNotDonor => "Only donors can create proposals".to_owned(),
            GovernanceError::ExceedsAvailableFunds => {
                "Requested amount exceeds available funds".to_owned()
            },
            GovernanceError::VoterNotDonor => "Only donors can vote".to_owned(),
            GovernanceError::ProposalNotFound => "Proposal not found".to_owned(),
            GovernanceError::ProposalNotActive => "Proposal is not active".to_owned(),
            GovernanceError::ProposalExpired => "Proposal has expired".to_owned(),
            GovernanceError::AlreadyVoted => "Already voted on this proposal".to_owned(),
            GovernanceError::ProposalNotApproved => {
                "Only approved proposals can be executed".to_owned()
            },
            GovernanceError::InsufficientFunds => "Insufficient funds in treasury".to_owned(),
            GovernanceError::EmptyNameOrDescription => {
                "Name and description cannot be empty".to_owned()
            },
            GovernanceError::QuorumOutOfRange => "Quorum percentage cannot exceed 100".to_owned(),
            GovernanceError::ThresholdOutOfRange => {
                "Approval threshold cannot exceed 100".to_owned()
            },
        }
    }
}

} // verus!

//! The records the engine keeps, each with the mathematical value it stands for.

use crate::identity::Identity;
use vstd::prelude::*;

verus! {

/// Where a funding proposal stands in its lifecycle.
///
/// A proposal starts `Active`. A vote can make it `Approved` or `Rejected`;
/// execution makes an approved proposal `Executed`, or `Rejected` when the
/// treasury no longer covers it. No operation produces `Cancelled`.
#[derive(Clone, Copy, Debug, PartialEq, Eq, Structural)]
pub enum ProposalStatus {
    Active,
    Approved,
    Rejected,
    Executed,
    Cancelled,
}

impl ProposalStatus {
    /// The states that a proposal never leaves.
    pub open spec fn is_terminal(self) -> bool {
        self == ProposalStatus::Executed || self == ProposalStatus::Rejected || self
            == ProposalStatus::Cancelled
    }
}

/// One donation: when it was made and how much it was.
#[derive(Clone, Copy, Debug, PartialEq, Eq, Structural)]
pub struct DonationRecord {
    pub timestamp: u64,
    pub amount: u64,
}

/// A contributor, with everything they have given so far.
#[derive(Debug, PartialEq, Eq)]
pub struct Donor {
    pub id: Identity,
    pub total_donations: u64,
    pub voting_power: u64,
    pub donation_history: Vec<DonationRecord>,
}

/// The value of a [`Donor`].
pub struct DonorView {
    pub id: Seq<u8>,
    pub total_donations: nat,
    pub voting_power: nat,
    pub donation_history: Seq<DonationRecord>,
}

impl View for Donor {
    type V = DonorView;

    open spec fn view(&self) -> DonorView {
        DonorView {
            id: self.id@,
            total_donations: self.total_donations as nat,
            voting_power: self.voting_power as nat,
            donation_history: self.donation_history@,
        }
    }
}

impl Clone for Donor {
    fn clone(&self) -> (copy: Self)
        ensures
            copy@ == self@,
    {
        Donor {
            id: self.id,
            total_donations: self.total_donations,
            voting_power: self.voting_power,
            donation_history: self.donation_history.clone(),
        }
    }
}

/// One donor's vote on one proposal, with the voting power it was cast with.
#[derive(Clone, Copy, Debug, PartialEq, Eq)]
pub struct Vote {
    pub donor: Identity,
    pub voting_power: u64,
    pub approved: bool,
    pub timestamp: u64,
}

/// The value of a [`Vote`].
pub struct VoteView {
    pub donor: Seq<u8>,
    pub voting_power: nat,
    pub approved: bool,
    pub timestamp: nat,
}

impl View for Vote {
    type V = VoteView;

    open spec fn view(&self) -> VoteView {
        VoteView {
            donor: self.donor@,
            voting_power: self.voting_power as nat,
            approved: self.approved,
            timestamp: self.timestamp as nat,
        }
    }
}

/// The values of a list of votes.
pub open spec fn vote_views(votes: Seq<Vote>) -> Seq<VoteView> {
    votes.map_values(|vote: Vote| vote@)
}

/// A request to release an amount from the treasury to a recipient.
#[derive(Debug, PartialEq, Eq)]
pub struct FundingProposal {
    pub id: u64,
    pub creator: Identity,
    pub title: String,
    pub description: String,
    pub recipient: Identity,
    pub amount: u64,
    pub status: ProposalStatus,
    pub votes: Vec<Vote>,
    pub yes_votes: u64,
    pub no_votes: u64,
    pub created_at: u64,
    pub expires_at: u64,
    pub executed_at: Option<u64>,
}

/// The value of a [`FundingProposal`].
pub struct FundingProposalView {
    pub id: nat,
    pub creator: Seq<u8>,
    pub title: Seq<char>,
    pub description: Seq<char>,
    pub recipient: Seq<u8>,
    pub amount: nat,
    pub status: ProposalStatus,
    pub votes: Seq<VoteView>,
    pub yes_votes: nat,
    pub no_votes: nat,
    pub created_at: nat,
    pub expires_at: nat,
    pub executed_at: Option<nat>,
}

impl View for FundingProposal {
    type V = FundingProposalView;

    open spec fn view(&self) -> FundingProposalView {
        FundingProposalView {
            id: self.id as nat,
            creator: self.creator@,
            title: self.title@,
            description: self.description@,
            recipient: self.recipient@,
            amount: self.amount as nat,
            status: self.status,
            votes: vote_views(self.votes@),
            yes_votes: self.yes_votes as nat,
            no_votes: self.no_votes as nat,
            created_at: self.created_at as nat,
            expires_at: self.expires_at as nat,
            executed_at: match self.executed_at {
                Some(at) => Some(at as nat),
                None => None,
            },
        }
    }
}

impl Clone for FundingProposal {
    fn clone(&self) -> (copy: Self)
        ensures
            copy@ == self@,
    {
        let copy = FundingProposal {
            id: self.id,
            creator: self.creator,
            title: self.title.clone(),
            description: self.description.clone(),
            recipient: self.recipient,
            amount: self.amount,
            status: self.status,
            votes: self.votes.clone(),
            yes_votes: self.yes_votes,
            no_votes: self.no_votes,
            created_at: self.created_at,
            expires_at: self.expires_at,
            executed_at: self.executed_at,
        };
        copy
    }
}

/// A registered charity project.
#[derive(Debug, PartialEq, Eq)]
pub struct CharityProject {
    pub id: u64,
    pub owner: Identity,
    pub name: String,
    pub description: String,
    pub total_received: u64,
    pub proposals: Vec<u64>,
    pub created_at: u64,
}

/// The value of a [`CharityProject`].
pub struct CharityProjectView {
    pub id: nat,
    pub owner: Seq<u8>,
    pub name: Seq<char>,
    pub description: Seq<char>,
    pub total_received: nat,
    pub proposals: Seq<u64>,
    pub created_at: nat,
}

impl View for CharityProject {
    type V = CharityProjectView;

    open spec fn view(&self) -> CharityProjectView {
        CharityProjectView {
            id: self.id as nat,
            owner: self.owner@,
            name: self.name@,
            description: self.description@,
            total_received: self.total_received as nat,
            proposals: self.proposals@,
            created_at: self.created_at as nat,
        }
    }
}

impl Clone for CharityProject {
    fn clone(&self) -> (copy: Self)
        ensures
            copy@ == self@,
    {
        CharityProject {
            id: self.id,
            owner: self.owner,
            name: self.name.clone(),
            description: self.description.clone(),
            total_received: self.total_received,
            proposals: self.proposals.clone(),
            created_at: self.created_at,
        }
    }
}

/// The rules that votes are held under.
#[derive(Clone, Copy, Debug, PartialEq, Eq, Structural)]
pub struct GovernanceSettings {
    /// The shortest voting period, in seconds.
    pub min_proposal_duration: u64,
    /// The share of the total voting power that must have voted, in percent.
    pub quorum_percentage: u8,
    /// The share of the cast voting power that must approve, in percent.
    pub approval_threshold: u8,
}

impl GovernanceSettings {
    /// The settings of a new engine: three days, 25 percent, 51 percent.
    pub open spec fn initial() -> GovernanceSettings {
        GovernanceSettings {
            min_proposal_duration: 259200,
            quorum_percentage: 25,
            approval_threshold: 51,
        }
    }

    /// Both percentages lie between 0 and 100.
    pub open spec fn in_range(self) -> bool {
        self.quorum_percentage <= 100 && self.approval_threshold <= 100
    }
}

impl Default for GovernanceSettings {
    fn default() -> (settings: Self)
        ensures
            settings == GovernanceSettings::initial(),
    {
        GovernanceSettings {
            min_proposal_duration: 86400 * 3,
            quorum_percentage: 25,
            approval_threshold: 51,
        }
    }
}

} // verus!

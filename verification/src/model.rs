//! The engine as mathematics: the value of the whole governance state, the
//! effect of every operation on it, and the invariant that every operation
//! keeps.

use crate::error::GovernanceError;
use crate::sums::sum;
use crate::tally::decide;
use crate::types::{
    CharityProjectView, DonationRecord, DonorView, FundingProposalView, GovernanceSettings,
    ProposalStatus, VoteView,
};
use vstd::prelude::*;

verus! {

/// Whether some donor in the registry has this identity.
pub open spec fn is_donor(donors: Seq<DonorView>, id: Seq<u8>) -> bool {
    exists|i: int| 0 <= i < donors.len() && (#[trigger] donors[i]).id == id
}

/// Where in the registry the donor with this identity stands.
pub open spec fn donor_position(donors: Seq<DonorView>, id: Seq<u8>) -> int
    recommends
        is_donor(donors, id),
{
    choose|i: int| 0 <= i < donors.len() && (#[trigger] donors[i]).id == id
}

/// The record of the donor with this identity.
pub open spec fn donor_of(donors: Seq<DonorView>, id: Seq<u8>) -> DonorView
    recommends
        is_donor(donors, id),
{
    donors[donor_position(donors, id)]
}

/// The voting power of each donor, in the order of the registry.
pub open spec fn voting_powers(donors: Seq<DonorView>) -> Seq<nat> {
    Seq::new(donors.len(), |i: int| donors[i].voting_power)
}

/// The voting power of all donors together.
pub open spec fn total_voting_power(donors: Seq<DonorView>) -> nat {
    sum(voting_powers(donors))
}

/// What each donor has given, in the order of the registry.
pub open spec fn donation_totals(donors: Seq<DonorView>) -> Seq<nat> {
    Seq::new(donors.len(), |i: int| donors[i].total_donations)
}

/// Everything that was ever donated.
pub open spec fn total_donated(donors: Seq<DonorView>) -> nat {
    sum(donation_totals(donors))
}

/// The amounts of a list of donations.
pub open spec fn amounts(records: Seq<DonationRecord>) -> Seq<nat> {
    Seq::new(records.len(), |i: int| records[i].amount as nat)
}

/// The amounts of a donor's donations, added up.
pub open spec fn history_total(records: Seq<DonationRecord>) -> nat {
    sum(amounts(records))
}

/// What a proposal has taken out of the treasury: its amount once it is
/// executed, and nothing before.
pub open spec fn released(proposal: FundingProposalView) -> nat {
    if proposal.status == ProposalStatus::Executed {
        proposal.amount
    } else {
        0
    }
}

/// What each proposal has taken out of the treasury.
pub open spec fn releases(proposals: Seq<FundingProposalView>) -> Seq<nat> {
    Seq::new(proposals.len(), |i: int| released(proposals[i]))
}

/// Everything that executed proposals have released.
pub open spec fn total_released(proposals: Seq<FundingProposalView>) -> nat {
    sum(releases(proposals))
}

/// Whether this donor has a vote in the list.
pub open spec fn has_voted(votes: Seq<VoteView>, donor: Seq<u8>) -> bool {
    exists|i: int| 0 <= i < votes.len() && (#[trigger] votes[i]).donor == donor
}

/// What a vote adds to the running total of one side.
pub open spec fn weight_for(vote: VoteView, approved: bool) -> nat {
    if vote.approved == approved {
        vote.voting_power
    } else {
        0
    }
}

/// What each vote adds to the running total of one side.
pub open spec fn weights(votes: Seq<VoteView>, approved: bool) -> Seq<nat> {
    Seq::new(votes.len(), |i: int| weight_for(votes[i], approved))
}

/// The voting power cast for one side: for approval, or against it.
pub open spec fn cast_power(votes: Seq<VoteView>, approved: bool) -> nat {
    sum(weights(votes, approved))
}

/// Whether a vote comes from a known donor and was cast with no more voting
/// power than that donor has now.
pub open spec fn backed(donors: Seq<DonorView>, vote: VoteView) -> bool {
    exists|k: int|
        0 <= k < donors.len() && (#[trigger] donors[k]).id == vote.donor && vote.voting_power
            <= donors[k].voting_power
}

/// A donor's voting power is what they have donated, and that is the sum
/// of their donation records.
pub open spec fn donor_consistent(donor: DonorView) -> bool {
    &&& donor.voting_power == donor.total_donations
    &&& donor.total_donations == history_total(donor.donation_history)
}

/// No identity has two donor records.
pub open spec fn distinct_donors(donors: Seq<DonorView>) -> bool {
    forall|i: int, j: int|
        0 <= i < j < donors.len() ==> (#[trigger] donors[i]).id != (#[trigger] donors[j]).id
}

/// No donor has two votes in the list.
pub open spec fn distinct_voters(votes: Seq<VoteView>) -> bool {
    forall|i: int, j: int|
        0 <= i < j < votes.len() ==> (#[trigger] votes[i]).donor != (#[trigger] votes[j]).donor
}

/// What holds of every proposal on record, given the registry of donors.
pub open spec fn proposal_consistent(donors: Seq<DonorView>, proposal: FundingProposalView)
    -> bool {
    &&& proposal.amount > 0
    &&& proposal.created_at <= proposal.expires_at
    &&& is_donor(donors, proposal.creator)
    &&& proposal.yes_votes == cast_power(proposal.votes, true)
    &&& proposal.no_votes == cast_power(proposal.votes, false)
    &&& distinct_voters(proposal.votes)
    &&& forall|i: int|
        0 <= i < proposal.votes.len() ==> backed(donors, #[trigger] proposal.votes[i])
    &&& proposal.status == ProposalStatus::Executed <==> proposal.executed_at is Some
    &&& proposal.status == ProposalStatus::Approved || proposal.status
        == ProposalStatus::Executed ==> proposal.yes_votes + proposal.no_votes > 0
}

/// The value of the whole governance state.
pub struct GovernanceStateView {
    /// The donors, in the order of their first donation.
    pub donors: Seq<DonorView>,
    /// The proposals; the proposal with identifier `i` stands at index `i`.
    pub proposals: Seq<FundingProposalView>,
    /// The charity projects; the project with identifier `i` stands at index `i`.
    pub charity_projects: Seq<CharityProjectView>,
    /// The treasury balance.
    pub total_donations: nat,
    /// The identifier that the next proposal gets.
    pub next_proposal_id: nat,
    /// The identifier that the next charity project gets.
    pub next_project_id: nat,
    /// The rules in force.
    pub governance_settings: GovernanceSettings,
}

impl GovernanceStateView {
    /// The state of a new engine: nothing recorded, default settings.
    pub open spec fn initial() -> GovernanceStateView {
        GovernanceStateView {
            donors: Seq::empty(),
            proposals: Seq::empty(),
            charity_projects: Seq::empty(),
            total_donations: 0,
            next_proposal_id: 0,
            next_project_id: 0,
            governance_settings: GovernanceSettings::initial(),
        }
    }

    /// The voting power of all donors together.
    pub open spec fn total_voting_power(self) -> nat {
        total_voting_power(self.donors)
    }

    /// Every donor record is consistent and no identity has two records.
    pub open spec fn donors_consistent(self) -> bool {
        &&& forall|i: int|
            0 <= i < self.donors.len() ==> donor_consistent(#[trigger] self.donors[i])
        &&& distinct_donors(self.donors)
    }

    /// Proposals are numbered in order from 0 and each is consistent.
    pub open spec fn proposals_consistent(self) -> bool {
        &&& self.next_proposal_id == self.proposals.len()
        &&& forall|i: int|
            0 <= i < self.proposals.len() ==> (#[trigger] self.proposals[i]).id == i
                && proposal_consistent(self.donors, self.proposals[i])
    }

    /// Charity projects are numbered in order from 0.
    pub open spec fn projects_consistent(self) -> bool {
        &&& self.next_project_id == self.charity_projects.len()
        &&& forall|i: int|
            0 <= i < self.charity_projects.len() ==> (#[trigger] self.charity_projects[i]).id == i
    }

    /// The treasury holds what was donated and not yet released.
    pub open spec fn treasury_balanced(self) -> bool {
        self.total_donations + total_released(self.proposals) == total_donated(self.donors)
    }

    /// The invariant of the engine: it holds of the initial state and every
    /// operation keeps it.
    pub open spec fn inv(self) -> bool {
        &&& self.donors_consistent()
        &&& self.proposals_consistent()
        &&& self.projects_consistent()
        &&& self.treasury_balanced()
        &&& self.governance_settings.in_range()
    }

    /// The state with one proposal replaced.
    pub open spec fn with_proposal(self, id: int, proposal: FundingProposalView) -> Self {
        GovernanceStateView { proposals: self.proposals.update(id, proposal), ..self }
    }
}

/// The proposals that are still open to votes, in the order of their
/// identifiers.
pub open spec fn active_proposals(proposals: Seq<FundingProposalView>) -> Seq<
    FundingProposalView,
> {
    proposals.filter(|proposal: FundingProposalView| proposal.status == ProposalStatus::Active)
}

/// The active proposals of a list with one more proposal at its end.
pub proof fn lemma_active_proposals_push(
    proposals: Seq<FundingProposalView>,
    proposal: FundingProposalView,
)
    ensures
        active_proposals(proposals.push(proposal)) == if proposal.status
            == ProposalStatus::Active {
            active_proposals(proposals).push(proposal)
        } else {
            active_proposals(proposals)
        },
{
    reveal(Seq::filter);
    assert(proposals.push(proposal).drop_last() =~= proposals);
}

/// A donor record after one more donation.
pub open spec fn credited(donor: DonorView, amount: u64, now: u64) -> DonorView {
    DonorView {
        total_donations: donor.total_donations + amount as nat,
        voting_power: donor.voting_power + amount as nat,
        donation_history: donor.donation_history.push(DonationRecord { timestamp: now, amount }),
        ..donor
    }
}

/// The record of a donor who has given nothing yet.
pub open spec fn new_donor(id: Seq<u8>) -> DonorView {
    DonorView { id, total_donations: 0, voting_power: 0, donation_history: Seq::empty() }
}

/// Whether the machine's numbers can hold the voting power of all donors
/// after a donation of `amount`.
pub open spec fn donation_fits(s: GovernanceStateView, amount: u64) -> bool {
    s.total_voting_power() + amount <= u64::MAX
}

/// The state after `donor` gave `amount` at time `now`.
///
/// A donor who is not on record yet is entered first. The donation is added to
/// the donor's total and voting power and to the treasury, and appended to the
/// donor's history.
pub open spec fn donate(s: GovernanceStateView, donor: Seq<u8>, amount: u64, now: u64)
    -> GovernanceStateView {
    let donors = if is_donor(s.donors, donor) {
        let at = donor_position(s.donors, donor);
        s.donors.update(at, credited(s.donors[at], amount, now))
    } else {
        s.donors.push(credited(new_donor(donor), amount, now))
    };
    GovernanceStateView { donors, total_donations: s.total_donations + amount as nat, ..s }
}

/// Why a proposal cannot be created, if it cannot.
pub open spec fn create_proposal_refusal(
    s: GovernanceStateView,
    creator: Seq<u8>,
    title: Seq<char>,
    description: Seq<char>,
    amount: u64,
) -> Option<GovernanceError> {
    if title.len() == 0 || description.len() == 0 {
        Some(GovernanceError::EmptyTitleOrDescription)
    } else if amount == 0 {
        Some(GovernanceError::ZeroAmount)
    } else if !is_donor(s.donors, creator) {
        Some(GovernanceError::CreatorNotDonor)
    } else if amount > s.total_donations {
        Some(GovernanceError::ExceedsAvailableFunds)
    } else {
        None
    }
}

/// The voting period of a new proposal: the requested one, or the shortest
/// one allowed if that is longer.
pub open spec fn voting_period(s: GovernanceStateView, duration_seconds: u64) -> nat {
    if duration_seconds < s.governance_settings.min_proposal_duration {
        s.governance_settings.min_proposal_duration as nat
    } else {
        duration_seconds as nat
    }
}

/// Whether the machine's numbers can hold the identifier and the expiry of
/// the proposal that a request would create. A request that is refused
/// creates nothing and always fits.
pub open spec fn proposal_fits(
    s: GovernanceStateView,
    creator: Seq<u8>,
    title: Seq<char>,
    description: Seq<char>,
    amount: u64,
    duration_seconds: u64,
    now: u64,
) -> bool {
    create_proposal_refusal(s, creator, title, description, amount) is None ==> s.next_proposal_id
        < u64::MAX && now + voting_period(s, duration_seconds) <= u64::MAX
}

/// The state and the answer after a request to create a proposal.
///
/// A refused request changes nothing. An accepted one appends an active
/// proposal without votes, numbered with the next identifier, that expires
/// one voting period after `now`.
pub open spec fn create_proposal(
    s: GovernanceStateView,
    creator: Seq<u8>,
    title: Seq<char>,
    description: Seq<char>,
    recipient: Seq<u8>,
    amount: u64,
    duration_seconds: u64,
    now: u64,
) -> (GovernanceStateView, Result<u64, GovernanceError>) {
    match create_proposal_refusal(s, creator, title, description, amount) {
        Some(error) => (s, Err(error)),
        None => {
            let proposal = FundingProposalView {
                id: s.next_proposal_id,
                creator,
                title,
                description,
                recipient,
                amount: amount as nat,
                status: ProposalStatus::Active,
                votes: Seq::empty(),
                yes_votes: 0,
                no_votes: 0,
                created_at: now as nat,
                expires_at: now as nat + voting_period(s, duration_seconds),
                executed_at: None,
            };
            (
                GovernanceStateView {
                    proposals: s.proposals.push(proposal),
                    next_proposal_id: s.next_proposal_id + 1,
                    ..s
                },
                Ok(s.next_proposal_id as u64),
            )
        },
    }
}

/// A proposal after one more vote was recorded and the tally was taken.
pub open spec fn with_vote(
    s: GovernanceStateView,
    proposal: FundingProposalView,
    vote: VoteView,
) -> FundingProposalView {
    let yes_votes = proposal.yes_votes + weight_for(vote, true);
    let no_votes = proposal.no_votes + weight_for(vote, false);
    FundingProposalView {
        votes: proposal.votes.push(vote),
        yes_votes,
        no_votes,
        status: decide(
            yes_votes,
            no_votes,
            s.total_voting_power(),
            s.governance_settings.quorum_percentage as nat,
            s.governance_settings.approval_threshold as nat,
        ),
        ..proposal
    }
}

/// The state and the answer after a request to vote.
///
/// The voter must be a donor and the proposal must exist and be active. A
/// vote that comes after the proposal's expiry is not recorded: the proposal
/// becomes rejected and the request fails. A donor's second vote changes
/// nothing. Otherwise the vote is recorded with the donor's present voting
/// power and the proposal is decided if the tally allows it.
pub open spec fn vote_on_proposal(
    s: GovernanceStateView,
    voter: Seq<u8>,
    proposal_id: u64,
    approve: bool,
    now: u64,
) -> (GovernanceStateView, Result<(), GovernanceError>) {
    if !is_donor(s.donors, voter) {
        (s, Err(GovernanceError::VoterNotDonor))
    } else if proposal_id >= s.proposals.len() {
        (s, Err(GovernanceError::ProposalNotFound))
    } else {
        let proposal = s.proposals[proposal_id as int];
        if proposal.status != ProposalStatus::Active {
            (s, Err(GovernanceError::ProposalNotActive))
        } else if now > proposal.expires_at {
            (
                s.with_proposal(
                    proposal_id as int,
                    FundingProposalView { status: ProposalStatus::Rejected, ..proposal },
                ),
                Err(GovernanceError::ProposalExpired),
            )
        } else if has_voted(proposal.votes, voter) {
            (s, Err(GovernanceError::AlreadyVoted))
        } else {
            let vote = VoteView {
                donor: voter,
                voting_power: donor_of(s.donors, voter).voting_power,
                approved: approve,
                timestamp: now as nat,
            };
            (s.with_proposal(proposal_id as int, with_vote(s, proposal, vote)), Ok(()))
        }
    }
}

/// The state and the answer after a request to execute a proposal.
///
/// The proposal must exist and be approved. If the treasury no longer covers
/// its amount, the proposal becomes rejected and the request fails. Otherwise
/// the proposal becomes executed at `now` and its amount leaves the treasury.
pub open spec fn execute_proposal(s: GovernanceStateView, proposal_id: u64, now: u64) -> (
    GovernanceStateView,
    Result<(), GovernanceError>,
) {
    if proposal_id >= s.proposals.len() {
        (s, Err(GovernanceError::ProposalNotFound))
    } else {
        let proposal = s.proposals[proposal_id as int];
        if proposal.status != ProposalStatus::Approved {
            (s, Err(GovernanceError::ProposalNotApproved))
        } else if proposal.amount > s.total_donations {
            (
                s.with_proposal(
                    proposal_id as int,
                    FundingProposalView { status: ProposalStatus::Rejected, ..proposal },
                ),
                Err(GovernanceError::InsufficientFunds),
            )
        } else {
            (
                GovernanceStateView {
                    proposals: s.proposals.update(
                        proposal_id as int,
                        FundingProposalView {
                            status: ProposalStatus::Executed,
                            executed_at: Some(now as nat),
                            ..proposal
                        },
                    ),
                    total_donations: (s.total_donations - proposal.amount) as nat,
                    ..s
                },
                Ok(()),
            )
        }
    }
}

/// Whether the machine's numbers can hold the identifier of the charity
/// project that a request would register. A request that is refused registers
/// nothing and always fits.
pub open spec fn charity_fits(s: GovernanceStateView, name: Seq<char>, description: Seq<char>)
    -> bool {
    name.len() > 0 && description.len() > 0 ==> s.next_project_id < u64::MAX
}

/// The state and the answer after a request to register a charity project.
pub open spec fn register_charity(
    s: GovernanceStateView,
    owner: Seq<u8>,
    name: Seq<char>,
    description: Seq<char>,
    now: u64,
) -> (GovernanceStateView, Result<u64, GovernanceError>) {
    if name.len() == 0 || description.len() == 0 {
        (s, Err(GovernanceError::EmptyNameOrDescription))
    } else {
        let project = CharityProjectView {
            id: s.next_project_id,
            owner,
            name,
            description,
            total_received: 0,
            proposals: Seq::empty(),
            created_at: now as nat,
        };
        (
            GovernanceStateView {
                charity_projects: s.charity_projects.push(project),
                next_project_id: s.next_project_id + 1,
                ..s
            },
            Ok(s.next_project_id as u64),
        )
    }
}

/// The settings and the answer after a request to change them.
///
/// The three values are taken in turn: the shortest voting period, the quorum
/// percentage, the approval threshold. A percentage above 100 ends the request
/// with an error; what was taken before it stays changed.
pub open spec fn updated_settings(
    settings: GovernanceSettings,
    min_duration: Option<u64>,
    quorum: Option<u8>,
    threshold: Option<u8>,
) -> (GovernanceSettings, Result<(), GovernanceError>) {
    let with_duration = match min_duration {
        Some(duration) => GovernanceSettings { min_proposal_duration: duration, ..settings },
        None => settings,
    };
    if quorum is Some && quorum->0 > 100 {
        (with_duration, Err(GovernanceError::QuorumOutOfRange))
    } else {
        let with_quorum = match quorum {
            Some(percentage) => GovernanceSettings {
                quorum_percentage: percentage,
                ..with_duration
            },
            None => with_duration,
        };
        if threshold is Some && threshold->0 > 100 {
            (with_quorum, Err(GovernanceError::ThresholdOutOfRange))
        } else {
            let with_threshold = match threshold {
                Some(percentage) => GovernanceSettings {
                    approval_threshold: percentage,
                    ..with_quorum
                },
                None => with_quorum,
            };
            (with_threshold, Ok(()))
        }
    }
}

/// The state and the answer after a request to change the settings.
pub open spec fn update_governance_settings(
    s: GovernanceStateView,
    min_duration: Option<u64>,
    quorum: Option<u8>,
    threshold: Option<u8>,
) -> (GovernanceStateView, Result<(), GovernanceError>) {
    let (settings, answer) = updated_settings(
        s.governance_settings,
        min_duration,
        quorum,
        threshold,
    );
    (GovernanceStateView { governance_settings: settings, ..s }, answer)
}

} // verus!

//! The governance state and the operations on it.

use crate::error::GovernanceError;
use crate::identity::{anonymous_bytes, Identity};
use crate::messages::{
    donation_confirmation, donation_confirmed, execution_confirmation, outcome,
    proposal_executed, settings_confirmation, settings_updated, vote_confirmation, vote_recorded,
};
use crate::model;
use crate::model::GovernanceStateView;
use crate::preservation::{
    lemma_cast_power_bounded, lemma_create_proposal_keeps_inv, lemma_donate_keeps_inv,
    lemma_donor_position_is_unique, lemma_execute_keeps_inv, lemma_vote_keeps_inv,
};
use crate::sums::{lemma_sum_bounds_each, lemma_sum_prefix, lemma_sum_push, sum};
use crate::tally::tally;
use crate::types::{
    vote_views, CharityProject, CharityProjectView, DonationRecord, Donor, DonorView,
    FundingProposal, FundingProposalView, GovernanceSettings, ProposalStatus, Vote,
};
use vstd::prelude::*;

verus! {

/// The amount of a donation while donations are simulated: one token, in its
/// smallest unit.
pub const SIMULATED_DONATION: u64 = 100_000_000;

/// The values of a list of donor records.
pub open spec fn donor_views(donors: Seq<Donor>) -> Seq<DonorView> {
    donors.map_values(|donor: Donor| donor@)
}

/// The values of a list of proposals.
pub open spec fn proposal_views(proposals: Seq<FundingProposal>) -> Seq<FundingProposalView> {
    proposals.map_values(|proposal: FundingProposal| proposal@)
}

/// The values of a list of charity projects.
pub open spec fn project_views(projects: Seq<CharityProject>) -> Seq<CharityProjectView> {
    projects.map_values(|project: CharityProject| project@)
}

/// Where the donor with this identity stands in the registry, if they are on
/// record.
pub(crate) fn position_of(donors: &Vec<Donor>, id: &Identity) -> (found: Option<usize>)
    ensures
        found is Some <==> model::is_donor(donor_views(donors@), id@),
        found matches Some(at) ==> at < donors.len() && donors[at as int].id@ == id@,
{
    let mut i: usize = 0;
    while i < donors.len()
        invariant
            i <= donors.len(),
            forall|j: int| 0 <= j < i ==> (#[trigger] donor_views(donors@)[j]).id != id@,
        decreases donors.len() - i,
    {
        if donors[i].id.same(id) {
            assert(donor_views(donors@)[i as int].id == id@);
            return Some(i);
        }
        i += 1;
    }
    None
}

/// Everything the engine keeps: donors, proposals, charity projects, the
/// treasury balance, the identifier counters and the settings.
#[derive(Debug, PartialEq, Eq)]
pub struct GovernanceState {
    /// The donors, in the order of their first donation.
    pub donors: Vec<Donor>,
    /// The proposals, in the order of their identifiers.
    pub proposals: Vec<FundingProposal>,
    /// The charity projects, in the order of their identifiers.
    pub charity_projects: Vec<CharityProject>,
    /// The treasury balance.
    pub total_donations: u64,
    /// The identifier that the next proposal gets.
    pub next_proposal_id: u64,
    /// The identifier that the next charity project gets.
    pub next_project_id: u64,
    /// The rules in force.
    pub governance_settings: GovernanceSettings,
}

impl View for GovernanceState {
    type V = GovernanceStateView;

    open spec fn view(&self) -> GovernanceStateView {
        GovernanceStateView {
            donors: donor_views(self.donors@),
            proposals: proposal_views(self.proposals@),
            charity_projects: project_views(self.charity_projects@),
            total_donations: self.total_donations as nat,
            next_proposal_id: self.next_proposal_id as nat,
            next_project_id: self.next_project_id as nat,
            governance_settings: self.governance_settings,
        }
    }
}

impl Default for GovernanceState {
    fn default() -> (state: Self)
        ensures
            state@ == GovernanceStateView::initial(),
            state@.total_voting_power() == 0,
            state.wf(),
    {
        GovernanceState::new()
    }
}

impl GovernanceState {
    /// The state meets the invariant of the engine, and the voting power of
    /// all donors together fits the machine's numbers.
    pub open spec fn wf(&self) -> bool {
        &&& self@.inv()
        &&& self@.total_voting_power() <= u64::MAX
    }

    /// The state of a new engine: nothing recorded, default settings.
    pub fn new() -> (state: GovernanceState)
        ensures
            state@ == GovernanceStateView::initial(),
            state@.total_voting_power() == 0,
            state.wf(),
    {
        let state = GovernanceState {
            donors: Vec::new(),
            proposals: Vec::new(),
            charity_projects: Vec::new(),
            total_donations: 0,
            next_proposal_id: 0,
            next_project_id: 0,
            governance_settings: GovernanceSettings::default(),
        };
        proof {
            assert(state@.donors =~= Seq::empty());
            assert(state@.proposals =~= Seq::empty());
            assert(state@.charity_projects =~= Seq::empty());
        }
        state
    }

    /// Whether the machine's numbers can hold the voting power of all donors
    /// after a donation of `amount`.
    pub fn donation_fits(&self, amount: u64) -> (fits: bool)
        requires
            self.wf(),
        ensures
            fits == model::donation_fits(self@, amount),
    {
        amount <= u64::MAX - self.total_voting_power()
    }

    /// Records a donation of `amount` by `donor` at time `now` and answers
    /// with its confirmation.
    pub fn donate(&mut self, donor: Identity, amount: u64, now: u64) -> (confirmation: String)
        requires
            old(self).wf(),
            donor@ != anonymous_bytes(),
            model::donation_fits(old(self)@, amount),
        ensures
            final(self)@ == model::donate(old(self)@, donor@, amount, now),
            final(self)@.total_voting_power() == old(self)@.total_voting_power() + amount,
            final(self).wf(),
            confirmation@ == donation_confirmation(amount),
    {
        proof {
            lemma_donate_keeps_inv(self@, donor@, amount, now);
            // Neither the treasury nor a donor's total exceeds the voting
            // power of all donors, so the sums below fit.
            self.lemma_amounts_fit();
        }
        let record = DonationRecord { timestamp: now, amount };
        match position_of(&self.donors, &donor) {
            Some(at) => {
                proof {
                    lemma_sum_bounds_each(model::voting_powers(self@.donors), at as int);
                }
                let entry = &mut self.donors[at];
                entry.total_donations = entry.total_donations + amount;
                entry.voting_power = entry.voting_power + amount;
                entry.donation_history.push(record);
                assert(self@.donors =~= old(self)@.donors.update(
                    at as int,
                    model::credited(old(self)@.donors[at as int], amount, now),
                ));
            },
            None => {
                let mut history: Vec<DonationRecord> = Vec::new();
                history.push(record);
                let entry = Donor {
                    id: donor,
                    total_donations: amount,
                    voting_power: amount,
                    donation_history: history,
                };
                self.donors.push(entry);
                assert(self@.donors =~= old(self)@.donors.push(entry@));
            },
        }
        self.total_donations = self.total_donations + amount;
        donation_confirmed(amount)
    }

    /// The voting power of all donors together.
    pub fn total_voting_power(&self) -> (total: u64)
        requires
            self.wf(),
        ensures
            total == self@.total_voting_power(),
    {
        let ghost powers = model::voting_powers(self@.donors);
        let mut total: u64 = 0;
        let mut i: usize = 0;
        while i < self.donors.len()
            invariant
                i <= self.donors.len(),
                powers == model::voting_powers(self@.donors),
                powers.len() == self.donors.len(),
                total == sum(powers.take(i as int)),
                sum(powers) <= u64::MAX,
            decreases self.donors.len() - i,
        {
            proof {
                assert(powers.take(i + 1) =~= powers.take(i as int).push(powers[i as int]));
                lemma_sum_push(powers.take(i as int), powers[i as int]);
                lemma_sum_prefix(powers, i + 1);
            }
            total = total + self.donors[i].voting_power;
            i += 1;
        }
        assert(powers.take(i as int) =~= powers);
        total
    }

    /// Why a proposal of `creator` for `amount` would be turned down, if it
    /// would be.
    pub fn create_proposal_refusal(
        &self,
        creator: &Identity,
        title: &String,
        description: &String,
        amount: u64,
    ) -> (refusal: Option<GovernanceError>)
        ensures
            refusal == model::create_proposal_refusal(
                self@,
                creator@,
                title@,
                description@,
                amount,
            ),
    {
        if title.as_str().is_empty() || description.as_str().is_empty() {
            Some(GovernanceError::EmptyTitleOrDescription)
        } else if amount == 0 {
            Some(GovernanceError::ZeroAmount)
        } else if position_of(&self.donors, creator).is_none() {
            Some(GovernanceError::CreatorNotDonor)
        } else if amount > self.total_donations {
            Some(GovernanceError::ExceedsAvailableFunds)
        } else {
            None
        }
    }

    /// The voting period of a new proposal: the requested one, or the
    /// shortest one allowed if that is longer.
    pub fn voting_period(&self, duration_seconds: u64) -> (period: u64)
        ensures
            period == model::voting_period(self@, duration_seconds),
    {
        if duration_seconds < self.governance_settings.min_proposal_duration {
            self.governance_settings.min_proposal_duration
        } else {
            duration_seconds
        }
    }

    /// Whether the machine's numbers can hold the identifier and the expiry
    /// of the proposal that a request would create.
    pub fn proposal_fits(
        &self,
        creator: &Identity,
        title: &String,
        description: &String,
        amount: u64,
        duration_seconds: u64,
        now: u64,
    ) -> (fits: bool)
        ensures
            fits == model::proposal_fits(
                self@,
                creator@,
                title@,
                description@,
                amount,
                duration_seconds,
                now,
            ),
    {
        if self.create_proposal_refusal(creator, title, description, amount).is_some() {
            true
        } else {
            self.next_proposal_id < u64::MAX && self.voting_period(duration_seconds) <= u64::MAX
                - now
        }
    }

    /// Creates a proposal to release `amount` to `recipient`, open to votes
    /// for `duration_seconds` or for the shortest voting period allowed if
    /// that is longer. Answers with the identifier of the new proposal.
    pub fn create_proposal(
        &mut self,
        creator: Identity,
        title: String,
        description: String,
        recipient: Identity,
        amount: u64,
        duration_seconds: u64,
        now: u64,
    ) -> (answer: Result<u64, GovernanceError>)
        requires
            old(self).wf(),
            creator@ != anonymous_bytes(),
            model::proposal_fits(
                old(self)@,
                creator@,
                title@,
                description@,
                amount,
                duration_seconds,
                now,
            ),
        ensures
            (final(self)@, answer) == model::create_proposal(
                old(self)@,
                creator@,
                title@,
                description@,
                recipient@,
                amount,
                duration_seconds,
                now,
            ),
            final(self).wf(),
    {
        proof {
            lemma_create_proposal_keeps_inv(
                self@,
                creator@,
                title@,
                description@,
                recipient@,
                amount,
                duration_seconds,
                now,
            );
        }
        if let Some(error) = self.create_proposal_refusal(&creator, &title, &description, amount) {
            return Err(error);
        }
        let duration = self.voting_period(duration_seconds);
        let proposal_id = self.next_proposal_id;
        self.next_proposal_id = self.next_proposal_id + 1;
        let proposal = FundingProposal {
            id: proposal_id,
            creator,
            title,
            description,
            recipient,
            amount,
            status: ProposalStatus::Active,
            votes: Vec::new(),
            yes_votes: 0,
            no_votes: 0,
            created_at: now,
            expires_at: now + duration,
            executed_at: None,
        };
        assert(proposal@.votes =~= Seq::empty());
        self.proposals.push(proposal);
        assert(self@.proposals =~= old(self)@.proposals.push(proposal@));
        Ok(proposal_id)
    }

    /// Whether the donor has a vote in the list.
    fn has_vote_of(votes: &Vec<Vote>, donor: &Identity) -> (found: bool)
        ensures
            found == model::has_voted(vote_views(votes@), donor@),
    {
        let mut i: usize = 0;
        while i < votes.len()
            invariant
                i <= votes.len(),
                forall|j: int| 0 <= j < i ==> (#[trigger] vote_views(votes@)[j]).donor != donor@,
            decreases votes.len() - i,
        {
            if votes[i].donor.same(donor) {
                assert(vote_views(votes@)[i as int].donor == donor@);
                return true;
            }
            i += 1;
        }
        false
    }

    /// Records the vote of `voter` on a proposal and decides the proposal if
    /// the tally allows it.
    ///
    /// A vote after the proposal's expiry is answered with an error and makes
    /// the proposal rejected.
    pub fn vote_on_proposal(&mut self, voter: Identity, proposal_id: u64, approve: bool, now: u64)
        -> (answer: Result<String, GovernanceError>)
        requires
            old(self).wf(),
            voter@ != anonymous_bytes(),
        ensures
            (final(self)@, outcome(answer)) == model::vote_on_proposal(
                old(self)@,
                voter@,
                proposal_id,
                approve,
                now,
            ),
            answer matches Ok(confirmation) ==> confirmation@ == vote_confirmation(),
            final(self).wf(),
    {
        proof {
            lemma_vote_keeps_inv(self@, voter@, proposal_id, approve, now);
        }
        let at = match position_of(&self.donors, &voter) {
            Some(at) => at,
            None => {
                return Err(GovernanceError::VoterNotDonor);
            },
        };
        proof {
            lemma_donor_position_is_unique(self@.donors, at as int);
        }
        let voting_power = self.donors[at].voting_power;
        let settings = self.governance_settings;
        let total = self.total_voting_power();
        if proposal_id >= self.proposals.len() as u64 {
            return Err(GovernanceError::ProposalNotFound);
        }
        let index = proposal_id as usize;
        if self.proposals[index].status != ProposalStatus::Active {
            return Err(GovernanceError::ProposalNotActive);
        }
        if now > self.proposals[index].expires_at {
            self.proposals[index].status = ProposalStatus::Rejected;
            assert(self@.proposals =~= old(self)@.proposals.update(
                index as int,
                FundingProposalView {
                    status: ProposalStatus::Rejected,
                    ..old(self)@.proposals[index as int]
                },
            ));
            return Err(GovernanceError::ProposalExpired);
        }
        if Self::has_vote_of(&self.proposals[index].votes, &voter) {
            return Err(GovernanceError::AlreadyVoted);
        }
        let vote = Vote { donor: voter, voting_power, approved: approve, timestamp: now };
        let ghost before = self@.proposals[index as int];
        let ghost after = model::with_vote(self@, before, vote@);
        proof {
            // With this vote the proposal is still consistent, so what is cast
            // on it stays within the voting power of all donors: the running
            // totals below fit.
            let decided = model::vote_on_proposal(self@, voter@, proposal_id, approve, now).0;
            assert(decided.proposals[index as int] == after);
            lemma_cast_power_bounded(self@.donors, after.votes);
        }
        let proposal = &mut self.proposals[index];
        proposal.votes.push(vote);
        if approve {
            proposal.yes_votes = proposal.yes_votes + voting_power;
        } else {
            proposal.no_votes = proposal.no_votes + voting_power;
        }
        proposal.status = tally(
            proposal.yes_votes,
            proposal.no_votes,
            total,
            settings.quorum_percentage,
            settings.approval_threshold,
        );
        assert(self.proposals[index as int]@ == after) by {
            assert(self.proposals[index as int]@.votes =~= before.votes.push(vote@));
        }
        assert(self@.proposals =~= old(self)@.proposals.update(index as int, after));
        Ok(vote_recorded())
    }

    /// Executes an approved proposal at time `now`: its amount leaves the
    /// treasury.
    ///
    /// If the treasury no longer covers the amount, the answer is an error and
    /// the proposal becomes rejected.
    #[allow(unused_variables)]
    pub fn execute_proposal(&mut self, caller: Identity, proposal_id: u64, now: u64) -> (answer:
        Result<String, GovernanceError>)
        requires
            old(self).wf(),
            caller@ != anonymous_bytes(),
        ensures
            (final(self)@, outcome(answer)) == model::execute_proposal(
                old(self)@,
                proposal_id,
                now,
            ),
            answer matches Ok(confirmation) ==> confirmation@ == execution_confirmation(),
            final(self).wf(),
    {
        proof {
            lemma_execute_keeps_inv(self@, proposal_id, now);
        }
        let treasury_balance = self.total_donations;
        if proposal_id >= self.proposals.len() as u64 {
            return Err(GovernanceError::ProposalNotFound);
        }
        let index = proposal_id as usize;
        if self.proposals[index].status != ProposalStatus::Approved {
            return Err(GovernanceError::ProposalNotApproved);
        }
        let amount = self.proposals[index].amount;
        if amount > treasury_balance {
            self.proposals[index].status = ProposalStatus::Rejected;
            assert(self@.proposals =~= old(self)@.proposals.update(
                index as int,
                FundingProposalView {
                    status: ProposalStatus::Rejected,
                    ..old(self)@.proposals[index as int]
                },
            ));
            return Err(GovernanceError::InsufficientFunds);
        }
        let proposal = &mut self.proposals[index];
        proposal.status = ProposalStatus::Executed;
        proposal.executed_at = Some(now);
        self.total_donations = self.total_donations - amount;
        assert(self@.proposals =~= old(self)@.proposals.update(
            index as int,
            FundingProposalView {
                status: ProposalStatus::Executed,
                executed_at: Some(now as nat),
                ..old(self)@.proposals[index as int]
            },
        ));
        Ok(proposal_executed())
    }

    /// Whether the machine's numbers can hold the identifier of the charity
    /// project that a request would register.
    pub fn charity_fits(&self, name: &String, description: &String) -> (fits: bool)
        ensures
            fits == model::charity_fits(self@, name@, description@),
    {
        name.as_str().is_empty() || description.as_str().is_empty() || self.next_project_id
            < u64::MAX
    }

    /// Registers a charity project owned by `owner` and answers with its
    /// identifier.
    pub fn register_charity(&mut self, owner: Identity, name: String, description: String, now: u64)
        -> (answer: Result<u64, GovernanceError>)
        requires
            old(self).wf(),
            owner@ != anonymous_bytes(),
            model::charity_fits(old(self)@, name@, description@),
        ensures
            (final(self)@, answer) == model::register_charity(
                old(self)@,
                owner@,
                name@,
                description@,
                now,
            ),
            final(self).wf(),
    {
        if name.as_str().is_empty() || description.as_str().is_empty() {
            return Err(GovernanceError::EmptyNameOrDescription);
        }
        let project_id = self.next_project_id;
        self.next_project_id = self.next_project_id + 1;
        let project = CharityProject {
            id: project_id,
            owner,
            name,
            description,
            total_received: 0,
            proposals: Vec::new(),
            created_at: now,
        };
        self.charity_projects.push(project);
        assert(self@.charity_projects =~= old(self)@.charity_projects.push(project@));
        Ok(project_id)
    }

    /// Changes the settings: each value that is given replaces the one in
    /// force.
    ///
    /// The values are taken in turn. A percentage above 100 is answered with
    /// an error; the values taken before it stay changed.
    #[allow(unused_variables)]
    pub fn update_governance_settings(
        &mut self,
        caller: Identity,
        min_duration: Option<u64>,
        quorum: Option<u8>,
        threshold: Option<u8>,
    ) -> (answer: Result<String, GovernanceError>)
        requires
            old(self).wf(),
            caller@ != anonymous_bytes(),
        ensures
            (final(self)@, outcome(answer)) == model::update_governance_settings(
                old(self)@,
                min_duration,
                quorum,
                threshold,
            ),
            answer matches Ok(confirmation) ==> confirmation@ == settings_confirmation(),
            final(self).wf(),
    {
        if let Some(duration) = min_duration {
            self.governance_settings.min_proposal_duration = duration;
        }
        if let Some(percentage) = quorum {
            if percentage > 100 {
                return Err(GovernanceError::QuorumOutOfRange);
            }
            self.governance_settings.quorum_percentage = percentage;
        }
        if let Some(percentage) = threshold {
            if percentage > 100 {
                return Err(GovernanceError::ThresholdOutOfRange);
            }
            self.governance_settings.approval_threshold = percentage;
        }
        Ok(settings_updated())
    }

    /// The record of the donor with this identity, if they are on record.
    pub fn get_donor(&self, id: &Identity) -> (donor: Option<Donor>)
        requires
            self.wf(),
        ensures
            donor is Some <==> model::is_donor(self@.donors, id@),
            donor matches Some(record) ==> record@ == model::donor_of(self@.donors, id@)
                && record@.id == id@ && record.voting_power == record.total_donations,
    {
        match position_of(&self.donors, id) {
            Some(at) => {
                proof {
                    lemma_donor_position_is_unique(self@.donors, at as int);
                }
                Some(self.donors[at].clone())
            },
            None => None,
        }
    }

    /// The proposal with this identifier, if there is one.
    pub fn get_proposal(&self, id: u64) -> (proposal: Option<FundingProposal>)
        ensures
            proposal is Some <==> id < self@.proposals.len(),
            proposal matches Some(record) ==> record@ == self@.proposals[id as int],
    {
        if id < self.proposals.len() as u64 {
            Some(self.proposals[id as usize].clone())
        } else {
            None
        }
    }

    /// The proposals that are still open to votes, in the order of their
    /// identifiers.
    pub fn list_active_proposals(&self) -> (proposals: Vec<FundingProposal>)
        ensures
            proposal_views(proposals@) == model::active_proposals(self@.proposals),
    {
        let mut active: Vec<FundingProposal> = Vec::new();
        let mut i: usize = 0;
        proof {
            reveal(Seq::filter);
        }
        while i < self.proposals.len()
            invariant
                i <= self.proposals.len(),
                proposal_views(active@) == model::active_proposals(self@.proposals.take(i as int)),
            decreases self.proposals.len() - i,
        {
            proof {
                assert(self@.proposals.take(i + 1) =~= self@.proposals.take(i as int).push(
                    self@.proposals[i as int],
                ));
                model::lemma_active_proposals_push(
                    self@.proposals.take(i as int),
                    self@.proposals[i as int],
                );
            }
            if self.proposals[i].status == ProposalStatus::Active {
                let ghost before = proposal_views(active@);
                let copy = self.proposals[i].clone();
                active.push(copy);
            }
            i += 1;
        }
        assert(self@.proposals.take(i as int) =~= self@.proposals);
        active
    }

    /// All proposals, in the order of their identifiers.
    pub fn list_all_proposals(&self) -> (proposals: Vec<FundingProposal>)
        ensures
            proposal_views(proposals@) == self@.proposals,
    {
        let mut all: Vec<FundingProposal> = Vec::new();
        let mut i: usize = 0;
        while i < self.proposals.len()
            invariant
                i <= self.proposals.len(),
                proposal_views(all@) =~= self@.proposals.take(i as int),
            decreases self.proposals.len() - i,
        {
            let ghost before = proposal_views(all@);
            let copy = self.proposals[i].clone();
            all.push(copy);
            assert(proposal_views(all@) =~= before.push(copy@));
            i += 1;
        }
        all
    }

    /// The charity project with this identifier, if there is one.
    pub fn get_charity_project(&self, id: u64) -> (project: Option<CharityProject>)
        ensures
            project is Some <==> id < self@.charity_projects.len(),
            project matches Some(record) ==> record@ == self@.charity_projects[id as int],
    {
        if id < self.charity_projects.len() as u64 {
            Some(self.charity_projects[id as usize].clone())
        } else {
            None
        }
    }

    /// All charity projects, in the order of their identifiers.
    pub fn list_charity_projects(&self) -> (projects: Vec<CharityProject>)
        ensures
            project_views(projects@) == self@.charity_projects,
    {
        let mut all: Vec<CharityProject> = Vec::new();
        let mut i: usize = 0;
        while i < self.charity_projects.len()
            invariant
                i <= self.charity_projects.len(),
                project_views(all@) =~= self@.charity_projects.take(i as int),
            decreases self.charity_projects.len() - i,
        {
            let ghost before = project_views(all@);
            let copy = self.charity_projects[i].clone();
            all.push(copy);
            assert(project_views(all@) =~= before.push(copy@));
            i += 1;
        }
        all
    }

    /// The treasury balance.
    pub fn get_treasury_balance(&self) -> (balance: u64)
        ensures
            balance == self@.total_donations,
    {
        self.total_donations
    }

    /// The settings in force.
    pub fn get_governance_settings(&self) -> (settings: GovernanceSettings)
        ensures
            settings == self@.governance_settings,
    {
        self.governance_settings
    }

    /// In a well-formed state the treasury balance is no more than the voting
    /// power of all donors together.
    proof fn lemma_amounts_fit(&self)
        requires
            self.wf(),
        ensures
            self@.total_donations <= self@.total_voting_power(),
    {
        assert(model::donation_totals(self@.donors) =~= model::voting_powers(self@.donors));
    }
}

} // verus!

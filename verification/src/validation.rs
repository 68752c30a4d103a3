//! Checking a governance state at run time, before it is taken over from
//! outside: a state that comes back from storage is installed only if it is
//! well formed.

use crate::model;
use crate::model::{distinct_donors, distinct_voters, donor_consistent, proposal_consistent};
use crate::preservation::lemma_donor_position_is_unique;
use crate::state::{donor_views, position_of, proposal_views, GovernanceState};
use crate::sums::{lemma_sum_push, sum};
use crate::types::{vote_views, DonationRecord, Donor, FundingProposal, ProposalStatus, Vote};
use vstd::prelude::*;

verus! {

/// The sum of the amounts of a list of donations.
fn history_sum(records: &Vec<DonationRecord>) -> (total: u128)
    ensures
        total == model::history_total(records@),
{
    let ghost amounts = model::amounts(records@);
    let mut total: u128 = 0;
    let mut i: usize = 0;
    while i < records.len()
        invariant
            i <= records.len(),
            amounts == model::amounts(records@),
            total == sum(amounts.take(i as int)),
            total <= i * 0xffff_ffff_ffff_ffff,
        decreases records.len() - i,
    {
        proof {
            assert(amounts.take(i + 1) =~= amounts.take(i as int).push(amounts[i as int]));
            lemma_sum_push(amounts.take(i as int), amounts[i as int]);
        }
        total = total + records[i].amount as u128;
        i += 1;
    }
    assert(amounts.take(i as int) =~= amounts);
    total
}

/// The voting power of all donors together.
fn voting_power_sum(donors: &Vec<Donor>) -> (total: u128)
    ensures
        total == model::total_voting_power(donor_views(donors@)),
{
    let ghost powers = model::voting_powers(donor_views(donors@));
    let mut total: u128 = 0;
    let mut i: usize = 0;
    while i < donors.len()
        invariant
            i <= donors.len(),
            powers == model::voting_powers(donor_views(donors@)),
            total == sum(powers.take(i as int)),
            total <= i * 0xffff_ffff_ffff_ffff,
        decreases donors.len() - i,
    {
        proof {
            assert(powers.take(i + 1) =~= powers.take(i as int).push(powers[i as int]));
            lemma_sum_push(powers.take(i as int), powers[i as int]);
        }
        total = total + donors[i].voting_power as u128;
        i += 1;
    }
    assert(powers.take(i as int) =~= powers);
    total
}

/// Everything that was ever donated.
fn donated_sum(donors: &Vec<Donor>) -> (total: u128)
    ensures
        total == model::total_donated(donor_views(donors@)),
{
    let ghost totals = model::donation_totals(donor_views(donors@));
    let mut total: u128 = 0;
    let mut i: usize = 0;
    while i < donors.len()
        invariant
            i <= donors.len(),
            totals == model::donation_totals(donor_views(donors@)),
            total == sum(totals.take(i as int)),
            total <= i * 0xffff_ffff_ffff_ffff,
        decreases donors.len() - i,
    {
        proof {
            assert(totals.take(i + 1) =~= totals.take(i as int).push(totals[i as int]));
            lemma_sum_push(totals.take(i as int), totals[i as int]);
        }
        total = total + donors[i].total_donations as u128;
        i += 1;
    }
    assert(totals.take(i as int) =~= totals);
    total
}

/// Everything that executed proposals have released.
fn released_sum(proposals: &Vec<FundingProposal>) -> (total: u128)
    ensures
        total == model::total_released(proposal_views(proposals@)),
        total <= proposals.len() * 0xffff_ffff_ffff_ffff,
{
    let ghost releases = model::releases(proposal_views(proposals@));
    let mut total: u128 = 0;
    let mut i: usize = 0;
    while i < proposals.len()
        invariant
            i <= proposals.len(),
            releases == model::releases(proposal_views(proposals@)),
            total == sum(releases.take(i as int)),
            total <= i * 0xffff_ffff_ffff_ffff,
        decreases proposals.len() - i,
    {
        proof {
            assert(releases.take(i + 1) =~= releases.take(i as int).push(releases[i as int]));
            lemma_sum_push(releases.take(i as int), releases[i as int]);
        }
        if proposals[i].status == ProposalStatus::Executed {
            total = total + proposals[i].amount as u128;
        }
        i += 1;
    }
    assert(releases.take(i as int) =~= releases);
    total
}

/// The voting power cast for one side.
fn cast_power_sum(votes: &Vec<Vote>, approved: bool) -> (total: u128)
    ensures
        total == model::cast_power(vote_views(votes@), approved),
{
    let ghost weights = model::weights(vote_views(votes@), approved);
    let mut total: u128 = 0;
    let mut i: usize = 0;
    while i < votes.len()
        invariant
            i <= votes.len(),
            weights == model::weights(vote_views(votes@), approved),
            total == sum(weights.take(i as int)),
            total <= i * 0xffff_ffff_ffff_ffff,
        decreases votes.len() - i,
    {
        proof {
            assert(weights.take(i + 1) =~= weights.take(i as int).push(weights[i as int]));
            lemma_sum_push(weights.take(i as int), weights[i as int]);
        }
        if votes[i].approved == approved {
            total = total + votes[i].voting_power as u128;
        }
        i += 1;
    }
    assert(weights.take(i as int) =~= weights);
    total
}

/// Whether every donor record is consistent.
fn donors_are_consistent(donors: &Vec<Donor>) -> (ok: bool)
    ensures
        ok == (forall|i: int|
            0 <= i < donors.len() ==> donor_consistent(
                #[trigger] donor_views(donors@)[i],
            )),
{
    let mut i: usize = 0;
    while i < donors.len()
        invariant
            i <= donors.len(),
            forall|j: int|
                0 <= j < i ==> donor_consistent(
                    #[trigger] donor_views(donors@)[j],
                ),
        decreases donors.len() - i,
    {
        let donor = &donors[i];
        let recorded = history_sum(&donor.donation_history);
        if donor.voting_power != donor.total_donations || donor.total_donations as u128
            != recorded {
            assert(!donor_consistent(donor_views(donors@)[i as int]));
            return false;
        }
        i += 1;
    }
    true
}

/// Whether no identity has two donor records.
fn donors_are_distinct(donors: &Vec<Donor>) -> (ok: bool)
    ensures
        ok == distinct_donors(donor_views(donors@)),
{
    let ghost views = donor_views(donors@);
    let mut j: usize = 0;
    while j < donors.len()
        invariant
            j <= donors.len(),
            views == donor_views(donors@),
            forall|a: int, b: int| 0 <= a < b < j ==> (#[trigger] views[a]).id != (
            #[trigger] views[b]).id,
        decreases donors.len() - j,
    {
        let mut i: usize = 0;
        while i < j
            invariant
                i <= j < donors.len(),
                views == donor_views(donors@),
                forall|a: int| 0 <= a < i ==> (#[trigger] views[a]).id != views[j as int].id,
            decreases j - i,
        {
            if donors[i].id.same(&donors[j].id) {
                assert(views[i as int].id == views[j as int].id);
                return false;
            }
            i += 1;
        }
        j += 1;
    }
    true
}

/// Whether no donor has two votes in the list.
fn voters_are_distinct(votes: &Vec<Vote>) -> (ok: bool)
    ensures
        ok == distinct_voters(vote_views(votes@)),
{
    let ghost views = vote_views(votes@);
    let mut j: usize = 0;
    while j < votes.len()
        invariant
            j <= votes.len(),
            views == vote_views(votes@),
            forall|a: int, b: int| 0 <= a < b < j ==> (#[trigger] views[a]).donor != (
            #[trigger] views[b]).donor,
        decreases votes.len() - j,
    {
        let mut i: usize = 0;
        while i < j
            invariant
                i <= j < votes.len(),
                views == vote_views(votes@),
                forall|a: int| 0 <= a < i ==> (#[trigger] views[a]).donor != views[j as int].donor,
            decreases j - i,
        {
            if votes[i].donor.same(&votes[j].donor) {
                assert(views[i as int].donor == views[j as int].donor);
                return false;
            }
            i += 1;
        }
        j += 1;
    }
    true
}

/// Whether every vote in the list comes from a known donor and was cast with
/// no more voting power than that donor has.
fn votes_are_backed(donors: &Vec<Donor>, votes: &Vec<Vote>) -> (ok: bool)
    requires
        distinct_donors(donor_views(donors@)),
    ensures
        ok == (forall|i: int|
            0 <= i < votes.len() ==> model::backed(
                donor_views(donors@),
                #[trigger] vote_views(votes@)[i],
            )),
{
    let ghost registry = donor_views(donors@);
    let ghost views = vote_views(votes@);
    let mut i: usize = 0;
    while i < votes.len()
        invariant
            i <= votes.len(),
            registry == donor_views(donors@),
            views == vote_views(votes@),
            distinct_donors(registry),
            forall|j: int| 0 <= j < i ==> model::backed(registry, #[trigger] views[j]),
        decreases votes.len() - i,
    {
        let vote = &votes[i];
        match position_of(donors, &vote.donor) {
            Some(at) => {
                proof {
                    lemma_donor_position_is_unique(registry, at as int);
                }
                if vote.voting_power > donors[at].voting_power {
                    // No other donor has this identity, so none backs the vote.
                    assert(!model::backed(registry, views[i as int])) by {
                        assert forall|k: int|
                            0 <= k < registry.len() && (#[trigger] registry[k]).id
                                == views[i as int].donor implies k == at by {
                            lemma_donor_position_is_unique(registry, k);
                        }
                    }
                    return false;
                }
            },
            None => {
                assert(!model::backed(registry, views[i as int]));
                return false;
            },
        }
        i += 1;
    }
    true
}

/// Whether a proposal on record is consistent with the registry of donors.
fn proposal_is_consistent(donors: &Vec<Donor>, proposal: &FundingProposal) -> (ok: bool)
    requires
        distinct_donors(donor_views(donors@)),
    ensures
        ok == proposal_consistent(donor_views(donors@), proposal@),
{
    if proposal.amount == 0 || proposal.created_at > proposal.expires_at {
        return false;
    }
    if position_of(donors, &proposal.creator).is_none() {
        return false;
    }
    if cast_power_sum(&proposal.votes, true) != proposal.yes_votes as u128 {
        return false;
    }
    if cast_power_sum(&proposal.votes, false) != proposal.no_votes as u128 {
        return false;
    }
    if !voters_are_distinct(&proposal.votes) {
        return false;
    }
    if !votes_are_backed(donors, &proposal.votes) {
        return false;
    }
    if (proposal.status == ProposalStatus::Executed) != proposal.executed_at.is_some() {
        return false;
    }
    if (proposal.status == ProposalStatus::Approved || proposal.status
        == ProposalStatus::Executed) && proposal.yes_votes == 0 && proposal.no_votes == 0 {
        return false;
    }
    true
}

impl GovernanceState {
    /// Whether the proposals are numbered in order from 0 and each is
    /// consistent.
    fn proposals_are_consistent(&self) -> (ok: bool)
        requires
            distinct_donors(self@.donors),
        ensures
            ok == self@.proposals_consistent(),
    {
        let count = self.proposals.len();
        if self.next_proposal_id != count as u64 {
            return false;
        }
        let mut i: usize = 0;
        while i < count
            invariant
                i <= count == self.proposals.len(),
                distinct_donors(self@.donors),
                forall|j: int|
                    0 <= j < i ==> (#[trigger] self@.proposals[j]).id == j
                        && proposal_consistent(self@.donors, self@.proposals[j]),
            decreases count - i,
        {
            let proposal = &self.proposals[i];
            if proposal.id != i as u64 || !proposal_is_consistent(&self.donors, proposal) {
                assert(!(self@.proposals[i as int].id == i && proposal_consistent(
                    self@.donors,
                    self@.proposals[i as int],
                )));
                return false;
            }
            i += 1;
        }
        true
    }

    /// Whether the charity projects are numbered in order from 0.
    fn projects_are_consistent(&self) -> (ok: bool)
        ensures
            ok == self@.projects_consistent(),
    {
        let count = self.charity_projects.len();
        if self.next_project_id != count as u64 {
            return false;
        }
        let mut i: usize = 0;
        while i < count
            invariant
                i <= count == self.charity_projects.len(),
                forall|j: int| 0 <= j < i ==> (#[trigger] self@.charity_projects[j]).id == j,
            decreases count - i,
        {
            if self.charity_projects[i].id != i as u64 {
                assert(self@.charity_projects[i as int].id != i);
                return false;
            }
            i += 1;
        }
        true
    }

    /// Whether the state is well formed: whether it meets the invariant of the
    /// engine and the voting power of all donors together fits the machine's
    /// numbers.
    pub fn is_well_formed(&self) -> (ok: bool)
        ensures
            ok == self.wf(),
    {
        if self.governance_settings.quorum_percentage > 100
            || self.governance_settings.approval_threshold > 100 {
            return false;
        }
        if !donors_are_consistent(&self.donors) || !donors_are_distinct(&self.donors) {
            return false;
        }
        if voting_power_sum(&self.donors) > u64::MAX as u128 {
            return false;
        }
        if !self.proposals_are_consistent() || !self.projects_are_consistent() {
            return false;
        }
        let released = released_sum(&self.proposals);
        let donated = donated_sum(&self.donors);
        self.total_donations as u128 + released == donated
    }

    /// A copy of the whole state, as it is saved before the engine is
    /// suspended.
    pub fn capture(&self) -> (snapshot: GovernanceState)
        ensures
            snapshot@ == self@,
    {
        let snapshot = GovernanceState {
            donors: self.donors.clone(),
            proposals: self.proposals.clone(),
            charity_projects: self.charity_projects.clone(),
            total_donations: self.total_donations,
            next_proposal_id: self.next_proposal_id,
            next_project_id: self.next_project_id,
            governance_settings: self.governance_settings,
        };
        assert(snapshot@.donors =~= self@.donors);
        assert(snapshot@.proposals =~= self@.proposals);
        assert(snapshot@.charity_projects =~= self@.charity_projects);
        snapshot
    }

    /// Replaces the whole state by a saved one, as it is done when the engine
    /// is resumed.
    pub fn install(&mut self, snapshot: GovernanceState)
        requires
            snapshot.wf(),
        ensures
            *final(self) == snapshot,
            final(self).wf(),
    {
        *self = snapshot;
    }
}

} // verus!

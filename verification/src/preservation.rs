//! Every operation keeps the invariant of the engine.

use crate::model::{
    amounts, backed, cast_power, create_proposal, create_proposal_refusal, credited,
    distinct_donors, distinct_voters, donate, donation_totals, donor_of, donor_position,
    execute_proposal, has_voted, history_total, is_donor, new_donor, proposal_consistent,
    released, releases, total_donated, total_released, total_voting_power, vote_on_proposal,
    voting_powers, weight_for, weights, with_vote, GovernanceStateView,
};
use crate::sums::{lemma_sum_push, lemma_sum_remove, lemma_sum_update};
use crate::types::{DonationRecord, DonorView, FundingProposalView, ProposalStatus, VoteView};
use vstd::prelude::*;

verus! {

/// One registry follows another when it keeps every donor in place, under the
/// same identity and with no less voting power, and loses none.
pub open spec fn follows(before: Seq<DonorView>, after: Seq<DonorView>) -> bool {
    &&& before.len() <= after.len()
    &&& forall|i: int|
        0 <= i < before.len() ==> (#[trigger] after[i]).id == before[i].id && before[i].voting_power
            <= after[i].voting_power
}

/// A donor stays a donor in every registry that follows.
pub proof fn lemma_follows_keeps_donor(before: Seq<DonorView>, after: Seq<DonorView>, id: Seq<u8>)
    requires
        follows(before, after),
        is_donor(before, id),
    ensures
        is_donor(after, id),
{
    let k = donor_position(before, id);
    assert(after[k].id == id);
}

/// A vote stays backed in every registry that follows.
pub proof fn lemma_follows_keeps_backing(
    before: Seq<DonorView>,
    after: Seq<DonorView>,
    vote: VoteView,
)
    requires
        follows(before, after),
        backed(before, vote),
    ensures
        backed(after, vote),
{
    let k = choose|k: int|
        0 <= k < before.len() && (#[trigger] before[k]).id == vote.donor && vote.voting_power
            <= before[k].voting_power;
    assert(after[k].id == vote.donor && vote.voting_power <= after[k].voting_power);
}

/// With distinct identities, a donor stands where their identity is found.
pub proof fn lemma_donor_position_is_unique(donors: Seq<DonorView>, at: int)
    requires
        distinct_donors(donors),
        0 <= at < donors.len(),
    ensures
        is_donor(donors, donors[at].id),
        donor_position(donors, donors[at].id) == at,
        donor_of(donors, donors[at].id) == donors[at],
{
}

/// One more record adds its amount to the total of a history.
pub proof fn lemma_history_total_push(records: Seq<DonationRecord>, record: DonationRecord)
    ensures
        history_total(records.push(record)) == history_total(records) + record.amount,
{
    assert(amounts(records.push(record)) =~= amounts(records).push(record.amount as nat));
    lemma_sum_push(amounts(records), record.amount as nat);
}

/// What a new donor adds to the totals of the registry.
pub proof fn lemma_registry_push(donors: Seq<DonorView>, donor: DonorView)
    ensures
        total_voting_power(donors.push(donor)) == total_voting_power(donors) + donor.voting_power,
        total_donated(donors.push(donor)) == total_donated(donors) + donor.total_donations,
{
    assert(voting_powers(donors.push(donor)) =~= voting_powers(donors).push(donor.voting_power));
    lemma_sum_push(voting_powers(donors), donor.voting_power);
    assert(donation_totals(donors.push(donor)) =~= donation_totals(donors).push(
        donor.total_donations,
    ));
    lemma_sum_push(donation_totals(donors), donor.total_donations);
}

/// What a changed donor record changes in the totals of the registry.
pub proof fn lemma_registry_update(donors: Seq<DonorView>, at: int, donor: DonorView)
    requires
        0 <= at < donors.len(),
    ensures
        total_voting_power(donors.update(at, donor)) + donors[at].voting_power
            == total_voting_power(donors) + donor.voting_power,
        total_donated(donors.update(at, donor)) + donors[at].total_donations == total_donated(
            donors,
        ) + donor.total_donations,
{
    assert(voting_powers(donors.update(at, donor)) =~= voting_powers(donors).update(
        at,
        donor.voting_power,
    ));
    lemma_sum_update(voting_powers(donors), at, donor.voting_power);
    assert(donation_totals(donors.update(at, donor)) =~= donation_totals(donors).update(
        at,
        donor.total_donations,
    ));
    lemma_sum_update(donation_totals(donors), at, donor.total_donations);
}

/// What a new proposal adds to the total released.
pub proof fn lemma_released_push(proposals: Seq<FundingProposalView>, proposal: FundingProposalView)
    ensures
        total_released(proposals.push(proposal)) == total_released(proposals) + released(proposal),
{
    assert(releases(proposals.push(proposal)) =~= releases(proposals).push(released(proposal)));
    lemma_sum_push(releases(proposals), released(proposal));
}

/// What a changed proposal changes in the total released.
pub proof fn lemma_released_update(
    proposals: Seq<FundingProposalView>,
    at: int,
    proposal: FundingProposalView,
)
    requires
        0 <= at < proposals.len(),
    ensures
        total_released(proposals.update(at, proposal)) + released(proposals[at]) == total_released(
            proposals,
        ) + released(proposal),
{
    assert(releases(proposals.update(at, proposal)) =~= releases(proposals).update(
        at,
        released(proposal),
    ));
    lemma_sum_update(releases(proposals), at, released(proposal));
}

/// What one more vote adds to the power cast for a side.
pub proof fn lemma_cast_power_push(votes: Seq<VoteView>, vote: VoteView, approved: bool)
    ensures
        cast_power(votes.push(vote), approved) == cast_power(votes, approved) + weight_for(
            vote,
            approved,
        ),
{
    assert(weights(votes.push(vote), approved) =~= weights(votes, approved).push(
        weight_for(vote, approved),
    ));
    lemma_sum_push(weights(votes, approved), weight_for(vote, approved));
}

/// The power cast on a proposal, for and against, is no more than the voting
/// power of all donors: every vote is backed by its own donor.
pub proof fn lemma_cast_power_bounded(donors: Seq<DonorView>, votes: Seq<VoteView>)
    requires
        distinct_donors(donors),
        distinct_voters(votes),
        forall|i: int| 0 <= i < votes.len() ==> backed(donors, #[trigger] votes[i]),
    ensures
        cast_power(votes, true) + cast_power(votes, false) <= total_voting_power(donors),
    decreases votes.len(),
{
    if votes.len() > 0 {
        // Set the last vote and its donor aside: the earlier votes are backed
        // by the other donors.
        let earlier = votes.drop_last();
        let vote = votes.last();
        let k = choose|k: int|
            0 <= k < donors.len() && (#[trigger] donors[k]).id == vote.donor && vote.voting_power
                <= donors[k].voting_power;
        let others = donors.remove(k);
        assert forall|i: int| 0 <= i < earlier.len() implies backed(
            others,
            #[trigger] earlier[i],
        ) by {
            let j = choose|j: int|
                0 <= j < donors.len() && (#[trigger] donors[j]).id == votes[i].donor
                    && votes[i].voting_power <= donors[j].voting_power;
            if j < k {
                assert(others[j] == donors[j]);
            } else {
                assert(others[j - 1] == donors[j]);
            }
        }
        lemma_cast_power_bounded(others, earlier);
        assert(votes =~= earlier.push(vote));
        lemma_cast_power_push(earlier, vote, true);
        lemma_cast_power_push(earlier, vote, false);
        assert(voting_powers(others) =~= voting_powers(donors).remove(k));
        lemma_sum_remove(voting_powers(donors), k);
    }
}

/// Proposals that were consistent stay so in every registry that follows.
pub proof fn lemma_follows_keeps_proposals(before: GovernanceStateView, after: GovernanceStateView)
    requires
        before.proposals_consistent(),
        follows(before.donors, after.donors),
        after.proposals == before.proposals,
        after.next_proposal_id == before.next_proposal_id,
    ensures
        after.proposals_consistent(),
{
    assert forall|i: int| 0 <= i < after.proposals.len() implies (#[trigger] after.proposals[i]).id
        == i && proposal_consistent(after.donors, after.proposals[i]) by {
        let proposal = before.proposals[i];
        lemma_follows_keeps_donor(before.donors, after.donors, proposal.creator);
        assert forall|j: int| 0 <= j < proposal.votes.len() implies backed(
            after.donors,
            #[trigger] proposal.votes[j],
        ) by {
            lemma_follows_keeps_backing(before.donors, after.donors, proposal.votes[j]);
        }
    }
}

/// A donation keeps the invariant, adds its amount to the total voting power
/// and leaves every donor in place.
pub proof fn lemma_donate_keeps_inv(s: GovernanceStateView, donor: Seq<u8>, amount: u64, now: u64)
    requires
        s.inv(),
    ensures
        donate(s, donor, amount, now).inv(),
        follows(s.donors, donate(s, donor, amount, now).donors),
        donate(s, donor, amount, now).total_voting_power() == s.total_voting_power() + amount,
{
    let record = DonationRecord { timestamp: now, amount };
    if is_donor(s.donors, donor) {
        let at = donor_position(s.donors, donor);
        lemma_history_total_push(s.donors[at].donation_history, record);
        lemma_registry_update(s.donors, at, credited(s.donors[at], amount, now));
    } else {
        lemma_history_total_push(Seq::empty(), record);
        lemma_registry_push(s.donors, credited(new_donor(donor), amount, now));
    }
    lemma_follows_keeps_proposals(s, donate(s, donor, amount, now));
}

/// A request to create a proposal keeps the invariant, whatever its answer.
pub proof fn lemma_create_proposal_keeps_inv(
    s: GovernanceStateView,
    creator: Seq<u8>,
    title: Seq<char>,
    description: Seq<char>,
    recipient: Seq<u8>,
    amount: u64,
    duration_seconds: u64,
    now: u64,
)
    requires
        s.inv(),
    ensures
        ({
            let after = create_proposal(
                s,
                creator,
                title,
                description,
                recipient,
                amount,
                duration_seconds,
                now,
            ).0;
            after.inv() && after.donors == s.donors
        }),
{
    let after = create_proposal(
        s,
        creator,
        title,
        description,
        recipient,
        amount,
        duration_seconds,
        now,
    ).0;
    if create_proposal_refusal(s, creator, title, description, amount) is None {
        let proposal = after.proposals[s.proposals.len() as int];
        lemma_released_push(s.proposals, proposal);
    }
}

/// Replacing one proposal by a consistent one that has released as much
/// keeps the invariant.
pub proof fn lemma_with_proposal_keeps_inv(
    s: GovernanceStateView,
    id: int,
    proposal: FundingProposalView,
)
    requires
        s.inv(),
        0 <= id < s.proposals.len(),
        proposal.id == id,
        proposal_consistent(s.donors, proposal),
        released(proposal) == released(s.proposals[id]),
    ensures
        s.with_proposal(id, proposal).inv(),
{
    lemma_released_update(s.proposals, id, proposal);
}

/// A request to vote keeps the invariant, whatever its answer.
pub proof fn lemma_vote_keeps_inv(
    s: GovernanceStateView,
    voter: Seq<u8>,
    proposal_id: u64,
    approve: bool,
    now: u64,
)
    requires
        s.inv(),
    ensures
        vote_on_proposal(s, voter, proposal_id, approve, now).0.inv(),
        vote_on_proposal(s, voter, proposal_id, approve, now).0.donors == s.donors,
{
    if is_donor(s.donors, voter) && proposal_id < s.proposals.len() {
        let id = proposal_id as int;
        let proposal = s.proposals[id];
        if proposal.status == ProposalStatus::Active {
            if now > proposal.expires_at {
                let rejected = FundingProposalView { status: ProposalStatus::Rejected, ..proposal };
                lemma_with_proposal_keeps_inv(s, id, rejected);
            } else if !has_voted(proposal.votes, voter) {
                let vote = VoteView {
                    donor: voter,
                    voting_power: donor_of(s.donors, voter).voting_power,
                    approved: approve,
                    timestamp: now as nat,
                };
                lemma_cast_power_push(proposal.votes, vote, true);
                lemma_cast_power_push(proposal.votes, vote, false);
                lemma_with_proposal_keeps_inv(s, id, with_vote(s, proposal, vote));
            }
        }
    }
}

/// A request to execute a proposal keeps the invariant, whatever its answer.
pub proof fn lemma_execute_keeps_inv(s: GovernanceStateView, proposal_id: u64, now: u64)
    requires
        s.inv(),
    ensures
        execute_proposal(s, proposal_id, now).0.inv(),
        execute_proposal(s, proposal_id, now).0.donors == s.donors,
{
    if proposal_id < s.proposals.len() {
        let id = proposal_id as int;
        let proposal = s.proposals[id];
        if proposal.status == ProposalStatus::Approved {
            if proposal.amount > s.total_donations {
                let rejected = FundingProposalView { status: ProposalStatus::Rejected, ..proposal };
                lemma_with_proposal_keeps_inv(s, id, rejected);
            } else {
                let executed = FundingProposalView {
                    status: ProposalStatus::Executed,
                    executed_at: Some(now as nat),
                    ..proposal
                };
                lemma_released_update(s.proposals, id, executed);
            }
        }
    }
}

} // verus!

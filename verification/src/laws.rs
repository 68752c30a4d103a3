//! What holds of the engine in every state and after every request.

use crate::model::{
    create_proposal, distinct_voters, donate, execute_proposal, register_charity, total_donated,
    total_released, update_governance_settings, vote_on_proposal, GovernanceStateView,
};
use crate::preservation::{
    lemma_cast_power_bounded, lemma_create_proposal_keeps_inv, lemma_donate_keeps_inv,
    lemma_execute_keeps_inv, lemma_vote_keeps_inv,
};
use crate::tally::decide;
use crate::types::ProposalStatus;
use vstd::prelude::*;

verus! {

/// A request that changes the state, with everything the host supplies for it.
pub enum Request {
    Donate { donor: Seq<u8>, amount: u64, now: u64 },
    CreateProposal {
        creator: Seq<u8>,
        title: Seq<char>,
        description: Seq<char>,
        recipient: Seq<u8>,
        amount: u64,
        duration_seconds: u64,
        now: u64,
    },
    Vote { voter: Seq<u8>, proposal_id: u64, approve: bool, now: u64 },
    Execute { proposal_id: u64, now: u64 },
    RegisterCharity { owner: Seq<u8>, name: Seq<char>, description: Seq<char>, now: u64 },
    UpdateSettings { min_duration: Option<u64>, quorum: Option<u8>, threshold: Option<u8> },
}

/// The state after a request.
pub open spec fn step(s: GovernanceStateView, request: Request) -> GovernanceStateView {
    match request {
        Request::Donate { donor, amount, now } => donate(s, donor, amount, now),
        Request::CreateProposal {
            creator,
            title,
            description,
            recipient,
            amount,
            duration_seconds,
            now,
        } => create_proposal(
            s,
            creator,
            title,
            description,
            recipient,
            amount,
            duration_seconds,
            now,
        ).0,
        Request::Vote { voter, proposal_id, approve, now } => vote_on_proposal(
            s,
            voter,
            proposal_id,
            approve,
            now,
        ).0,
        Request::Execute { proposal_id, now } => execute_proposal(s, proposal_id, now).0,
        Request::RegisterCharity { owner, name, description, now } => register_charity(
            s,
            owner,
            name,
            description,
            now,
        ).0,
        Request::UpdateSettings { min_duration, quorum, threshold } => update_governance_settings(
            s,
            min_duration,
            quorum,
            threshold,
        ).0,
    }
}

/// The invariant holds of a new engine.
pub proof fn invariant_holds_initially()
    ensures
        GovernanceStateView::initial().inv(),
{
}

/// Every request keeps the invariant, whether it is granted or refused.
pub proof fn every_request_keeps_the_invariant(s: GovernanceStateView, request: Request)
    requires
        s.inv(),
    ensures
        step(s, request).inv(),
{
    match request {
        Request::Donate { donor, amount, now } => {
            lemma_donate_keeps_inv(s, donor, amount, now);
        },
        Request::CreateProposal {
            creator,
            title,
            description,
            recipient,
            amount,
            duration_seconds,
            now,
        } => {
            lemma_create_proposal_keeps_inv(
                s,
                creator,
                title,
                description,
                recipient,
                amount,
                duration_seconds,
                now,
            );
        },
        Request::Vote { voter, proposal_id, approve, now } => {
            lemma_vote_keeps_inv(s, voter, proposal_id, approve, now);
        },
        Request::Execute { proposal_id, now } => {
            lemma_execute_keeps_inv(s, proposal_id, now);
        },
        Request::RegisterCharity { .. } | Request::UpdateSettings { .. } => {
            // Neither touches a donor, a proposal or the treasury.
        },
    }
}

/// The state of an engine that started new and has answered these requests,
/// in their order.
pub open spec fn state_after(requests: Seq<Request>) -> GovernanceStateView
    decreases requests.len(),
{
    if requests.len() == 0 {
        GovernanceStateView::initial()
    } else {
        step(state_after(requests.drop_last()), requests.last())
    }
}

/// Whatever was requested of an engine since it started, the invariant holds.
pub proof fn invariant_holds_after_any_requests(requests: Seq<Request>)
    ensures
        state_after(requests).inv(),
    decreases requests.len(),
{
    if requests.len() > 0 {
        invariant_holds_after_any_requests(requests.drop_last());
        every_request_keeps_the_invariant(state_after(requests.drop_last()), requests.last());
    }
}

/// Whatever was requested of an engine since it started, no proposal is
/// cancelled: no request leads there.
pub proof fn no_proposal_is_ever_cancelled(requests: Seq<Request>, id: int)
    requires
        0 <= id < state_after(requests).proposals.len(),
    ensures
        state_after(requests).proposals[id].status != ProposalStatus::Cancelled,
    decreases requests.len(),
{
    if requests.len() > 0 {
        let before = state_after(requests.drop_last());
        if id < before.proposals.len() {
            no_proposal_is_ever_cancelled(requests.drop_last(), id);
            status_moves_along_the_lifecycle(before, requests.last(), id);
        } else {
            new_proposal_is_active_and_covered(before, requests.last(), id);
        }
    }
}

/// Every donor's voting power equals what they have donated.
pub proof fn voting_power_is_total_donations(s: GovernanceStateView, i: int)
    requires
        s.inv(),
        0 <= i < s.donors.len(),
    ensures
        s.donors[i].voting_power == s.donors[i].total_donations,
{
}

/// The votes counted on a proposal, for and against, never exceed the voting
/// power of all donors together, and no donor has two votes on one proposal.
pub proof fn counted_votes_within_total_voting_power(s: GovernanceStateView, id: int)
    requires
        s.inv(),
        0 <= id < s.proposals.len(),
    ensures
        s.proposals[id].yes_votes + s.proposals[id].no_votes <= s.total_voting_power(),
        distinct_voters(s.proposals[id].votes),
{
    lemma_cast_power_bounded(s.donors, s.proposals[id].votes);
}

/// Right after any vote, the votes counted on the proposal do not exceed the
/// total voting power of that moment.
pub proof fn counted_votes_within_total_voting_power_after_vote(
    s: GovernanceStateView,
    voter: Seq<u8>,
    proposal_id: u64,
    approve: bool,
    now: u64,
)
    requires
        s.inv(),
        proposal_id < s.proposals.len(),
    ensures
        ({
            let after = vote_on_proposal(s, voter, proposal_id, approve, now).0;
            &&& after.proposals.len() == s.proposals.len()
            &&& after.proposals[proposal_id as int].yes_votes
                + after.proposals[proposal_id as int].no_votes <= after.total_voting_power()
        }),
{
    lemma_vote_keeps_inv(s, voter, proposal_id, approve, now);
    let after = vote_on_proposal(s, voter, proposal_id, approve, now).0;
    counted_votes_within_total_voting_power(after, proposal_id as int);
}

/// The treasury holds exactly what was donated and not released by an
/// executed proposal; so it never holds less than nothing.
pub proof fn treasury_is_donations_less_releases(s: GovernanceStateView)
    requires
        s.inv(),
    ensures
        s.total_donations == total_donated(s.donors) - total_released(s.proposals),
        total_released(s.proposals) <= total_donated(s.donors),
{
}

/// The treasury grows only by a donation, by the amount donated, and shrinks
/// only when a proposal is executed, by that proposal's amount, which it
/// covered. Every other request, and every refused one, leaves it as it was.
pub proof fn treasury_moves_only_by_donation_and_execution(s: GovernanceStateView, request: Request)
    ensures
        match request {
            Request::Donate { donor, amount, now } => step(s, request).total_donations
                == s.total_donations + amount,
            Request::Execute { proposal_id, now } => if execute_proposal(s, proposal_id, now).1
                is Ok {
                let proposal = s.proposals[proposal_id as int];
                &&& proposal_id < s.proposals.len()
                &&& proposal.status == ProposalStatus::Approved
                &&& proposal.amount <= s.total_donations
                &&& step(s, request).total_donations == s.total_donations - proposal.amount
                &&& step(s, request).proposals[proposal_id as int].status
                    == ProposalStatus::Executed
            } else {
                step(s, request).total_donations == s.total_donations
            },
            _ => step(s, request).total_donations == s.total_donations,
        },
{
}

/// No request removes a proposal.
pub proof fn proposals_are_never_removed(s: GovernanceStateView, request: Request)
    ensures
        s.proposals.len() <= step(s, request).proposals.len(),
{
}

/// A proposal that is executed, rejected or cancelled stays exactly as it is,
/// whatever is requested.
pub proof fn terminal_status_is_kept(s: GovernanceStateView, request: Request, id: int)
    requires
        0 <= id < s.proposals.len(),
        s.proposals[id].status.is_terminal(),
    ensures
        id < step(s, request).proposals.len(),
        step(s, request).proposals[id] == s.proposals[id],
{
}

/// A proposal moves along its lifecycle only: an active one may become
/// approved or rejected, an approved one executed or rejected, and nothing
/// else changes a status.
pub proof fn status_moves_along_the_lifecycle(s: GovernanceStateView, request: Request, id: int)
    requires
        0 <= id < s.proposals.len(),
    ensures
        id < step(s, request).proposals.len(),
        ({
            let before = s.proposals[id].status;
            let after = step(s, request).proposals[id].status;
            ||| after == before
            ||| before == ProposalStatus::Active && (after == ProposalStatus::Approved || after
                == ProposalStatus::Rejected)
            ||| before == ProposalStatus::Approved && (after == ProposalStatus::Executed || after
                == ProposalStatus::Rejected)
        }),
{
}

/// A new proposal is active, has no votes, carries the next identifier and
/// requests an amount that is more than nothing and that the treasury covers.
pub proof fn new_proposal_is_active_and_covered(s: GovernanceStateView, request: Request, id: int)
    requires
        s.proposals.len() <= id < step(s, request).proposals.len(),
    ensures
        id == s.proposals.len(),
        step(s, request).proposals[id].id == s.next_proposal_id,
        step(s, request).proposals[id].status == ProposalStatus::Active,
        step(s, request).proposals[id].votes.len() == 0,
        0 < step(s, request).proposals[id].amount <= s.total_donations,
{
}

/// Only a vote on a proposal or its execution changes it: every other
/// request leaves it exactly as it is.
pub proof fn only_votes_and_execution_change_a_proposal(
    s: GovernanceStateView,
    request: Request,
    id: int,
)
    requires
        0 <= id < s.proposals.len(),
    ensures
        id < step(s, request).proposals.len(),
        match request {
            Request::Vote { proposal_id, .. } => proposal_id != id,
            Request::Execute { proposal_id, .. } => proposal_id != id,
            _ => true,
        } ==> step(s, request).proposals[id] == s.proposals[id],
{
}

/// What a proposal asks for never changes, and its votes are only ever added
/// to: the votes on record stay, in their order.
pub proof fn recorded_votes_stay(s: GovernanceStateView, request: Request, id: int)
    requires
        0 <= id < s.proposals.len(),
    ensures
        id < step(s, request).proposals.len(),
        ({
            let before = s.proposals[id];
            let after = step(s, request).proposals[id];
            &&& after.id == before.id
            &&& after.creator == before.creator
            &&& after.title == before.title
            &&& after.description == before.description
            &&& after.recipient == before.recipient
            &&& after.amount == before.amount
            &&& after.created_at == before.created_at
            &&& after.expires_at == before.expires_at
            &&& before.votes.len() <= after.votes.len()
            &&& after.votes.take(before.votes.len() as int) == before.votes
        }),
{
}

/// No donor is ever removed, a donor's total never shrinks, and a donor's
/// history is only ever added to.
pub proof fn donor_records_only_grow(s: GovernanceStateView, request: Request, i: int)
    requires
        0 <= i < s.donors.len(),
    ensures
        i < step(s, request).donors.len(),
        ({
            let before = s.donors[i];
            let after = step(s, request).donors[i];
            &&& after.id == before.id
            &&& before.total_donations <= after.total_donations
            &&& before.voting_power <= after.voting_power
            &&& before.donation_history.len() <= after.donation_history.len()
            &&& after.donation_history.take(before.donation_history.len() as int)
                == before.donation_history
        }),
{
}

/// A charity project, once registered, stays exactly as it is.
pub proof fn charity_projects_stay(s: GovernanceStateView, request: Request, id: int)
    requires
        0 <= id < s.charity_projects.len(),
    ensures
        id < step(s, request).charity_projects.len(),
        step(s, request).charity_projects[id] == s.charity_projects[id],
{
}

/// The decision depends on the five numbers alone, and division rounds down:
/// the quorum is missed exactly when a hundred times the votes cast, and a
/// hundred more, still do not exceed the total voting power times the quorum
/// percentage; the proposal is approved exactly when a hundred times the
/// approving votes are no less than the threshold times the votes cast.
pub proof fn decision_rounds_down(
    yes_votes: nat,
    no_votes: nat,
    total_voting_power: nat,
    quorum_percentage: nat,
    approval_threshold: nat,
)
    ensures
        decide(yes_votes, no_votes, total_voting_power, quorum_percentage, approval_threshold)
            == if yes_votes + no_votes == 0 || 100 * (yes_votes + no_votes) + 100
            <= total_voting_power * quorum_percentage {
            ProposalStatus::Active
        } else if 100 * yes_votes >= approval_threshold * (yes_votes + no_votes) {
            ProposalStatus::Approved
        } else {
            ProposalStatus::Rejected
        },
{
    let votes = yes_votes + no_votes;
    if votes > 0 {
        let scaled = yes_votes * 100;
        assert(scaled / votes >= approval_threshold <==> scaled >= approval_threshold * votes)
            by (nonlinear_arith)
            requires
                votes > 0,
                scaled >= 0,
                approval_threshold >= 0,
        ;
    }
}

} // verus!

//! The tally engine: the quorum-and-threshold rule that decides a proposal.

use crate::types::ProposalStatus;
use vstd::prelude::*;

verus! {

/// The least number of votes (by voting power) that lets a proposal be decided:
/// the quorum percentage of the total voting power, rounded down.
pub open spec fn quorum_threshold(total_voting_power: nat, quorum_percentage: nat) -> nat {
    total_voting_power * quorum_percentage / 100
}

/// The share of the cast voting power that approved, in percent, rounded down.
pub open spec fn approval_percentage(yes_votes: nat, no_votes: nat) -> nat
    recommends
        yes_votes + no_votes > 0,
{
    yes_votes * 100 / (yes_votes + no_votes)
}

/// The status of an active proposal after a vote was counted.
///
/// Nothing is decided while the cast voting power is below the quorum
/// threshold, or while it is zero. Otherwise the proposal is approved when the
/// approval percentage reaches the threshold, and rejected when it does not.
pub open spec fn decide(
    yes_votes: nat,
    no_votes: nat,
    total_voting_power: nat,
    quorum_percentage: nat,
    approval_threshold: nat,
) -> ProposalStatus {
    if yes_votes + no_votes == 0 || yes_votes + no_votes < quorum_threshold(
        total_voting_power,
        quorum_percentage,
    ) {
        ProposalStatus::Active
    } else if approval_percentage(yes_votes, no_votes) >= approval_threshold {
        ProposalStatus::Approved
    } else {
        ProposalStatus::Rejected
    }
}

/// Decides an active proposal from its running totals.
pub fn tally(
    yes_votes: u64,
    no_votes: u64,
    total_voting_power: u64,
    quorum_percentage: u8,
    approval_threshold: u8,
) -> (status: ProposalStatus)
    ensures
        status == decide(
            yes_votes as nat,
            no_votes as nat,
            total_voting_power as nat,
            quorum_percentage as nat,
            approval_threshold as nat,
        ),
{
    let total_votes: u128 = yes_votes as u128 + no_votes as u128;
    assert(total_voting_power * quorum_percentage <= 0xffff_ffff_ffff_ffff * 0xff)
        by (nonlinear_arith)
        requires
            total_voting_power <= 0xffff_ffff_ffff_ffff,
            quorum_percentage <= 0xff,
    ;
    let weighted: u128 = total_voting_power as u128 * quorum_percentage as u128;
    let needed: u128 = weighted / 100;
    if total_votes == 0 || total_votes < needed {
        ProposalStatus::Active
    } else {
        let scaled: u128 = yes_votes as u128 * 100;
        let percentage: u128 = scaled / total_votes;
        if percentage >= approval_threshold as u128 {
            ProposalStatus::Approved
        } else {
            ProposalStatus::Rejected
        }
    }
}

} // verus!

//! The texts that confirm a request that was granted.

use crate::error::GovernanceError;
use vstd::prelude::*;
use vstd::string::StringExecFns;

verus! {

/// The character of a decimal digit.
pub open spec fn digit(value: nat) -> char
    recommends
        value < 10,
{
    if value == 0 {
        '0'
    } else if value == 1 {
        '1'
    } else if value == 2 {
        '2'
    } else if value == 3 {
        '3'
    } else if value == 4 {
        '4'
    } else if value == 5 {
        '5'
    } else if value == 6 {
        '6'
    } else if value == 7 {
        '7'
    } else if value == 8 {
        '8'
    } else {
        '9'
    }
}

/// A number written in decimal digits, without leading zeros.
pub open spec fn decimal(value: nat) -> Seq<char>
    decreases value,
{
    if value < 10 {
        seq![digit(value)]
    } else {
        decimal(value / 10).push(digit(value % 10))
    }
}

/// The text of a decimal digit.
fn digit_text(value: u64) -> (text: &'static str)
    requires
        value < 10,
    ensures
        text@ == seq![digit(value as nat)],
{
    proof {
        reveal_strlit("0");
        reveal_strlit("1");
        reveal_strlit("2");
        reveal_strlit("3");
        reveal_strlit("4");
        reveal_strlit("5");
        reveal_strlit("6");
        reveal_strlit("7");
        reveal_strlit("8");
        reveal_strlit("9");
    }
    if value == 0 {
        "0"
    } else if value == 1 {
        "1"
    } else if value == 2 {
        "2"
    } else if value == 3 {
        "3"
    } else if value == 4 {
        "4"
    } else if value == 5 {
        "5"
    } else if value == 6 {
        "6"
    } else if value == 7 {
        "7"
    } else if value == 8 {
        "8"
    } else {
        "9"
    }
}

/// Writes a number in decimal digits.
pub fn decimal_text(value: u64) -> (text: String)
    ensures
        text@ == decimal(value as nat),
    decreases value,
{
    if value < 10 {
        digit_text(value).to_owned()
    } else {
        decimal_text(value / 10).concat(digit_text(value % 10))
    }
}

/// The text that confirms a donation of `amount`.
pub open spec fn donation_confirmation(amount: u64) -> Seq<char> {
    "Successfully donated "@ + decimal(amount as nat) + " e8s (1 ICP)"@
}

/// The text that confirms a donation of `amount`.
pub fn donation_confirmed(amount: u64) -> (message: String)
    ensures
        message@ == donation_confirmation(amount),
{
    let digits = decimal_text(amount);
    "Successfully donated ".to_owned().concat(digits.as_str()).concat(" e8s (1 ICP)")
}

/// The text that confirms a vote.
pub open spec fn vote_confirmation() -> Seq<char> {
    "Vote recorded successfully"@
}

/// The text that confirms the execution of a proposal.
pub open spec fn execution_confirmation() -> Seq<char> {
    "Proposal executed successfully"@
}

/// The text that confirms a change of the settings.
pub open spec fn settings_confirmation() -> Seq<char> {
    "Governance settings updated successfully"@
}

/// What is left of an answer when the text of its confirmation is set aside:
/// that the request was granted, or why it was not.
pub open spec fn outcome(answer: Result<String, GovernanceError>) -> Result<(), GovernanceError> {
    match answer {
        Ok(_) => Ok(()),
        Err(error) => Err(error),
    }
}

/// The text that confirms a vote.
pub fn vote_recorded() -> (message: String)
    ensures
        message@ == vote_confirmation(),
{
    "Vote recorded successfully".to_owned()
}

/// The text that confirms the execution of a proposal.
pub fn proposal_executed() -> (message: String)
    ensures
        message@ == execution_confirmation(),
{
    "Proposal executed successfully".to_owned()
}

/// The text that confirms a change of the settings.
pub fn settings_updated() -> (message: String)
    ensures
        message@ == settings_confirmation(),
{
    "Governance settings updated successfully".to_owned()
}

} // verus!

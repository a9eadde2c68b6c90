//! Why the farm factory refuses a message.

use vstd::prelude::*;

verus! {

/// The reasons the farm factory refuses a message.
#[derive(Clone, Debug, PartialEq, Eq)]
pub enum ContractError {
    Unauthorized,
    StartNotBeforeEnd,
    CurrentTimeAfterStart,
    /// An address given in the message is not valid on this chain.
    InvalidAddress { reason: String },
}

/// The text the factory reports for each refusal.
pub open spec fn error_text(e: ContractError) -> Seq<char> {
    match e {
        ContractError::Unauthorized => "Unauthorized"@,
        ContractError::StartNotBeforeEnd => "Start time is greater than end time"@,
        ContractError::CurrentTimeAfterStart => "Current time is greater than start time"@,
        ContractError::InvalidAddress { reason } => reason@,
    }
}

impl ContractError {
    /// The text of the error the factory answers with.
    pub fn message(&self) -> (r: String)
        ensures
            r@ == error_text(*self),
    {
        match self {
            ContractError::Unauthorized => "Unauthorized".to_owned(),
            ContractError::StartNotBeforeEnd => "Start time is greater than end time".to_owned(),
            ContractError::CurrentTimeAfterStart => "Current time is greater than start time".to_owned(),
            ContractError::InvalidAddress { reason } => reason.clone(),
        }
    }
}

} // verus!

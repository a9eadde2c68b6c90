//! Why a pool refuses a message.

use vstd::prelude::*;

verus! {

/// The reasons a pool handler refuses a message.
#[derive(Clone, Debug, PartialEq, Eq)]
pub enum ContractError {
    NotWhitelisted,
    PoolActive,
    RewardAddedTwice,
    NativeBalanceMismatch,
    CannotRemoveActivePhase,
    PhaseStarted,
    ExceedsPoolLimit,
    OnlyStakerCanWithdraw,
    InsufficientStake,
    OnlyStakerCanHarvest,
    ZeroReward,
    OnlyOwnerCanUpdateLimit,
    OnlyOwnerCanAddPhase,
    CurrentPhaseNotEnded,
    /// The staked token contract could not be queried.
    QueryFailed { reason: String },
}

/// The text the pool reports for each refusal.
pub open spec fn error_text(e: ContractError) -> Seq<char> {
    match e {
        ContractError::NotWhitelisted => "Unauthorized: Sender is not in the whitelisted address"@,
        ContractError::PoolActive => "Unauthorized: Can not add reward balance when the pool is active"@,
        ContractError::RewardAddedTwice => "Unauthorized: Can not add reward balance twice"@,
        ContractError::NativeBalanceMismatch => "Native token balance mismatch between the argument and the transferred"@,
        ContractError::CannotRemoveActivePhase => "Unauthorized: Can not remove active phase"@,
        ContractError::PhaseStarted => "Unauthorized: Current time is greater than start time of the phase"@,
        ContractError::ExceedsPoolLimit => "Unauthorized: Deposit amount exceeds pool limit per user"@,
        ContractError::OnlyStakerCanWithdraw => "Unauthorized: Only staker can withdraw"@,
        ContractError::InsufficientStake => "InsufficientFunds: Withdraw amount exceeds staked amount"@,
        ContractError::OnlyStakerCanHarvest => "Unauthorized: Only staker can harvest reward"@,
        ContractError::ZeroReward => "InsufficientFunds: Reward amount is zero"@,
        ContractError::OnlyOwnerCanUpdateLimit => "Unauthorized: Only owner can update pool limit per user"@,
        ContractError::OnlyOwnerCanAddPhase => "Unauthorized: Only owner can add new phase"@,
        ContractError::CurrentPhaseNotEnded => "Only activate new phase if current time is greater than end time of the current pool"@,
        ContractError::QueryFailed { reason } => reason@,
    }
}

impl ContractError {
    /// The text of the error the pool answers with.
    pub fn message(&self) -> (r: String)
        ensures
            r@ == error_text(*self),
    {
        match self {
            ContractError::NotWhitelisted => "Unauthorized: Sender is not in the whitelisted address".to_owned(),
            ContractError::PoolActive => "Unauthorized: Can not add reward balance when the pool is active".to_owned(),
            ContractError::RewardAddedTwice => "Unauthorized: Can not add reward balance twice".to_owned(),
            ContractError::NativeBalanceMismatch => "Native token balance mismatch between the argument and the transferred".to_owned(),
            ContractError::CannotRemoveActivePhase => "Unauthorized: Can not remove active phase".to_owned(),
            ContractError::PhaseStarted => "Unauthorized: Current time is greater than start time of the phase".to_owned(),
            ContractError::ExceedsPoolLimit => "Unauthorized: Deposit amount exceeds pool limit per user".to_owned(),
            ContractError::OnlyStakerCanWithdraw => "Unauthorized: Only staker can withdraw".to_owned(),
            ContractError::InsufficientStake => "InsufficientFunds: Withdraw amount exceeds staked amount".to_owned(),
            ContractError::OnlyStakerCanHarvest => "Unauthorized: Only staker can harvest reward".to_owned(),
            ContractError::ZeroReward => "InsufficientFunds: Reward amount is zero".to_owned(),
            ContractError::OnlyOwnerCanUpdateLimit => "Unauthorized: Only owner can update pool limit per user".to_owned(),
            ContractError::OnlyOwnerCanAddPhase => "Unauthorized: Only owner can add new phase".to_owned(),
            ContractError::CurrentPhaseNotEnded => "Only activate new phase if current time is greater than end time of the current pool".to_owned(),
            ContractError::QueryFailed { reason } => reason.clone(),
        }
    }
}

} // verus!

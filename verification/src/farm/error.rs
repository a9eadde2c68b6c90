//! Why a farm refuses a message.

use vstd::prelude::*;

verus! {

/// The reasons a farm handler refuses a message.
#[derive(Clone, Copy, Debug, PartialEq, Eq, Structural)]
pub enum ContractError {
    PhaseActivated,
    NotWhitelisted,
    NativeBalanceMismatch,
    PhaseStarted,
    CannotRemoveActivatedPhase,
    OnlyOwnerCanRemovePhase,
    ZeroDeposit,
    EmptyPhase,
    NotInPhaseRange,
    ExceedsPhaseLimit,
    ZeroWithdraw,
    NotStaker,
    InsufficientStake,
    OnlyStakerCanHarvest,
    ZeroReward,
    OnlyOwnerCanAddPhase,
    StartNotBeforeEnd,
    CurrentTimeAfterStart,
    StartBeforeCurrentPhaseEnd,
    PreviousPhaseNotActive,
    OnlyOwnerCanActivatePhase,
    AddPhaseFirst,
    NotInActivationRange,
}

/// The text the farm reports for each refusal.
pub open spec fn error_text(e: ContractError) -> Seq<char> {
    match e {
        ContractError::PhaseActivated => "Phase activated"@,
        ContractError::NotWhitelisted => "Unauthorized: Sender is not whitelisted address"@,
        ContractError::NativeBalanceMismatch => "Native token balance mismatch between the argument and the transferred"@,
        ContractError::PhaseStarted => "Current time is greater than start time of the phase"@,
        ContractError::CannotRemoveActivatedPhase => "Can not remove activated phase"@,
        ContractError::OnlyOwnerCanRemovePhase => "Unauthorized: Only owner can remove phase"@,
        ContractError::ZeroDeposit => "InvalidZeroAmount: Deposit amount is 0"@,
        ContractError::EmptyPhase => "Empty phase"@,
        ContractError::NotInPhaseRange => "Current time is not in the range of the phase"@,
        ContractError::ExceedsPhaseLimit => "Deposit amount exceeds phase limit per user"@,
        ContractError::ZeroWithdraw => "InvalidZeroAmount: Withdraw amount is 0"@,
        ContractError::NotStaker => "Unauthorized: Sender is not staker"@,
        ContractError::InsufficientStake => "InsufficientFunds: Withdraw amount exceeds staked amount"@,
        ContractError::OnlyStakerCanHarvest => "Unauthorized: Only staker can harvest reward"@,
        ContractError::ZeroReward => "InsufficientFunds: Reward amount is zero"@,
        ContractError::OnlyOwnerCanAddPhase => "Unauthorized: Only owner can add new phase"@,
        ContractError::StartNotBeforeEnd => "Start time is greater than end time"@,
        ContractError::CurrentTimeAfterStart => "Current time is greater than start time"@,
        ContractError::StartBeforeCurrentPhaseEnd => "New start time is less than end time of the current phase"@,
        ContractError::PreviousPhaseNotActive => "Previous phase is not active"@,
        ContractError::OnlyOwnerCanActivatePhase => "Unauthorized: Only owner can active new phase"@,
        ContractError::AddPhaseFirst => "Invalid action: Add new phase first"@,
        ContractError::NotInActivationRange => "Current time is not in range of the phase to be activated"@,
    }
}

impl ContractError {
    /// The text of the generic error the farm answers with.
    pub fn message(&self) -> (r: &'static str)
        ensures
            r@ == error_text(*self),
    {
        match self {
            ContractError::PhaseActivated => "Phase activated",
            ContractError::NotWhitelisted => "Unauthorized: Sender is not whitelisted address",
            ContractError::NativeBalanceMismatch => "Native token balance mismatch between the argument and the transferred",
            ContractError::PhaseStarted => "Current time is greater than start time of the phase",
            ContractError::CannotRemoveActivatedPhase => "Can not remove activated phase",
            ContractError::OnlyOwnerCanRemovePhase => "Unauthorized: Only owner can remove phase",
            ContractError::ZeroDeposit => "InvalidZeroAmount: Deposit amount is 0",
            ContractError::EmptyPhase => "Empty phase",
            ContractError::NotInPhaseRange => "Current time is not in the range of the phase",
            ContractError::ExceedsPhaseLimit => "Deposit amount exceeds phase limit per user",
            ContractError::ZeroWithdraw => "InvalidZeroAmount: Withdraw amount is 0",
            ContractError::NotStaker => "Unauthorized: Sender is not staker",
            ContractError::InsufficientStake => "InsufficientFunds: Withdraw amount exceeds staked amount",
            ContractError::OnlyStakerCanHarvest => "Unauthorized: Only staker can harvest reward",
            ContractError::ZeroReward => "InsufficientFunds: Reward amount is zero",
            ContractError::OnlyOwnerCanAddPhase => "Unauthorized: Only owner can add new phase",
            ContractError::StartNotBeforeEnd => "Start time is greater than end time",
            ContractError::CurrentTimeAfterStart => "Current time is greater than start time",
            ContractError::StartBeforeCurrentPhaseEnd => "New start time is less than end time of the current phase",
            ContractError::PreviousPhaseNotActive => "Previous phase is not active",
            ContractError::OnlyOwnerCanActivatePhase => "Unauthorized: Only owner can active new phase",
            ContractError::AddPhaseFirst => "Invalid action: Add new phase first",
            ContractError::NotInActivationRange => "Current time is not in range of the phase to be activated",
        }
    }
}

} // verus!

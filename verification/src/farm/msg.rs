//! Messages a farm accepts.

use vstd::prelude::*;
use crate::farm::state::TokenInfo;

verus! {

/// The message that creates a farm with its first phase.
#[derive(Clone, Debug, PartialEq, Eq)]
pub struct InstantiateMsg {
    /// Staked token address.
    pub staked_token: String,
    /// Reward token (CW20 or native).
    pub reward_token: TokenInfo,
    /// Start of the first phase.
    pub start_time: u64,
    /// End of the first phase.
    pub end_time: u64,
    /// Most tokens one staker may stake, if limited.
    pub phases_limit_per_user: Option<u128>,
    /// The farm owner.
    pub farm_owner: String,
    /// The address allowed to add rewards to the first phase.
    pub whitelist: String,
}

/// The messages a farm handles.
#[derive(Clone, Debug, PartialEq, Eq)]
pub enum ExecuteMsg {
    /// Adds reward balance to a phase, from its whitelisted address.
    AddRewardBalance { phase_index: u64, amount: u128 },
    /// Deposits staked tokens and collects reward tokens, if any.
    Deposit { amount: u128 },
    /// Withdraws staked tokens and collects reward tokens, if any.
    Withdraw { amount: u128 },
    /// Harvests reward tokens.
    Harvest {},
    /// Adds a phase after the last one.
    AddPhase { new_start_time: u64, new_end_time: u64, whitelist: String },
    /// Removes a phase that is not activated.
    RemovePhase { phase_index: u64 },
    /// Activates the next phase.
    ActivatePhase {},
}

/// The queries a farm answers.
#[derive(Clone, Debug, PartialEq, Eq)]
pub enum QueryMsg {
    /// The farm's state.
    Farm {},
    /// The reward an address could harvest now.
    PendingReward { address: String },
    /// Total staked tokens.
    TotalStaked {},
    /// An address's stake.
    StakerInfo { address: String },
}

} // verus!

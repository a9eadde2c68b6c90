//! Messages a pool accepts.

use vstd::prelude::*;
use crate::pool::state::{RewardTokenAsset, TokenInfo};

verus! {

/// The message that creates a pool with its first phase.
#[derive(Clone, Debug, PartialEq, Eq)]
pub struct InstantiateMsg {
    /// Staked token address.
    pub staked_token: String,
    /// Reward token (CW20 or native).
    pub reward_token: TokenInfo,
    /// Start of the first phase.
    pub start_time: u64,
    /// End of the first phase.
    pub end_time: u64,
    /// Most tokens one staker may stake, if limited.
    pub pool_limit_per_user: Option<u128>,
    /// The pool owner.
    pub pool_owner: String,
    /// Addresses allowed to add and remove rewards.
    pub whitelist: Vec<String>,
}

/// The messages a pool handles.
#[derive(Clone, Debug, PartialEq, Eq)]
pub enum ExecuteMsg {
    /// Adds reward balance to a phase, from a whitelisted address.
    AddRewardBalance { phase_index: u64, asset: RewardTokenAsset },
    /// Deposits staked tokens and collects reward tokens, if any.
    Deposit { amount: u128 },
    /// Withdraws staked tokens and collects reward tokens, if any.
    Withdraw { amount: u128 },
    /// Harvests reward tokens.
    Harvest {},
    /// Sets the limit per user of the current phase.
    UpdatePoolLimitPerUser { new_pool_limit_per_user: u128 },
    /// Adds a phase after the current one.
    AddPhase { new_start_time: u64, new_end_time: u64 },
    /// Activates the next phase.
    ActivatePhase {},
    /// Removes a phase that has not started.
    RemovePhase { phase_index: u64 },
}

/// The queries a pool answers.
#[derive(Clone, Debug, PartialEq, Eq)]
pub enum QueryMsg {
    /// The pool's state.
    Pool {},
    /// The reward an address could harvest now.
    PendingReward { address: String },
    /// Total staked tokens.
    TotalStaked {},
    /// An address's stake.
    StakerInfo { address: String },
}

} // verus!

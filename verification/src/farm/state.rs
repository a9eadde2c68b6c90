//! The stored state of a farm.

use vstd::prelude::*;
use crate::math::Decimal;

verus! {

/// Who owns the farm.
#[derive(Clone, Debug, PartialEq, Eq)]
pub struct Config {
    pub farm_owner: String,
}

/// What the farm keeps for one staker.
#[derive(Clone, Debug, PartialEq, Eq)]
pub struct StakerInfo {
    /// Staked tokens the staker has provided.
    pub amount: u128,
    /// Reward debt of the staker in each phase, indexed by phase.
    pub reward_debt: Vec<u128>,
    /// The phase in which the staker last deposited, withdrew or harvested.
    pub joined_phase: u64,
}

/// The public part of a staker's record.
#[derive(Clone, Debug, PartialEq, Eq)]
pub struct StakerInfoResponse {
    pub amount: u128,
    pub joined_phase: u64,
}

/// The reward a staker could harvest at a given time.
#[derive(Clone, Debug, PartialEq, Eq)]
pub struct PendingRewardResponse {
    pub info: TokenInfo,
    pub amount: u128,
    pub time_query: u64,
}

/// The reward token: a CW20 contract or a native denomination.
#[derive(Debug, PartialEq, Eq)]
pub enum TokenInfo {
    Token { contract_addr: String },
    NativeToken { denom: String },
}

impl Clone for TokenInfo {
    fn clone(&self) -> (r: TokenInfo)
        ensures
            r == *self,
    {
        match self {
            TokenInfo::Token { contract_addr } => TokenInfo::Token { contract_addr: contract_addr.clone() },
            TokenInfo::NativeToken { denom } => TokenInfo::NativeToken { denom: denom.clone() },
        }
    }
}

/// How a token is shown: its denomination or its contract address.
pub open spec fn token_display(t: TokenInfo) -> Seq<char> {
    match t {
        TokenInfo::NativeToken { denom } => denom@,
        TokenInfo::Token { contract_addr } => contract_addr@,
    }
}

impl TokenInfo {
    /// The token's denomination or contract address, as the contract prints it.
    pub fn to_string(&self) -> (r: String)
        ensures
            r@ == token_display(*self),
    {
        match self {
            TokenInfo::NativeToken { denom } => denom.clone(),
            TokenInfo::Token { contract_addr } => contract_addr.clone(),
        }
    }
}

/// One reward phase of a farm.
#[derive(Clone, Debug, PartialEq, Eq)]
pub struct PhaseInfo {
    pub start_time: u64,
    pub end_time: u64,
    /// The address allowed to add reward balance to this phase.
    pub whitelist: String,
    /// Reward tokens paid out over `[start_time, end_time]`.
    pub reward_balance: u128,
    /// Time up to which rewards have been accrued.
    pub last_reward_time: u64,
    /// Reward accrued per staked token since the phase began.
    pub accrued_token_per_share: Decimal,
}

/// Everything a farm stores about its phases and its stake.
#[derive(Clone, Debug, PartialEq, Eq)]
pub struct FarmInfo {
    pub staked_token: String,
    pub reward_token: TokenInfo,
    pub current_phase_index: u64,
    pub phases_info: Vec<PhaseInfo>,
    /// Most tokens one staker may have staked, if limited.
    pub phases_limit_per_user: Option<u128>,
    /// Total staked tokens held by the farm.
    pub staked_token_balance: u128,
}

/// A farm as a mathematical value.
pub struct FarmView {
    pub staked_token: String,
    pub reward_token: TokenInfo,
    pub current_phase_index: u64,
    pub phases: Seq<PhaseInfo>,
    pub phases_limit_per_user: Option<u128>,
    pub staked_token_balance: u128,
}

impl View for FarmInfo {
    type V = FarmView;

    open spec fn view(&self) -> FarmView {
        FarmView {
            staked_token: self.staked_token,
            reward_token: self.reward_token,
            current_phase_index: self.current_phase_index,
            phases: self.phases_info@,
            phases_limit_per_user: self.phases_limit_per_user,
            staked_token_balance: self.staked_token_balance,
        }
    }
}

/// A staker's record as a mathematical value.
pub struct StakerView {
    pub amount: u128,
    pub reward_debt: Seq<u128>,
    pub joined_phase: u64,
}

impl View for StakerInfo {
    type V = StakerView;

    open spec fn view(&self) -> StakerView {
        StakerView { amount: self.amount, reward_debt: self.reward_debt@, joined_phase: self.joined_phase }
    }
}

} // verus!

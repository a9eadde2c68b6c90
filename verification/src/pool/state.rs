//! The stored state of a pool.

use vstd::prelude::*;
use crate::common::{first_coin_of, Coin};
use crate::math::Decimal;
use crate::pool::error::ContractError;

verus! {

/// Who owns the pool.
#[derive(Clone, Debug, PartialEq, Eq)]
pub struct Config {
    pub halo_factory_owner: String,
}

/// What the pool keeps for one staker.
#[derive(Clone, Copy, Debug, PartialEq, Eq, Structural)]
pub struct StakerInfoResponse {
    /// Staked tokens the staker has provided.
    pub amount: u128,
    /// Reward debt of the staker.
    pub reward_debt: u128,
    /// The phase in which the staker last deposited, withdrew or harvested.
    pub joined_phase: u64,
}

/// The reward token: a CW20 contract or a native denomination.
#[derive(Debug, PartialEq, Eq)]
pub enum TokenInfo {
    Token { contract_addr: String },
    NativeToken { denom: String },
}

impl Clone for TokenInfo {
    fn clone(&self) -> (r: TokenInfo)
        ensures
            r == *self,
    {
        match self {
            TokenInfo::Token { contract_addr } => TokenInfo::Token { contract_addr: contract_addr.clone() },
            TokenInfo::NativeToken { denom } => TokenInfo::NativeToken { denom: denom.clone() },
        }
    }
}

/// How a token is shown: its denomination or its contract address.
pub open spec fn token_display(t: TokenInfo) -> Seq<char> {
    match t {
        TokenInfo::NativeToken { denom } => denom@,
        TokenInfo::Token { contract_addr } => contract_addr@,
    }
}

impl TokenInfo {
    /// The token's denomination or contract address, as the contract prints it.
    pub fn to_string(&self) -> (r: String)
        ensures
            r@ == token_display(*self),
    {
        match self {
            TokenInfo::NativeToken { denom } => denom.clone(),
            TokenInfo::Token { contract_addr } => contract_addr.clone(),
        }
    }
}

/// A reward token with a validated address.
#[derive(Clone, Debug, PartialEq, Eq)]
pub enum TokenInfoRaw {
    Token { contract_addr: String },
    NativeToken { denom: String },
}

/// An amount of the reward token.
#[derive(Clone, Debug, PartialEq, Eq)]
pub struct RewardTokenAsset {
    pub info: TokenInfo,
    pub amount: u128,
}

/// An amount of the reward token at a given time.
#[derive(Clone, Debug, PartialEq, Eq)]
pub struct RewardTokenAssetResponse {
    pub info: TokenInfo,
    pub amount: u128,
    pub time_query: u64,
}

/// Whether `funds` carry exactly what `asset` claims: for a native token the
/// first coin of its denomination must hold the amount (no coin will do for a
/// zero amount); a CW20 asset needs nothing.
pub open spec fn native_funds_match(asset: RewardTokenAsset, funds: Seq<Coin>) -> bool {
    match asset.info {
        TokenInfo::NativeToken { denom } => match first_coin_of(funds, denom@) {
            Some(c) => asset.amount == c.amount,
            None => asset.amount == 0,
        },
        TokenInfo::Token { .. } => true,
    }
}

impl RewardTokenAsset {
    /// Checks that the native coins sent along match this asset.
    pub fn assert_sent_native_token_balance(&self, funds: &Vec<Coin>) -> (r: Result<(), ContractError>)
        ensures
            r is Ok <==> native_funds_match(*self, funds@),
            r matches Err(e) ==> e == ContractError::NativeBalanceMismatch,
    {
        match &self.info {
            TokenInfo::NativeToken { denom } => {
                let mut k: usize = 0;
                assert(funds@.skip(0) =~= funds@);
                while k < funds.len()
                    invariant
                        k <= funds.len(),
                        self.info == (TokenInfo::NativeToken { denom: *denom }),
                        first_coin_of(funds@, denom@) == first_coin_of(funds@.skip(k as int), denom@),
                    decreases funds.len() - k,
                {
                    assert(funds@.skip(k as int).drop_first() =~= funds@.skip(k as int + 1));
                    assert(funds@.skip(k as int)[0] == funds@[k as int]);
                    if funds[k].denom == *denom {
                        if self.amount == funds[k].amount {
                            return Ok(());
                        } else {
                            return Err(ContractError::NativeBalanceMismatch);
                        }
                    }
                    k = k + 1;
                }
                assert(funds@.skip(k as int).len() == 0);
                if self.amount == 0 {
                    Ok(())
                } else {
                    Err(ContractError::NativeBalanceMismatch)
                }
            },
            TokenInfo::Token { .. } => Ok(()),
        }
    }
}

/// One phase of a pool.
#[derive(Clone, Copy, Debug, PartialEq, Eq, Structural)]
pub struct PoolInfo {
    pub reward_per_second: Decimal,
    pub start_time: u64,
    pub end_time: u64,
    /// Most tokens one staker may stake, if limited.
    pub pool_limit_per_user: Option<u128>,
}

/// Everything a pool stores about its phases; the per-phase vectors are
/// indexed by phase.
#[derive(Clone, Debug, PartialEq, Eq)]
pub struct PoolInfos {
    pub staked_token: String,
    pub reward_token: TokenInfo,
    pub current_phase_index: u64,
    pub pool_infos: Vec<PoolInfo>,
    /// Addresses allowed to add and remove rewards.
    pub whitelist: Vec<String>,
    pub reward_balance: Vec<u128>,
    pub last_reward_time: Vec<u64>,
    pub accrued_token_per_share: Vec<Decimal>,
}

/// A pool as a mathematical value.
pub struct PoolView {
    pub staked_token: String,
    pub reward_token: TokenInfo,
    pub current_phase_index: u64,
    pub pool_infos: Seq<PoolInfo>,
    pub whitelist: Seq<String>,
    pub reward_balance: Seq<u128>,
    pub last_reward_time: Seq<u64>,
    pub accrued_token_per_share: Seq<Decimal>,
}

impl View for PoolInfos {
    type V = PoolView;

    open spec fn view(&self) -> PoolView {
        PoolView {
            staked_token: self.staked_token,
            reward_token: self.reward_token,
            current_phase_index: self.current_phase_index,
            pool_infos: self.pool_infos@,
            whitelist: self.whitelist@,
            reward_balance: self.reward_balance@,
            last_reward_time: self.last_reward_time@,
            accrued_token_per_share: self.accrued_token_per_share@,
        }
    }
}

} // verus!

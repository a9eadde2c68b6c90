//! The stored state of the pool factory.

use vstd::prelude::*;
use crate::pool::state::{PoolInfos, TokenInfo};

verus! {

/// The factory's owner and the code it instantiates pools from.
#[derive(Clone, Debug, PartialEq, Eq)]
pub struct Config {
    pub owner: String,
    pub pool_code_id: u64,
}

/// The factory's configuration as queried.
#[derive(Clone, Debug, PartialEq, Eq)]
pub struct ConfigResponse {
    pub owner: String,
    pub pool_code_id: u64,
}

/// What the factory records about a pool it created.
#[derive(Clone, Debug, PartialEq, Eq)]
pub struct FactoryPoolInfo {
    pub staked_token: String,
    pub reward_token: TokenInfo,
    pub start_time: u64,
    pub end_time: u64,
}

/// What the factory records about a pool, from the pool's state: its tokens
/// and the times of its current phase.
pub open spec fn recorded_pool(p: PoolInfos) -> FactoryPoolInfo {
    let info = p.pool_infos@[p.current_phase_index as int];
    FactoryPoolInfo {
        staked_token: p.staked_token,
        reward_token: p.reward_token,
        start_time: info.start_time,
        end_time: info.end_time,
    }
}

impl FactoryPoolInfo {
    /// The record of a pool, from the pool's state.
    pub fn from(value: &PoolInfos) -> (r: FactoryPoolInfo)
        requires
            value.current_phase_index < value.pool_infos.len(),
        ensures
            r == recorded_pool(*value),
    {
        let cur = value.current_phase_index as usize;
        FactoryPoolInfo {
            staked_token: value.staked_token.clone(),
            reward_token: value.reward_token.clone(),
            start_time: value.pool_infos[cur].start_time,
            end_time: value.pool_infos[cur].end_time,
        }
    }
}

} // verus!

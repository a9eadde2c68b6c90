//! The farm's answers to queries.

use vstd::prelude::*;
use crate::common::Env;
use crate::farm::claim::{claim_all_reward, claim_in_range, claim_reward};
use crate::farm::state::{FarmInfo, PendingRewardResponse, StakerInfo, StakerInfoResponse};

verus! {

/// The reward `staker_info` could harvest at the block time, in the farm's
/// reward token; zero for an address that has no stake.
pub fn query_pending_reward(farm_info: FarmInfo, staker_info: Option<StakerInfo>, env: &Env) -> (r: PendingRewardResponse)
    requires
        staker_info is Some ==> claim_in_range(farm_info@, staker_info->0@, env.block_time as int),
    ensures
        r.info == farm_info.reward_token,
        r.time_query == env.block_time,
        r.amount == (match staker_info {
            Some(s) => claim_reward(farm_info@, s@, env.block_time as int),
            None => 0,
        }),
{
    let current_time = env.block_time;
    let mut farm_info = farm_info;
    match staker_info {
        None => PendingRewardResponse { info: farm_info.reward_token, amount: 0, time_query: current_time },
        Some(s) => {
            let mut staker = s;
            let reward_amount = claim_all_reward(&mut farm_info, &mut staker, current_time);
            PendingRewardResponse { info: farm_info.reward_token, amount: reward_amount, time_query: current_time }
        },
    }
}

/// Total staked tokens held by the farm.
pub fn query_total_lp_token_staked(farm_info: &FarmInfo) -> (r: u128)
    ensures
        r == farm_info.staked_token_balance,
{
    farm_info.staked_token_balance
}

/// An address's stake and the phase it joined; zero and phase 0 for an
/// address without a record.
pub fn query_staker_info(staker_info: Option<StakerInfo>) -> (r: StakerInfoResponse)
    ensures
        r == (match staker_info {
            Some(s) => StakerInfoResponse { amount: s.amount, joined_phase: s.joined_phase },
            None => StakerInfoResponse { amount: 0, joined_phase: 0 },
        }),
{
    match staker_info {
        Some(s) => StakerInfoResponse { amount: s.amount, joined_phase: s.joined_phase },
        None => StakerInfoResponse { amount: 0, joined_phase: 0 },
    }
}

} // verus!

//! The pool's answers to queries.

use vstd::prelude::*;
use crate::common::Env;
use crate::math::{mul_floor, product_atomics, ratio_atomics, sat_sub, Decimal};
use crate::pool::error::ContractError;
use crate::pool::formulas::{calc_reward_amount, get_multiplier, multiplier};
use crate::pool::state::{PoolInfos, PoolView, RewardTokenAsset, StakerInfoResponse};

verus! {

/// The reward per second of phase `k` over the part of `[last reward time, to]`
/// before its end, as atomics.
pub open spec fn pending_reward_atomics(p: PoolView, k: int, to: int) -> int {
    let info = p.pool_infos[k];
    product_atomics(
        Decimal { atomics: multiplier(p.last_reward_time[k] as int, to, info.end_time as int) as u128 },
        info.reward_per_second,
    )
}

/// Phase `k`'s accrued reward per share as it would be at `to`, as atomics.
pub open spec fn pending_accrued(p: PoolView, k: int, to: int, supply: int) -> int {
    (p.accrued_token_per_share[k].atomics as int) + ratio_atomics(pending_reward_atomics(p, k, to), supply)
}

/// When computing phase `k`'s pending accrual at `to` stays within the arithmetic.
pub open spec fn accrual_in_range(p: PoolView, k: int, to: int, supply: int) -> bool {
    &&& product_atomics(
        Decimal {
            atomics: multiplier(p.last_reward_time[k] as int, to, p.pool_infos[k].end_time as int) as u128,
        },
        p.pool_infos[k].reward_per_second,
    ) <= u128::MAX
    &&& ratio_atomics(pending_reward_atomics(p, k, to), supply) <= u128::MAX
    &&& pending_accrued(p, k, to, supply) <= u128::MAX
}

/// When computing what a stake of `amount` earned in phase `k` up to `to` stays within the arithmetic.
pub open spec fn pending_in_range(p: PoolView, k: int, to: int, supply: int, amount: int) -> bool {
    &&& accrual_in_range(p, k, to, supply)
    &&& mul_floor(amount, Decimal { atomics: pending_accrued(p, k, to, supply) as u128 }) <= u128::MAX
}

/// What the finished phases `j..to` would pay, each against the stored debt.
pub open spec fn pending_past_reward(p: PoolView, supply: int, amount: int, debt: int, j: int, to: int) -> int
    decreases to - j,
{
    if to <= j {
        0
    } else {
        pending_past_reward(p, supply, amount, debt, j, to - 1) + sat_sub(
            mul_floor(amount, Decimal { atomics: pending_accrued(p, to - 1, p.pool_infos[to - 1].end_time as int, supply) as u128 }),
            debt,
        )
    }
}

pub proof fn lemma_pending_past_monotone(p: PoolView, supply: int, amount: int, debt: int, j: int, to1: int, to2: int)
    requires
        to1 <= to2,
    ensures
        0 <= pending_past_reward(p, supply, amount, debt, j, to1) <= pending_past_reward(p, supply, amount, debt, j, to2),
    decreases to2 - to1,
{
    if to1 < to2 {
        lemma_pending_past_monotone(p, supply, amount, debt, j, to1, to2 - 1);
    } else {
        lemma_pending_past_nonneg(p, supply, amount, debt, j, to1);
    }
}

pub proof fn lemma_pending_past_nonneg(p: PoolView, supply: int, amount: int, debt: int, j: int, to: int)
    ensures
        0 <= pending_past_reward(p, supply, amount, debt, j, to),
    decreases to - j,
{
    if to > j {
        lemma_pending_past_nonneg(p, supply, amount, debt, j, to - 1);
    }
}

/// What a staker could harvest at `now` with a staked supply of `supply`;
/// nothing while nothing is staked.
pub open spec fn pending_reward(p: PoolView, s: StakerInfoResponse, supply: int, now: int) -> int {
    let cur = p.current_phase_index as int;
    let j = s.joined_phase as int;
    if supply == 0 {
        0
    } else {
        pending_past_reward(p, supply, s.amount as int, s.reward_debt as int, j, cur) + sat_sub(
            mul_floor(s.amount as int, Decimal { atomics: pending_accrued(p, cur, now, supply) as u128 }),
            if j < cur { 0 } else { s.reward_debt as int },
        )
    }
}

/// The staker's record, or an empty one joined in phase 0.
pub open spec fn staker_or_default(s: Option<StakerInfoResponse>) -> StakerInfoResponse {
    match s {
        Some(v) => v,
        None => StakerInfoResponse { amount: 0, reward_debt: 0, joined_phase: 0 },
    }
}

/// When computing a pending reward stays within the stored entries and the arithmetic.
pub open spec fn pending_query_in_range(p: PoolView, s: StakerInfoResponse, supply: int, now: int) -> bool {
    let cur = p.current_phase_index as int;
    let j = s.joined_phase as int;
    supply > 0 ==> {
        &&& cur < p.last_reward_time.len()
        &&& cur < p.accrued_token_per_share.len()
        &&& forall|k: int| j <= k < cur ==> #[trigger] pending_in_range(p, k, p.pool_infos[k].end_time as int, supply, s.amount as int)
        &&& now < p.pool_infos[cur].end_time ==> p.last_reward_time[cur] <= now
        &&& pending_in_range(p, cur, now, supply, s.amount as int)
        &&& pending_reward(p, s, supply, now) <= u128::MAX
    }
}

fn accrue_pending(p: &PoolInfos, k: usize, to: u64, supply: u128) -> (r: Decimal)
    requires
        k < p.pool_infos.len(),
        k < p.last_reward_time.len(),
        k < p.accrued_token_per_share.len(),
        to < p.pool_infos@[k as int].end_time ==> p.last_reward_time@[k as int] <= to,
        supply > 0,
        accrual_in_range(p@, k as int, to as int, supply as int),
    ensures
        r.atomics == pending_accrued(p@, k as int, to as int, supply as int),
{
    let end_time = p.pool_infos[k].end_time;
    let multiplier = get_multiplier(p.last_reward_time[k], to, end_time);
    let reward = Decimal::new(multiplier as u128).multiply(p.pool_infos[k].reward_per_second);
    p.accrued_token_per_share[k].plus(reward.divide(Decimal::new(supply)))
}

/// The reward an address could harvest at the block time, in the pool's
/// reward token, with the staked supply as queried from the staked token.
pub fn query_pending_reward(
    pool_infos: &PoolInfos,
    staker_info: Option<StakerInfoResponse>,
    env: &Env,
    staked_token_supply: Result<u128, String>,
) -> (r: Result<RewardTokenAsset, ContractError>)
    requires
        pool_infos.current_phase_index < pool_infos.pool_infos.len(),
        staked_token_supply is Ok ==> pending_query_in_range(
            pool_infos@,
            staker_or_default(staker_info),
            staked_token_supply->Ok_0 as int,
            env.block_time as int,
        ),
    ensures
        r is Err <==> staked_token_supply is Err,
        r matches Err(e) ==> e == (ContractError::QueryFailed { reason: staked_token_supply->Err_0 }),
        r matches Ok(asset) ==> {
            &&& asset.info == pool_infos.reward_token
            &&& asset.amount == pending_reward(
                pool_infos@,
                staker_or_default(staker_info),
                staked_token_supply->Ok_0 as int,
                env.block_time as int,
            )
        },
{
    let current_phase_index = pool_infos.current_phase_index;
    let staker = match staker_info {
        Some(s) => s,
        None => StakerInfoResponse { amount: 0, reward_debt: 0, joined_phase: 0 },
    };
    let supply = match staked_token_supply {
        Ok(v) => v,
        Err(reason) => {
            return Err(ContractError::QueryFailed { reason });
        },
    };
    if supply == 0 {
        return Ok(RewardTokenAsset { info: pool_infos.reward_token.clone(), amount: 0 });
    }
    let ghost p = pool_infos@;
    let ghost j = staker.joined_phase as int;
    let mut reward_amount: u128 = 0;
    let mut reward_debt = staker.reward_debt;
    if staker.joined_phase < current_phase_index {
        let mut i = staker.joined_phase;
        while i < current_phase_index
            invariant
                pending_query_in_range(p, staker, supply as int, env.block_time as int),
                p == pool_infos@,
                supply > 0,
                j == staker.joined_phase as int,
                current_phase_index == p.current_phase_index,
                current_phase_index < p.pool_infos.len(),
                j <= i <= current_phase_index,
                reward_amount == pending_past_reward(p, supply as int, staker.amount as int, staker.reward_debt as int, j, i as int),
            decreases current_phase_index - i,
        {
            let idx = i as usize;
            assert(pending_in_range(p, i as int, p.pool_infos[i as int].end_time as int, supply as int, staker.amount as int));
            let end_time = pool_infos.pool_infos[idx].end_time;
            let accrued = accrue_pending(pool_infos, idx, end_time, supply);
            proof {
                lemma_pending_past_monotone(
                    p, supply as int, staker.amount as int, staker.reward_debt as int, j, i as int + 1, current_phase_index as int);
            }
            let owed = calc_reward_amount(staker.amount, accrued, staker.reward_debt);
            reward_amount = reward_amount + owed;
            i = i + 1;
        }
        reward_debt = 0;
    }
    let cur = current_phase_index as usize;
    let accrued = accrue_pending(pool_infos, cur, env.block_time, supply);
    let owed = calc_reward_amount(staker.amount, accrued, reward_debt);
    Ok(RewardTokenAsset { info: pool_infos.reward_token.clone(), amount: reward_amount + owed })
}

/// An address's stake record; an empty record joined in phase 0 for an
/// address without one.
pub fn query_staker_info(staker_info: Option<StakerInfoResponse>) -> (r: StakerInfoResponse)
    ensures
        r == staker_or_default(staker_info),
{
    match staker_info {
        Some(s) => s,
        None => StakerInfoResponse { amount: 0, reward_debt: 0, joined_phase: 0 },
    }
}

} // verus!

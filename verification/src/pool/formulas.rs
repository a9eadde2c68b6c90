//! Reward arithmetic of the pool.

use vstd::prelude::*;
use crate::math::{mul_decimal, mul_floor, product_atomics, ratio_atomics, sat_sub, Decimal};

verus! {

/// The part of `[from, to]` that lies before `end`: `to - from` while `to`
/// is before `end`, `end - from` from then on, zero when `from` is past `end`.
pub open spec fn multiplier(from: int, to: int, end: int) -> int {
    if to < end {
        to - from
    } else if from >= end {
        0
    } else {
        end - from
    }
}

/// Returns the multiplier over the given `from` and `to` range: the length of
/// the range that lies before `end`.
pub fn get_multiplier(from: u64, to: u64, end: u64) -> (r: u64)
    requires
        to < end ==> from <= to,
    ensures
        r == multiplier(from as int, to as int, end as int),
{
    if to < end {
        return to - from;
    } else if from >= end {
        return 0;
    }
    end - from
}

/// The reward a staker is owed: `staked * accrued_per_share - debt`, or zero.
pub fn calc_reward_amount(staked_amount: u128, accrued_token_per_share: Decimal, reward_debt: u128) -> (r: u128)
    requires
        mul_floor(staked_amount as int, accrued_token_per_share) <= u128::MAX,
    ensures
        r == sat_sub(mul_floor(staked_amount as int, accrued_token_per_share), reward_debt as int),
{
    let owed = mul_decimal(staked_amount, accrued_token_per_share);
    if owed >= reward_debt {
        owed - reward_debt
    } else {
        0
    }
}

/// The reward per second over the part of `[last, now]` before `end`, as a decimal.
pub open spec fn pool_reward(end: int, reward_per_second: Decimal, now: int, last: int) -> Decimal {
    Decimal {
        atomics: product_atomics(Decimal { atomics: multiplier(last, now, end) as u128 }, reward_per_second) as u128,
    }
}

/// The accrued reward per share and last reward time after accruing up to
/// `now` for a supply of `supply`: unchanged before the last reward time,
/// reset with no supply, otherwise grown by the reward per staked token.
pub open spec fn pool_update(
    end: int,
    reward_per_second: Decimal,
    supply: int,
    accrued: Decimal,
    now: int,
    last: int,
) -> (Decimal, u64) {
    if now < last {
        (accrued, last as u64)
    } else if supply == 0 {
        (Decimal { atomics: 0 }, last as u64)
    } else {
        let reward = pool_reward(end, reward_per_second, now, last);
        (
            Decimal { atomics: ((accrued.atomics as int) + ratio_atomics(reward.atomics as int, supply)) as u128 },
            now as u64,
        )
    }
}

/// When accruing stays within the arithmetic.
pub open spec fn pool_update_in_range(
    end: int,
    reward_per_second: Decimal,
    supply: int,
    accrued: Decimal,
    now: int,
    last: int,
) -> bool {
    (now >= last && supply > 0) ==> {
        let reward = pool_reward(end, reward_per_second, now, last);
        &&& product_atomics(Decimal { atomics: multiplier(last, now, end) as u128 }, reward_per_second) <= u128::MAX
        &&& ratio_atomics(reward.atomics as int, supply) <= u128::MAX
        &&& (accrued.atomics as int) + ratio_atomics(reward.atomics as int, supply) <= u128::MAX
    }
}

/// Accrues a pool phase's rewards up to `current_time` and returns the new
/// accrued reward per share and last reward time.
pub fn update_pool(
    end_time: u64,
    reward_per_second: Decimal,
    staked_token_supply: u128,
    accrued_token_per_share: Decimal,
    current_time: u64,
    last_reward_time: u64,
) -> (r: (Decimal, u64))
    requires
        pool_update_in_range(
            end_time as int,
            reward_per_second,
            staked_token_supply as int,
            accrued_token_per_share,
            current_time as int,
            last_reward_time as int,
        ),
    ensures
        r == pool_update(
            end_time as int,
            reward_per_second,
            staked_token_supply as int,
            accrued_token_per_share,
            current_time as int,
            last_reward_time as int,
        ),
{
    if current_time < last_reward_time {
        return (accrued_token_per_share, last_reward_time);
    }
    if staked_token_supply == 0 {
        (Decimal::zero(), last_reward_time)
    } else {
        let multiplier = get_multiplier(last_reward_time, current_time, end_time);
        let reward = Decimal::new(multiplier as u128).multiply(reward_per_second);
        let new_accrued_token_per_share = accrued_token_per_share.plus(reward.divide(Decimal::new(staked_token_supply)));
        (new_accrued_token_per_share, current_time)
    }
}

} // verus!

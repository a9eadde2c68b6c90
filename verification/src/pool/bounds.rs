//! Whether a pool's reward arithmetic stays within 128 bits for a given
//! message: the handlers require it, and a host tests it before calling them.

use vstd::prelude::*;
use crate::common::{Env, MessageInfo};
use crate::math::{checked_mul_decimal, checked_product, checked_ratio, mul_floor, ratio_atomics, Decimal};
use crate::pool::contract::{
    add_reward_balance_error, deposit_error, harvested_reward, is_listed, listed, settled_reward, settling_in_range,
    staker_or_empty, withdraw_error,
};
use crate::pool::formulas::{get_multiplier, pool_reward, pool_update, pool_update_in_range};
use crate::pool::query::{
    pending_accrued, pending_in_range, pending_past_reward, pending_query_in_range, pending_reward_atomics,
    staker_or_default,
};
use crate::pool::settle::{
    chained_debt, chained_reward, current_update, current_update_in_range, harvest_past_in_range, harvest_reward,
    lemma_chained_reward_monotone, past_in_range, settled, settled_in_range,
};
use crate::pool::state::{PoolInfos, RewardTokenAsset, StakerInfoResponse};

verus! {

/// The accrued reward per share and last reward time after accruing up to
/// `now`, when that stays within 128 bits.
fn pool_update_check(
    end: u64,
    reward_per_second: Decimal,
    supply: u128,
    accrued: Decimal,
    now: u64,
    last: u64,
) -> (r: Option<(Decimal, u64)>)
    ensures
        r is Some <==> pool_update_in_range(end as int, reward_per_second, supply as int, accrued, now as int, last as int),
        r matches Some(u) ==> u == pool_update(end as int, reward_per_second, supply as int, accrued, now as int, last as int),
{
    if now < last {
        return Some((accrued, last));
    }
    if supply == 0 {
        return Some((Decimal { atomics: 0 }, last));
    }
    let m = get_multiplier(last, now, end);
    let reward = match checked_product(Decimal { atomics: m as u128 }, reward_per_second) {
        Some(v) => v,
        None => {
            return None;
        },
    };
    assert(reward == pool_reward(end as int, reward_per_second, now as int, last as int).atomics);
    let ratio = match checked_ratio(reward, supply) {
        Some(v) => v,
        None => {
            return None;
        },
    };
    match accrued.atomics.checked_add(ratio) {
        Some(v) => Some((Decimal { atomics: v }, now)),
        None => None,
    }
}

/// Whether accruing a phase up to `now` stays within 128 bits.
pub fn pool_update_fits(
    end: u64,
    reward_per_second: Decimal,
    supply: u128,
    accrued: Decimal,
    now: u64,
    last: u64,
) -> (r: bool)
    ensures
        r == pool_update_in_range(end as int, reward_per_second, supply as int, accrued, now as int, last as int),
{
    pool_update_check(end, reward_per_second, supply, accrued, now, last).is_some()
}

/// The current phase's accrued reward per share after settling for a
/// deposit or withdrawal at `now`, when that stays within the stored entries
/// and 128 bits.
fn settling_check(p: &PoolInfos, s: &StakerInfoResponse, supply: u128, now: u64) -> (r: Option<Decimal>)
    ensures
        r is Some <==> {
            &&& past_in_range(p@, *s, supply as int, u128::MAX as int)
            &&& current_update_in_range(p@, supply as int, now as int)
            &&& mul_floor(s.amount as int, current_update(p@, supply as int, now as int).0) <= u128::MAX
            &&& settled_reward(p@, *s, supply, now) <= u128::MAX
        },
        r matches Some(a) ==> a == current_update(p@, supply as int, now as int).0,
{
    let ghost v = p@;
    let cur = p.current_phase_index;
    if cur >= p.pool_infos.len() as u64 || cur >= p.last_reward_time.len() as u64
        || cur >= p.accrued_token_per_share.len() as u64 {
        return None;
    }
    let j = s.joined_phase;
    let amount = s.amount;
    let mut total: u128 = 0;
    let mut debt = s.reward_debt;
    let mut i = j;
    while i < cur
        invariant
            v == p@,
            cur == v.current_phase_index,
            cur < v.pool_infos.len(),
            cur < v.last_reward_time.len(),
            cur < v.accrued_token_per_share.len(),
            j == s.joined_phase,
            amount == s.amount,
            j <= i,
            j < cur ==> i <= cur,
            j >= cur ==> i == j,
            forall|k: int| j <= k < i ==> #[trigger] settled_in_range(v, k, supply as int),
            forall|k: int| j <= k < i ==> mul_floor(amount as int, (#[trigger] settled(v, k, supply as int)).0) <= u128::MAX,
            debt == chained_debt(v, supply as int, amount as int, s.reward_debt as int, j as int, i as int),
            total == chained_reward(v, supply as int, amount as int, s.reward_debt as int, j as int, i as int),
        decreases cur - i,
    {
        assert(i < p.pool_infos.len());
        let idx = i as usize;
        let info = p.pool_infos[idx];
        assert(info == v.pool_infos[i as int]);
        let u = match pool_update_check(
            info.end_time,
            info.reward_per_second,
            supply,
            p.accrued_token_per_share[idx],
            info.end_time,
            p.last_reward_time[idx],
        ) {
            Some(u) => u,
            None => {
                assert(!settled_in_range(v, i as int, supply as int));
                return None;
            },
        };
        assert(u == settled(v, i as int, supply as int));
        let earned = match checked_mul_decimal(amount, u.0) {
            Some(e) => e,
            None => {
                assert(mul_floor(amount as int, settled(v, i as int, supply as int).0) > u128::MAX);
                return None;
            },
        };
        let owed: u128 = if earned >= debt {
            earned - debt
        } else {
            0
        };
        proof {
            lemma_chained_reward_monotone(v, supply as int, amount as int, s.reward_debt as int, j as int, i as int + 1, cur as int);
        }
        total = match total.checked_add(owed) {
            Some(t) => t,
            None => {
                return None;
            },
        };
        debt = earned;
        i = i + 1;
    }
    let c = cur as usize;
    let info = p.pool_infos[c];
    let u = match pool_update_check(
        info.end_time,
        info.reward_per_second,
        supply,
        p.accrued_token_per_share[c],
        now,
        p.last_reward_time[c],
    ) {
        Some(u) => u,
        None => {
            return None;
        },
    };
    assert(u == current_update(v, supply as int, now as int));
    let earned = match checked_mul_decimal(amount, u.0) {
        Some(e) => e,
        None => {
            return None;
        },
    };
    let against: u128 = if j < cur {
        0
    } else {
        s.reward_debt
    };
    let owed: u128 = if earned >= against {
        earned - against
    } else {
        0
    };
    match total.checked_add(owed) {
        Some(_) => Some(u.0),
        None => None,
    }
}

/// Whether settling for a deposit or withdrawal at `now` stays within the
/// stored entries and 128 bits, the stake then becoming `new_amount`.
pub fn settling_fits(p: &PoolInfos, s: &StakerInfoResponse, supply: u128, now: u64, new_amount: u128) -> (r: bool)
    ensures
        r == settling_in_range(p@, *s, supply, now, new_amount as int),
{
    match settling_check(p, s, supply, now) {
        Some(a) => checked_mul_decimal(new_amount, a).is_some(),
        None => false,
    }
}

/// Whether a deposit of `amount` at `now` stays within the stored entries
/// and 128 bits, when the pool accepts it.
pub fn deposit_fits(
    pool_infos: &PoolInfos,
    staker_info: &Option<StakerInfoResponse>,
    env: &Env,
    amount: u128,
    staked_token_supply: &Result<u128, String>,
) -> (r: bool)
    ensures
        r == ({
            &&& pool_infos.current_phase_index < pool_infos.pool_infos.len()
            &&& (pool_infos.pool_infos@[pool_infos.current_phase_index as int].pool_limit_per_user matches Some(limit) && limit > 0)
                ==> staker_or_empty(*staker_info, pool_infos.current_phase_index).amount + amount <= u128::MAX
            &&& deposit_error(pool_infos@, *staker_info, amount, *staked_token_supply) is None ==> {
                let st = staker_or_empty(*staker_info, pool_infos.current_phase_index);
                settling_in_range(pool_infos@, st, staked_token_supply->Ok_0, env.block_time, st.amount + amount)
            }
        }),
{
    let cur = pool_infos.current_phase_index;
    if cur >= pool_infos.pool_infos.len() as u64 {
        return false;
    }
    let st = match staker_info {
        Some(s) => *s,
        None => StakerInfoResponse { amount: 0, reward_debt: 0, joined_phase: cur },
    };
    let total = st.amount.checked_add(amount);
    let limit = pool_infos.pool_infos[cur as usize].pool_limit_per_user;
    match limit {
        Some(l) if l > 0 => match total {
            Some(t) => {
                if t > l {
                    return true;
                }
            },
            None => {
                return false;
            },
        },
        _ => {},
    }
    match staked_token_supply {
        Ok(supply) => match total {
            Some(t) => settling_fits(pool_infos, &st, *supply, env.block_time, t),
            None => false,
        },
        Err(_) => true,
    }
}

/// Whether a withdrawal of `amount` at `now` stays within the stored entries
/// and 128 bits, when the pool accepts it.
pub fn withdraw_fits(
    pool_infos: &PoolInfos,
    staker_info: &Option<StakerInfoResponse>,
    env: &Env,
    amount: u128,
    staked_token_supply: &Result<u128, String>,
) -> (r: bool)
    ensures
        r == (withdraw_error(pool_infos@, *staker_info, amount, *staked_token_supply) is None ==> {
            let st = staker_or_empty(*staker_info, pool_infos.current_phase_index);
            settling_in_range(pool_infos@, st, staked_token_supply->Ok_0, env.block_time, st.amount - amount)
        }),
{
    let st = match staker_info {
        Some(s) => *s,
        None => StakerInfoResponse { amount: 0, reward_debt: 0, joined_phase: pool_infos.current_phase_index },
    };
    if st.amount == 0 || st.amount < amount {
        return true;
    }
    match staked_token_supply {
        Ok(supply) => settling_fits(pool_infos, &st, *supply, env.block_time, st.amount - amount),
        Err(_) => true,
    }
}

/// Whether a harvest at `now` stays within the stored entries and 128 bits,
/// for a staker with a stake and a known staked supply.
pub fn harvest_fits(
    pool_infos: &PoolInfos,
    staker_info: &Option<StakerInfoResponse>,
    env: &Env,
    staked_token_supply: &Result<u128, String>,
) -> (r: bool)
    ensures
        r == ((staker_or_empty(*staker_info, pool_infos.current_phase_index).amount > 0 && staked_token_supply is Ok) ==> {
            let st = staker_or_empty(*staker_info, pool_infos.current_phase_index);
            let supply = staked_token_supply->Ok_0;
            &&& harvest_past_in_range(pool_infos@, st, supply as int)
            &&& current_update_in_range(pool_infos@, supply as int, env.block_time as int)
            &&& mul_floor(st.amount as int, current_update(pool_infos@, supply as int, env.block_time as int).0) <= u128::MAX
            &&& harvested_reward(pool_infos@, st, supply, env.block_time) <= u128::MAX
        }),
{
    let ghost v = pool_infos@;
    let st = match staker_info {
        Some(s) => *s,
        None => StakerInfoResponse { amount: 0, reward_debt: 0, joined_phase: pool_infos.current_phase_index },
    };
    let supply = match staked_token_supply {
        Ok(supply) => *supply,
        Err(_) => {
            return true;
        },
    };
    assert(st == staker_or_empty(*staker_info, pool_infos.current_phase_index));
    if st.amount == 0 {
        return true;
    }
    let cur = pool_infos.current_phase_index;
    if cur >= pool_infos.pool_infos.len() as u64 || cur >= pool_infos.last_reward_time.len() as u64
        || cur >= pool_infos.accrued_token_per_share.len() as u64 {
        return false;
    }
    let j = st.joined_phase;
    let amount = st.amount;
    let mut total: u128 = 0;
    let mut i = j;
    while i < cur
        invariant
            v == pool_infos@,
            cur == v.current_phase_index,
            cur < v.pool_infos.len(),
            cur < v.last_reward_time.len(),
            cur < v.accrued_token_per_share.len(),
            j == st.joined_phase,
            amount == st.amount,
            amount > 0,
            st == staker_or_empty(*staker_info, v.current_phase_index),
            staked_token_supply is Ok,
            staked_token_supply->Ok_0 == supply,
            j <= i,
            j < cur ==> i <= cur,
            j >= cur ==> i == j,
            forall|k: int| j <= k < i ==> #[trigger] settled_in_range(v, k, supply as int),
            forall|k: int| j <= k < i ==> mul_floor(amount as int, (#[trigger] settled(v, k, supply as int)).0) <= u128::MAX,
            total == harvest_reward(v, supply as int, amount as int, st.reward_debt as int, j as int, i as int),
        decreases cur - i,
    {
        assert(i < pool_infos.pool_infos.len());
        let idx = i as usize;
        let info = pool_infos.pool_infos[idx];
        assert(info == v.pool_infos[i as int]);
        let u = match pool_update_check(
            info.end_time,
            info.reward_per_second,
            supply,
            pool_infos.accrued_token_per_share[idx],
            info.end_time,
            pool_infos.last_reward_time[idx],
        ) {
            Some(u) => u,
            None => {
                assert(!settled_in_range(v, i as int, supply as int));
                return false;
            },
        };
        assert(u == settled(v, i as int, supply as int));
        let earned = match checked_mul_decimal(amount, u.0) {
            Some(e) => e,
            None => {
                assert(mul_floor(amount as int, settled(v, i as int, supply as int).0) > u128::MAX);
                return false;
            },
        };
        let against: u128 = if i == j {
            st.reward_debt
        } else {
            0
        };
        let owed: u128 = if earned >= against {
            earned - against
        } else {
            0
        };
        proof {
            crate::pool::settle::lemma_harvest_reward_monotone(
                v, supply as int, amount as int, st.reward_debt as int, j as int, i as int + 1, cur as int);
        }
        total = match total.checked_add(owed) {
            Some(t) => t,
            None => {
                return false;
            },
        };
        i = i + 1;
    }
    let c = cur as usize;
    let info = pool_infos.pool_infos[c];
    let u = match pool_update_check(
        info.end_time,
        info.reward_per_second,
        supply,
        pool_infos.accrued_token_per_share[c],
        env.block_time,
        pool_infos.last_reward_time[c],
    ) {
        Some(u) => u,
        None => {
            return false;
        },
    };
    assert(u == current_update(v, supply as int, env.block_time as int));
    let earned = match checked_mul_decimal(amount, u.0) {
        Some(e) => e,
        None => {
            return false;
        },
    };
    let against: u128 = if j < cur {
        0
    } else {
        st.reward_debt
    };
    let owed: u128 = if earned >= against {
        earned - against
    } else {
        0
    };
    total.checked_add(owed).is_some()
}

/// Phase `k`'s pending accrued reward per share at `to`, when computing it
/// and what a stake of `amount` earned with it stays within 128 bits.
fn pending_phase_check(p: &PoolInfos, k: usize, to: u64, supply: u128, amount: u128) -> (r: Option<u128>)
    requires
        k < p.pool_infos.len(),
        k < p.last_reward_time.len(),
        k < p.accrued_token_per_share.len(),
        to < p.pool_infos@[k as int].end_time ==> p.last_reward_time@[k as int] <= to,
        supply > 0,
    ensures
        r is Some <==> pending_in_range(p@, k as int, to as int, supply as int, amount as int),
        r matches Some(a) ==> a == pending_accrued(p@, k as int, to as int, supply as int),
{
    let end = p.pool_infos[k].end_time;
    let m = get_multiplier(p.last_reward_time[k], to, end);
    let reward = match checked_product(Decimal { atomics: m as u128 }, p.pool_infos[k].reward_per_second) {
        Some(v) => v,
        None => {
            return None;
        },
    };
    assert(reward == pending_reward_atomics(p@, k as int, to as int));
    let ratio = match checked_ratio(reward, supply) {
        Some(v) => v,
        None => {
            return None;
        },
    };
    let accrued = match p.accrued_token_per_share[k].atomics.checked_add(ratio) {
        Some(v) => v,
        None => {
            return None;
        },
    };
    assert(accrued == pending_accrued(p@, k as int, to as int, supply as int));
    match checked_mul_decimal(amount, Decimal { atomics: accrued }) {
        Some(_) => Some(accrued),
        None => None,
    }
}

/// Whether computing a pending reward at the block time stays within the
/// stored entries and 128 bits.
pub fn pending_fits(
    pool_infos: &PoolInfos,
    staker_info: &Option<StakerInfoResponse>,
    env: &Env,
    staked_token_supply: &Result<u128, String>,
) -> (r: bool)
    ensures
        r == ({
            &&& pool_infos.current_phase_index < pool_infos.pool_infos.len()
            &&& staked_token_supply is Ok ==> pending_query_in_range(
                pool_infos@,
                staker_or_default(*staker_info),
                staked_token_supply->Ok_0 as int,
                env.block_time as int,
            )
        }),
{
    let ghost v = pool_infos@;
    let cur = pool_infos.current_phase_index;
    if cur >= pool_infos.pool_infos.len() as u64 {
        return false;
    }
    let st = match staker_info {
        Some(s) => *s,
        None => StakerInfoResponse { amount: 0, reward_debt: 0, joined_phase: 0 },
    };
    assert(st == staker_or_default(*staker_info));
    let supply = match staked_token_supply {
        Ok(v) => *v,
        Err(_) => {
            return true;
        },
    };
    if supply == 0 {
        return true;
    }
    if cur >= pool_infos.last_reward_time.len() as u64 || cur >= pool_infos.accrued_token_per_share.len() as u64 {
        return false;
    }
    let now = env.block_time;
    let c = cur as usize;
    if now < pool_infos.pool_infos[c].end_time && pool_infos.last_reward_time[c] > now {
        return false;
    }
    let j = st.joined_phase;
    let amount = st.amount;
    let mut total: u128 = 0;
    let mut i = j;
    while i < cur
        invariant
            v == pool_infos@,
            cur == v.current_phase_index,
            cur < v.pool_infos.len(),
            cur < v.last_reward_time.len(),
            cur < v.accrued_token_per_share.len(),
            supply > 0,
            staked_token_supply is Ok,
            staked_token_supply->Ok_0 == supply,
            st == staker_or_default(*staker_info),
            j == st.joined_phase,
            amount == st.amount,
            j <= i,
            j < cur ==> i <= cur,
            j >= cur ==> i == j,
            forall|k: int| j <= k < i ==> #[trigger] pending_in_range(v, k, v.pool_infos[k].end_time as int, supply as int, amount as int),
            total == pending_past_reward(v, supply as int, amount as int, st.reward_debt as int, j as int, i as int),
        decreases cur - i,
    {
        assert(i < pool_infos.pool_infos.len());
        let idx = i as usize;
        let end = pool_infos.pool_infos[idx].end_time;
        let accrued = match pending_phase_check(pool_infos, idx, end, supply, amount) {
            Some(a) => a,
            None => {
                assert(!pending_in_range(v, i as int, v.pool_infos[i as int].end_time as int, supply as int, amount as int));
                return false;
            },
        };
        let earned = match checked_mul_decimal(amount, Decimal { atomics: accrued }) {
            Some(e) => e,
            None => {
                return false;
            },
        };
        let owed: u128 = if earned >= st.reward_debt {
            earned - st.reward_debt
        } else {
            0
        };
        proof {
            crate::pool::query::lemma_pending_past_monotone(
                v, supply as int, amount as int, st.reward_debt as int, j as int, i as int + 1, cur as int);
        }
        total = match total.checked_add(owed) {
            Some(t) => t,
            None => {
                return false;
            },
        };
        i = i + 1;
    }
    let accrued = match pending_phase_check(pool_infos, c, now, supply, amount) {
        Some(a) => a,
        None => {
            return false;
        },
    };
    let earned = match checked_mul_decimal(amount, Decimal { atomics: accrued }) {
        Some(e) => e,
        None => {
            return false;
        },
    };
    let against: u128 = if j < cur {
        0
    } else {
        st.reward_debt
    };
    let owed: u128 = if earned >= against {
        earned - against
    } else {
        0
    };
    total.checked_add(owed).is_some()
}

/// Whether adding reward balance to a phase stays within the stored entries
/// and 128 bits, when the pool accepts it.
pub fn add_reward_balance_fits(
    pool_infos: &PoolInfos,
    env: &Env,
    info: &MessageInfo,
    phase_index: u64,
    asset: &RewardTokenAsset,
    staked_token_supply: &Result<u128, String>,
) -> (r: bool)
    ensures
        r == ({
            &&& phase_index < pool_infos.pool_infos.len()
            &&& (listed(pool_infos.whitelist@, info.sender)
                && env.block_time <= pool_infos.pool_infos@[phase_index as int].end_time) ==> {
                &&& phase_index < pool_infos.accrued_token_per_share.len()
                &&& phase_index < pool_infos.reward_balance.len()
            }
            &&& add_reward_balance_error(pool_infos@, info.sender, info.funds@, env.block_time, phase_index, *asset, Ok(0)) is None ==> {
                let p = pool_infos@.pool_infos[phase_index as int];
                &&& p.start_time < p.end_time
                &&& ratio_atomics(asset.amount as int, (p.end_time as int) - (p.start_time as int)) <= u128::MAX
            }
            &&& add_reward_balance_error(pool_infos@, info.sender, info.funds@, env.block_time, phase_index, *asset, *staked_token_supply) is None ==> {
                let p = pool_infos@.pool_infos[phase_index as int];
                &&& phase_index < pool_infos.last_reward_time.len()
                &&& pool_update_in_range(
                    p.end_time as int,
                    p.reward_per_second,
                    staked_token_supply->Ok_0 as int,
                    pool_infos@.accrued_token_per_share[phase_index as int],
                    env.block_time as int,
                    p.start_time as int,
                )
            }
        }),
{
    if phase_index >= pool_infos.pool_infos.len() as u64 {
        return false;
    }
    let idx = phase_index as usize;
    let p = pool_infos.pool_infos[idx];
    if !is_listed(&pool_infos.whitelist, &info.sender) || env.block_time > p.end_time {
        return true;
    }
    if idx >= pool_infos.accrued_token_per_share.len() || idx >= pool_infos.reward_balance.len() {
        return false;
    }
    if pool_infos.reward_balance[idx] > 0 || asset.assert_sent_native_token_balance(&info.funds).is_err() {
        return true;
    }
    if p.start_time >= p.end_time || checked_ratio(asset.amount, (p.end_time - p.start_time) as u128).is_none() {
        return false;
    }
    let supply = match staked_token_supply {
        Ok(v) => *v,
        Err(_) => {
            return true;
        },
    };
    if idx >= pool_infos.last_reward_time.len() {
        return false;
    }
    pool_update_fits(p.end_time, p.reward_per_second, supply, pool_infos.accrued_token_per_share[idx], env.block_time, p.start_time)
}

} // verus!

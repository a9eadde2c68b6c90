//! Whether a farm's reward arithmetic stays within 128 bits for a given
//! message: the handlers require it, and a host tests it before calling them.

use vstd::prelude::*;
use crate::farm::claim::{claim_in_range, claim_reward, claimed_debt, claimed_phase, debt_at, lemma_past_reward_monotone, past_phases_reward};
use crate::common::{Env, MessageInfo};
use crate::farm::execute::{
    activate_phase_error, add_reward_balance_error, deposit_error, deposit_in_range, new_staker, staker_or_new, staker_view,
    withdraw_error,
};
use crate::farm::formulas::{accrued_after, get_multiplier, released_reward, update_in_range, updated_phase};
use crate::farm::state::{Config, FarmInfo, PhaseInfo, StakerInfo, TokenInfo};
use crate::math::{checked_mul_decimal, checked_ratio, mul_floor, Decimal};

verus! {

/// The accrued reward per share of `p` after accruing up to `t` for a stake
/// of `b`, when that stays within 128 bits.
fn update_check(p: &PhaseInfo, t: u64, b: u128) -> (r: Option<Decimal>)
    ensures
        r is Some <==> update_in_range(*p, t as int, b as int),
        r matches Some(a) ==> a == updated_phase(*p, t as int, b as int).accrued_token_per_share,
{
    if t < p.last_reward_time {
        return Some(p.accrued_token_per_share);
    }
    if b == 0 {
        return Some(Decimal { atomics: 0 });
    }
    if p.start_time >= p.end_time {
        return None;
    }
    let m = get_multiplier(p.last_reward_time, t, p.end_time);
    let scaled = match (m as u128).checked_mul(p.reward_balance) {
        Some(v) => v,
        None => {
            return None;
        },
    };
    let released = scaled / ((p.end_time - p.start_time) as u128);
    assert(released == released_reward(*p, t as int));
    let ratio = match checked_ratio(released, b) {
        Some(v) => v,
        None => {
            return None;
        },
    };
    match p.accrued_token_per_share.atomics.checked_add(ratio) {
        Some(v) => {
            assert(v == accrued_after(*p, t as int, b as int));
            Some(Decimal { atomics: v })
        },
        None => None,
    }
}

/// Whether accruing `p` up to `t` for a stake of `b` stays within 128 bits.
pub fn update_fits(p: &PhaseInfo, t: u64, b: u128) -> (r: bool)
    ensures
        r == update_in_range(*p, t as int, b as int),
{
    update_check(p, t, b).is_some()
}

/// The current phase's accrued reward per share after a claim at `t`, when
/// the claim stays within the stored entries and 128 bits.
fn claim_check(farm_info: &FarmInfo, staker_info: &StakerInfo, t: u64) -> (r: Option<Decimal>)
    ensures
        r is Some <==> claim_in_range(farm_info@, staker_info@, t as int),
        r matches Some(a) ==> a == claimed_phase(farm_info@, t as int).accrued_token_per_share,
{
    let ghost f = farm_info@;
    let ghost s = staker_info@;
    let cur = farm_info.current_phase_index;
    if cur >= farm_info.phases_info.len() as u64 {
        return None;
    }
    let j = staker_info.joined_phase;
    let debt_len = staker_info.reward_debt.len() as u64;
    if j < cur {
        if j >= debt_len {
            return None;
        }
    } else if cur >= debt_len {
        return None;
    }
    let amount = staker_info.amount;
    let mut past: u128 = 0;
    let mut i = j;
    while i < cur
        invariant
            f == farm_info@,
            s == staker_info@,
            cur == f.current_phase_index,
            cur < f.phases.len(),
            j == s.joined_phase,
            amount == s.amount,
            debt_len == s.reward_debt.len(),
            j <= i,
            j < cur ==> i <= cur,
            j >= cur ==> i == j,
            forall|k: int| j <= k < i ==> mul_floor(amount as int, #[trigger] f.phases[k].accrued_token_per_share) <= u128::MAX,
            past == past_phases_reward(amount as int, f.phases, s.reward_debt, j as int, i as int),
        decreases cur - i,
    {
        assert(i < farm_info.phases_info.len());
        let idx = i as usize;
        let acc = farm_info.phases_info[idx].accrued_token_per_share;
        assert(acc == f.phases[i as int].accrued_token_per_share);
        let earned = match checked_mul_decimal(amount, acc) {
            Some(v) => v,
            None => {
                return None;
            },
        };
        let debt: u128 = if idx < staker_info.reward_debt.len() {
            staker_info.reward_debt[idx]
        } else {
            0
        };
        assert(debt == debt_at(s.reward_debt, i as int));
        let owed: u128 = if earned >= debt {
            earned - debt
        } else {
            0
        };
        proof {
            lemma_past_reward_monotone(amount as int, f.phases, s.reward_debt, j as int, i as int + 1, cur as int);
            assert(claim_reward(f, s, t as int) >= past_phases_reward(amount as int, f.phases, s.reward_debt, j as int, cur as int));
        }
        past = match past.checked_add(owed) {
            Some(v) => v,
            None => {
                return None;
            },
        };
        i = i + 1;
    }
    let accrued = match update_check(&farm_info.phases_info[cur as usize], t, farm_info.staked_token_balance) {
        Some(a) => a,
        None => {
            return None;
        },
    };
    assert(accrued == claimed_phase(f, t as int).accrued_token_per_share);
    let earned = match checked_mul_decimal(amount, accrued) {
        Some(v) => v,
        None => {
            return None;
        },
    };
    let debt: u128 = if cur < debt_len {
        staker_info.reward_debt[cur as usize]
    } else {
        0
    };
    assert(claimed_debt(f, s)[cur as int] as int == debt_at(s.reward_debt, cur as int));
    let owed: u128 = if earned >= debt {
        earned - debt
    } else {
        0
    };
    match past.checked_add(owed) {
        Some(_) => Some(accrued),
        None => None,
    }
}

/// Whether a claim at `t` stays within the stored entries and 128 bits.
pub fn claim_fits(farm_info: &FarmInfo, staker_info: &StakerInfo, t: u64) -> (r: bool)
    ensures
        r == claim_in_range(farm_info@, staker_info@, t as int),
{
    claim_check(farm_info, staker_info, t).is_some()
}

/// Whether a deposit of `amount` at `now` stays within the stored entries and
/// 128 bits.
pub fn deposit_fits(farm_info: &FarmInfo, staker_info: &Option<StakerInfo>, now: u64, amount: u128) -> (r: bool)
    ensures
        r == deposit_in_range(farm_info@, staker_view(*staker_info), now, amount),
{
    let ghost f = farm_info@;
    let ghost s = staker_view(*staker_info);
    if amount == 0 {
        return true;
    }
    let cur = farm_info.current_phase_index;
    if cur >= farm_info.phases_info.len() as u64 {
        return false;
    }
    let phase = &farm_info.phases_info[cur as usize];
    let fresh;
    let staker = match staker_info {
        Some(v) => v,
        None => {
            fresh = StakerInfo {
                amount: 0,
                reward_debt: crate::farm::execute::zero_debts(cur as usize + 1),
                joined_phase: cur,
            };
            assert(fresh@ == new_staker(cur as int));
            &fresh
        },
    };
    assert(staker@ == staker_or_new(s, cur as int));
    let total = staker.amount.checked_add(amount);
    let limited = match farm_info.phases_limit_per_user {
        Some(limit) => limit > 0,
        None => false,
    };
    if phase.reward_balance != 0 && now <= phase.end_time && limited && total.is_none() {
        return false;
    }
    let refused = phase.reward_balance == 0 || now > phase.end_time || match farm_info.phases_limit_per_user {
        Some(limit) => limit > 0 && match total {
            Some(v) => v > limit,
            None => true,
        },
        None => false,
    };
    assert(refused == deposit_error(f, s, now, amount) is Some);
    if refused {
        return true;
    }
    let accrued = match claim_check(farm_info, staker, now) {
        Some(a) => a,
        None => {
            return false;
        },
    };
    let new_amount = match total {
        Some(v) => v,
        None => {
            return false;
        },
    };
    if farm_info.staked_token_balance.checked_add(amount).is_none() {
        return false;
    }
    checked_mul_decimal(new_amount, accrued).is_some()
}

/// Whether a withdrawal of `amount` at `now` stays within the stored entries
/// and 128 bits, when the farm accepts it.
pub fn withdraw_fits(farm_info: &FarmInfo, staker_info: &Option<StakerInfo>, now: u64, amount: u128) -> (r: bool)
    ensures
        r == (withdraw_error(staker_view(*staker_info), amount) is None ==> {
            &&& claim_in_range(farm_info@, staker_info->0@, now as int)
            &&& farm_info.staked_token_balance >= amount
        }),
{
    match staker_info {
        Some(s) => {
            if amount == 0 || s.amount < amount {
                true
            } else {
                claim_fits(farm_info, s, now) && farm_info.staked_token_balance >= amount
            }
        },
        None => true,
    }
}

/// Whether activating the next phase at `now` stays within the stored
/// entries and 128 bits, when the farm accepts it.
pub fn activate_fits(farm_info: &FarmInfo, config: &Config, env: &Env, info: &MessageInfo) -> (r: bool)
    ensures
        r == (activate_phase_error(farm_info@, config.farm_owner, info.sender, env.block_time) is None ==> {
            let p = farm_info.phases_info@[farm_info.current_phase_index as int];
            update_in_range(p, p.end_time as int, farm_info.staked_token_balance as int)
        }),
{
    let cur = farm_info.current_phase_index;
    let len = farm_info.phases_info.len() as u64;
    if !(config.farm_owner == info.sender) || len <= cur || len - cur == 1 {
        return true;
    }
    let now = env.block_time;
    let p = &farm_info.phases_info[cur as usize];
    if now < p.end_time {
        return true;
    }
    let next = &farm_info.phases_info[cur as usize + 1];
    if now > next.start_time || next.reward_balance == 0 {
        return true;
    }
    update_fits(p, p.end_time, farm_info.staked_token_balance)
}

/// Whether adding `amount` to a phase's reward balance stays within the
/// stored phases and 128 bits, when the farm accepts it.
pub fn add_reward_balance_fits(farm_info: &FarmInfo, env: &Env, info: &MessageInfo, phase_index: u64, amount: u128) -> (r: bool)
    ensures
        r == ({
            &&& !(phase_index <= farm_info.current_phase_index && farm_info.current_phase_index != 0)
                ==> phase_index < farm_info.phases_info.len()
            &&& add_reward_balance_error(farm_info@, info.sender, info.funds@, env.block_time, phase_index, amount) is None
                ==> farm_info.phases_info@[phase_index as int].reward_balance + amount <= u128::MAX
        }),
{
    let cur = farm_info.current_phase_index;
    if phase_index <= cur && cur != 0 {
        return true;
    }
    if phase_index >= farm_info.phases_info.len() as u64 {
        return false;
    }
    let p = &farm_info.phases_info[phase_index as usize];
    let funded = match &farm_info.reward_token {
        TokenInfo::NativeToken { denom } => crate::cosmwasm::has_coins(&info.funds, denom, amount),
        TokenInfo::Token { .. } => true,
    };
    if !(p.whitelist == info.sender) || !funded || env.block_time > p.start_time {
        return true;
    }
    p.reward_balance.checked_add(amount).is_some()
}

} // verus!

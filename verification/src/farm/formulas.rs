//! Reward arithmetic of the farm.

use vstd::prelude::*;
use crate::farm::state::PhaseInfo;
use crate::math::{mul_decimal, mul_floor, ratio_atomics, sat_sub, Decimal, DECIMAL_FRACTIONAL};

verus! {

/// The part of `[from, to]` that lies before `end`: `to - from` while `to`
/// has not passed `end`, `end - from` once it has, zero when `from` is past `end`.
pub open spec fn multiplier(from: int, to: int, end: int) -> int {
    if to <= end {
        to - from
    } else if from >= end {
        0
    } else {
        end - from
    }
}

/// Returns the multiplier over the given `from` and `to` range: the length of
/// the range that lies before `end`.
pub fn get_multiplier(from: u64, to: u64, end: u64) -> (r: u64)
    requires
        to <= end ==> from <= to,
    ensures
        r == multiplier(from as int, to as int, end as int),
{
    if to <= end {
        return to - from;
    } else if from >= end {
        return 0;
    }
    end - from
}

/// The reward a staker is owed: `staked * accrued_per_share - debt`, or zero.
pub fn calc_reward_amount(staked_amount: u128, accrued_token_per_share: Decimal, reward_debt: u128) -> (r: u128)
    requires
        mul_floor(staked_amount as int, accrued_token_per_share) <= u128::MAX,
    ensures
        r == sat_sub(mul_floor(staked_amount as int, accrued_token_per_share), reward_debt as int),
{
    let owed = mul_decimal(staked_amount, accrued_token_per_share);
    if owed >= reward_debt {
        owed - reward_debt
    } else {
        0
    }
}

/// Reward tokens a phase releases between its last reward time and `t`:
/// its balance spread evenly over the phase.
pub open spec fn released_reward(p: PhaseInfo, t: int) -> int {
    multiplier(p.last_reward_time as int, t, p.end_time as int) * (p.reward_balance as int)
        / ((p.end_time as int) - (p.start_time as int))
}

/// The accrued reward per share after releasing rewards up to `t` to a stake of `b`.
pub open spec fn accrued_after(p: PhaseInfo, t: int, b: int) -> int {
    (p.accrued_token_per_share.atomics as int) + ratio_atomics(released_reward(p, t), b)
}

/// When updating a phase to time `t` with stake `b` stays within the
/// arithmetic: the phase has positive length and no intermediate value
/// exceeds `u128`.
pub open spec fn update_in_range(p: PhaseInfo, t: int, b: int) -> bool {
    (t >= p.last_reward_time && b > 0) ==> {
        &&& p.start_time < p.end_time
        &&& multiplier(p.last_reward_time as int, t, p.end_time as int) * (p.reward_balance as int) <= u128::MAX
        &&& ratio_atomics(released_reward(p, t), b) <= u128::MAX
        &&& accrued_after(p, t, b) <= u128::MAX
    }
}

/// The phase after accruing rewards up to `t` for a stake of `b`.
pub open spec fn updated_phase(p: PhaseInfo, t: int, b: int) -> PhaseInfo {
    if t < p.last_reward_time {
        p
    } else if b == 0 {
        PhaseInfo { last_reward_time: t as u64, accrued_token_per_share: Decimal { atomics: 0 }, ..p }
    } else {
        PhaseInfo {
            last_reward_time: (if t < p.end_time { t } else { p.end_time as int }) as u64,
            accrued_token_per_share: Decimal { atomics: accrued_after(p, t, b) as u128 },
            ..p
        }
    }
}

impl PhaseInfo {
    /// Accrues the phase's rewards up to `current_time` for a total stake of
    /// `staked_token_balance`, and returns the new accrued reward per share
    /// and last reward time. Nothing changes when `current_time` is before the
    /// last reward time; with no stake the accrued reward per share is reset.
    pub fn update_reward_ratio_and_time(&mut self, current_time: u64, staked_token_balance: u128) -> (r: (Decimal, u64))
        requires
            update_in_range(*old(self), current_time as int, staked_token_balance as int),
        ensures
            *final(self) == updated_phase(*old(self), current_time as int, staked_token_balance as int),
            r == (final(self).accrued_token_per_share, final(self).last_reward_time),
    {
        if current_time < self.last_reward_time {
            return (self.accrued_token_per_share, self.last_reward_time);
        }
        if staked_token_balance == 0 {
            self.last_reward_time = current_time;
            self.accrued_token_per_share = Decimal::zero();
            (Decimal::zero(), current_time)
        } else {
            let multiplier = get_multiplier(self.last_reward_time, current_time, self.end_time);
            let reward = (multiplier as u128) * self.reward_balance / ((self.end_time - self.start_time) as u128);
            let new_accrued_token_per_share = self.accrued_token_per_share.plus(
                Decimal::new(reward).divide(Decimal::new(staked_token_balance)),
            );
            let new_last_reward_time = if current_time < self.end_time {
                current_time
            } else {
                self.end_time
            };
            self.last_reward_time = new_last_reward_time;
            self.accrued_token_per_share = new_accrued_token_per_share;
            (new_accrued_token_per_share, new_last_reward_time)
        }
    }
}

} // verus!

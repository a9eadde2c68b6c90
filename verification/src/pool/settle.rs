//! Settling a pool staker's rewards across the phases since it last acted.

use vstd::prelude::*;
use crate::math::{mul_floor, sat_sub, Decimal};
use crate::pool::formulas::{calc_reward_amount, pool_update, pool_update_in_range, update_pool};
use crate::pool::state::{PoolInfos, PoolView, StakerInfoResponse};

verus! {

/// Phase `k` accrued up to its end: its new accrued reward per share and last
/// reward time.
pub open spec fn settled(p: PoolView, k: int, supply: int) -> (Decimal, u64) {
    let info = p.pool_infos[k];
    pool_update(
        info.end_time as int,
        info.reward_per_second,
        supply,
        p.accrued_token_per_share[k],
        info.end_time as int,
        p.last_reward_time[k] as int,
    )
}

/// When accruing phase `k` up to its end stays within the arithmetic.
pub open spec fn settled_in_range(p: PoolView, k: int, supply: int) -> bool {
    let info = p.pool_infos[k];
    pool_update_in_range(
        info.end_time as int,
        info.reward_per_second,
        supply,
        p.accrued_token_per_share[k],
        info.end_time as int,
        p.last_reward_time[k] as int,
    )
}

/// The current phase accrued up to `now`.
pub open spec fn current_update(p: PoolView, supply: int, now: int) -> (Decimal, u64) {
    let cur = p.current_phase_index as int;
    let info = p.pool_infos[cur];
    pool_update(
        info.end_time as int,
        info.reward_per_second,
        supply,
        p.accrued_token_per_share[cur],
        now,
        p.last_reward_time[cur] as int,
    )
}

/// When accruing the current phase up to `now` stays within the arithmetic.
pub open spec fn current_update_in_range(p: PoolView, supply: int, now: int) -> bool {
    let cur = p.current_phase_index as int;
    let info = p.pool_infos[cur];
    pool_update_in_range(
        info.end_time as int,
        info.reward_per_second,
        supply,
        p.accrued_token_per_share[cur],
        now,
        p.last_reward_time[cur] as int,
    )
}

/// The staker's debt when phase `k` is settled: its stored debt for the
/// phase it joined, afterwards what its stake earned in the phase before.
pub open spec fn chained_debt(p: PoolView, supply: int, amount: int, debt: int, j: int, k: int) -> int {
    if k <= j {
        debt
    } else {
        mul_floor(amount, settled(p, k - 1, supply).0)
    }
}

/// What settling the finished phases `j..to` pays, each against the debt chained from the one before.
pub open spec fn chained_reward(p: PoolView, supply: int, amount: int, debt: int, j: int, to: int) -> int
    decreases to - j,
{
    if to <= j {
        0
    } else {
        chained_reward(p, supply, amount, debt, j, to - 1) + sat_sub(
            mul_floor(amount, settled(p, to - 1, supply).0),
            chained_debt(p, supply, amount, debt, j, to - 1),
        )
    }
}

/// The last reward times after settling the finished phases `j..to`.
pub open spec fn times_after_settling(p: PoolView, supply: int, j: int, to: int) -> Seq<u64> {
    Seq::new(
        p.last_reward_time.len(),
        |k: int| if j <= k < to { settled(p, k, supply).1 } else { p.last_reward_time[k] },
    )
}

/// The accrued rewards per share after settling the finished phases `j..to`.
pub open spec fn accrued_after_settling(p: PoolView, supply: int, j: int, to: int) -> Seq<Decimal> {
    Seq::new(
        p.accrued_token_per_share.len(),
        |k: int| if j <= k < to { settled(p, k, supply).0 } else { p.accrued_token_per_share[k] },
    )
}

/// When settling the finished phases since `s` joined stays within the
/// stored entries and the arithmetic.
pub open spec fn past_in_range(p: PoolView, s: StakerInfoResponse, supply: int, bound: int) -> bool {
    let cur = p.current_phase_index as int;
    let j = s.joined_phase as int;
    &&& cur < p.pool_infos.len()
    &&& cur < p.last_reward_time.len()
    &&& cur < p.accrued_token_per_share.len()
    &&& forall|k: int| j <= k < cur ==> #[trigger] settled_in_range(p, k, supply)
    &&& forall|k: int| j <= k < cur ==> mul_floor(s.amount as int, (#[trigger] settled(p, k, supply)).0) <= u128::MAX
    &&& chained_reward(p, supply, s.amount as int, s.reward_debt as int, j, cur) <= bound
}

/// When settling the finished phases since `s` joined the way a harvest does
/// stays within the stored entries and the arithmetic.
pub open spec fn harvest_past_in_range(p: PoolView, s: StakerInfoResponse, supply: int) -> bool {
    let cur = p.current_phase_index as int;
    let j = s.joined_phase as int;
    &&& cur < p.pool_infos.len()
    &&& cur < p.last_reward_time.len()
    &&& cur < p.accrued_token_per_share.len()
    &&& forall|k: int| j <= k < cur ==> #[trigger] settled_in_range(p, k, supply)
    &&& forall|k: int| j <= k < cur ==> mul_floor(s.amount as int, (#[trigger] settled(p, k, supply)).0) <= u128::MAX
    &&& harvest_reward(p, supply, s.amount as int, s.reward_debt as int, j, cur) <= u128::MAX
}

/// What a harvest pays for the finished phases `j..to`: the first against the
/// stored debt, the later ones in full.
pub open spec fn harvest_reward(p: PoolView, supply: int, amount: int, debt: int, j: int, to: int) -> int
    decreases to - j,
{
    if to <= j {
        0
    } else {
        harvest_reward(p, supply, amount, debt, j, to - 1) + sat_sub(
            mul_floor(amount, settled(p, to - 1, supply).0),
            if to - 1 == j { debt } else { 0 },
        )
    }
}

pub proof fn lemma_harvest_reward_monotone(p: PoolView, supply: int, amount: int, debt: int, j: int, to1: int, to2: int)
    requires
        to1 <= to2,
    ensures
        0 <= harvest_reward(p, supply, amount, debt, j, to1) <= harvest_reward(p, supply, amount, debt, j, to2),
    decreases to2 - to1,
{
    if to1 < to2 {
        lemma_harvest_reward_monotone(p, supply, amount, debt, j, to1, to2 - 1);
    } else {
        lemma_harvest_reward_nonneg(p, supply, amount, debt, j, to1);
    }
}

pub proof fn lemma_harvest_reward_nonneg(p: PoolView, supply: int, amount: int, debt: int, j: int, to: int)
    ensures
        0 <= harvest_reward(p, supply, amount, debt, j, to),
    decreases to - j,
{
    if to > j {
        lemma_harvest_reward_nonneg(p, supply, amount, debt, j, to - 1);
    }
}

/// Settled rewards never shrink as more phases are settled.
pub proof fn lemma_chained_reward_monotone(p: PoolView, supply: int, amount: int, debt: int, j: int, to1: int, to2: int)
    requires
        to1 <= to2,
    ensures
        0 <= chained_reward(p, supply, amount, debt, j, to1) <= chained_reward(p, supply, amount, debt, j, to2),
    decreases to2 - to1,
{
    if to1 < to2 {
        lemma_chained_reward_monotone(p, supply, amount, debt, j, to1, to2 - 1);
    } else {
        lemma_chained_reward_nonneg(p, supply, amount, debt, j, to1);
    }
}

proof fn lemma_chained_reward_nonneg(p: PoolView, supply: int, amount: int, debt: int, j: int, to: int)
    ensures
        0 <= chained_reward(p, supply, amount, debt, j, to),
    decreases to - j,
{
    if to > j {
        lemma_chained_reward_nonneg(p, supply, amount, debt, j, to - 1);
    }
}

/// Settles the finished phases since the staker joined, as deposits and
/// withdrawals do: accrues each up to its end, pays what the stake earned
/// there beyond the debt carried from the phase before, and stores the
/// phase's new accrued reward per share and last reward time. The staker's
/// debt ends at zero when any phase was settled.
pub(crate) fn settle_joined_phases(pool_infos: &mut PoolInfos, staker: &mut StakerInfoResponse, supply: u128) -> (r: u128)
    requires
        past_in_range(old(pool_infos)@, *old(staker), supply as int, u128::MAX as int),
    ensures
        ({
            let p = old(pool_infos)@;
            let s = *old(staker);
            let j = s.joined_phase as int;
            let cur = p.current_phase_index as int;
            &&& r == chained_reward(p, supply as int, s.amount as int, s.reward_debt as int, j, cur)
            &&& final(pool_infos)@ == (PoolView {
                last_reward_time: times_after_settling(p, supply as int, j, cur),
                accrued_token_per_share: accrued_after_settling(p, supply as int, j, cur),
                ..p
            })
            &&& *final(staker) == (StakerInfoResponse {
                reward_debt: if j < cur { 0 } else { s.reward_debt },
                ..s
            })
        }),
{
    let ghost p0 = pool_infos@;
    let ghost s0 = *staker;
    let ghost j = s0.joined_phase as int;
    let current_phase_index = pool_infos.current_phase_index;
    let mut reward_amount: u128 = 0;
    if staker.joined_phase < current_phase_index {
        let mut i = staker.joined_phase;
        assert(times_after_settling(p0, supply as int, j, j) =~= p0.last_reward_time);
        assert(accrued_after_settling(p0, supply as int, j, j) =~= p0.accrued_token_per_share);
        while i < current_phase_index
            invariant
                past_in_range(p0, s0, supply as int, u128::MAX as int),
                j == s0.joined_phase as int,
                current_phase_index == p0.current_phase_index,
                j <= i <= current_phase_index,
                pool_infos@ == (PoolView {
                    last_reward_time: times_after_settling(p0, supply as int, j, i as int),
                    accrued_token_per_share: accrued_after_settling(p0, supply as int, j, i as int),
                    ..p0
                }),
                staker.amount == s0.amount,
                staker.joined_phase == s0.joined_phase,
                staker.reward_debt == chained_debt(p0, supply as int, s0.amount as int, s0.reward_debt as int, j, i as int),
                reward_amount == chained_reward(p0, supply as int, s0.amount as int, s0.reward_debt as int, j, i as int),
            decreases current_phase_index - i,
        {
            assert(i < pool_infos.pool_infos.len());
            let idx = i as usize;
            let last_reward_time = pool_infos.last_reward_time[idx];
            let accrued_token_per_share = pool_infos.accrued_token_per_share[idx];
            let end_time = pool_infos.pool_infos[idx].end_time;
            let reward_per_second = pool_infos.pool_infos[idx].reward_per_second;
            assert(settled_in_range(p0, i as int, supply as int));
            let (new_accrued, new_last) = update_pool(
                end_time,
                reward_per_second,
                supply,
                accrued_token_per_share,
                end_time,
                last_reward_time,
            );
            assert((new_accrued, new_last) == settled(p0, i as int, supply as int));
            proof {
                lemma_chained_reward_monotone(
                    p0, supply as int, s0.amount as int, s0.reward_debt as int, j, i as int + 1, current_phase_index as int);
            }
            let owed = calc_reward_amount(staker.amount, new_accrued, staker.reward_debt);
            reward_amount = reward_amount + owed;
            staker.reward_debt = crate::math::mul_decimal(staker.amount, new_accrued);
            pool_infos.last_reward_time[idx] = new_last;
            pool_infos.accrued_token_per_share[idx] = new_accrued;
            assert(pool_infos.last_reward_time@ =~= times_after_settling(p0, supply as int, j, i as int + 1));
            assert(pool_infos.accrued_token_per_share@ =~= accrued_after_settling(p0, supply as int, j, i as int + 1));
            i = i + 1;
        }
        staker.reward_debt = 0;
    } else {
        assert(times_after_settling(p0, supply as int, j, current_phase_index as int) =~= p0.last_reward_time);
        assert(accrued_after_settling(p0, supply as int, j, current_phase_index as int) =~= p0.accrued_token_per_share);
    }
    reward_amount
}

/// Settles the finished phases since the staker joined, as a harvest does:
/// accrues each up to its end, stores only its new last reward time, and pays
/// what the stake earned there, the first phase against the stored debt. The
/// staker's debt ends at zero when any phase was settled.
pub(crate) fn settle_joined_phases_for_harvest(pool_infos: &mut PoolInfos, staker: &mut StakerInfoResponse, supply: u128) -> (r: u128)
    requires
        harvest_past_in_range(old(pool_infos)@, *old(staker), supply as int),
    ensures
        ({
            let p = old(pool_infos)@;
            let s = *old(staker);
            let j = s.joined_phase as int;
            let cur = p.current_phase_index as int;
            &&& r == harvest_reward(p, supply as int, s.amount as int, s.reward_debt as int, j, cur)
            &&& final(pool_infos)@ == (PoolView { last_reward_time: times_after_settling(p, supply as int, j, cur), ..p })
            &&& *final(staker) == (StakerInfoResponse {
                reward_debt: if j < cur { 0 } else { s.reward_debt },
                ..s
            })
        }),
{
    let ghost p0 = pool_infos@;
    let ghost s0 = *staker;
    let ghost j = s0.joined_phase as int;
    let current_phase_index = pool_infos.current_phase_index;
    let mut reward_amount: u128 = 0;
    let mut i = staker.joined_phase;
    if i < current_phase_index {
        assert(times_after_settling(p0, supply as int, j, j) =~= p0.last_reward_time);
        while i < current_phase_index
            invariant
                harvest_past_in_range(p0, s0, supply as int),
                j == s0.joined_phase as int,
                current_phase_index == p0.current_phase_index,
                j <= i <= current_phase_index,
                j < current_phase_index,
                pool_infos@ == (PoolView { last_reward_time: times_after_settling(p0, supply as int, j, i as int), ..p0 }),
                staker.amount == s0.amount,
                staker.joined_phase == s0.joined_phase,
                staker.reward_debt == (if i as int == j { s0.reward_debt } else { 0 }),
                reward_amount == harvest_reward(p0, supply as int, s0.amount as int, s0.reward_debt as int, j, i as int),
            decreases current_phase_index - i,
        {
            assert(i < pool_infos.pool_infos.len());
            let idx = i as usize;
            let last_reward_time = pool_infos.last_reward_time[idx];
            let accrued_token_per_share = pool_infos.accrued_token_per_share[idx];
            let end_time = pool_infos.pool_infos[idx].end_time;
            let reward_per_second = pool_infos.pool_infos[idx].reward_per_second;
            assert(settled_in_range(p0, i as int, supply as int));
            let (new_accrued, new_last) = update_pool(
                end_time,
                reward_per_second,
                supply,
                accrued_token_per_share,
                end_time,
                last_reward_time,
            );
            assert((new_accrued, new_last) == settled(p0, i as int, supply as int));
            pool_infos.last_reward_time[idx] = new_last;
            proof {
                lemma_harvest_reward_monotone(
                    p0, supply as int, s0.amount as int, s0.reward_debt as int, j, i as int + 1, current_phase_index as int);
            }
            let owed = calc_reward_amount(staker.amount, new_accrued, staker.reward_debt);
            reward_amount = reward_amount + owed;
            staker.reward_debt = crate::math::mul_decimal(staker.amount, new_accrued);
            if staker.joined_phase < current_phase_index {
                staker.reward_debt = 0;
            }
            assert(pool_infos.last_reward_time@ =~= times_after_settling(p0, supply as int, j, i as int + 1));
            i = i + 1;
        }
    } else {
        assert(times_after_settling(p0, supply as int, j, current_phase_index as int) =~= p0.last_reward_time);
    }
    reward_amount
}

/// The pool after accruing the current phase up to `now`.
pub open spec fn with_current_update(p: PoolView, supply: int, now: int) -> PoolView {
    let cur = p.current_phase_index as int;
    let u = current_update(p, supply, now);
    PoolView {
        last_reward_time: p.last_reward_time.update(cur, u.1),
        accrued_token_per_share: p.accrued_token_per_share.update(cur, u.0),
        ..p
    }
}

/// Accrues the current phase up to `now`, stores its new accrued reward per
/// share and last reward time, and returns the accrued reward per share.
pub(crate) fn settle_current_phase(pool_infos: &mut PoolInfos, supply: u128, now: u64) -> (r: Decimal)
    requires
        old(pool_infos).current_phase_index < old(pool_infos).pool_infos.len(),
        old(pool_infos).current_phase_index < old(pool_infos).last_reward_time.len(),
        old(pool_infos).current_phase_index < old(pool_infos).accrued_token_per_share.len(),
        current_update_in_range(old(pool_infos)@, supply as int, now as int),
    ensures
        r == current_update(old(pool_infos)@, supply as int, now as int).0,
        final(pool_infos)@ == with_current_update(old(pool_infos)@, supply as int, now as int),
{
    let idx = pool_infos.current_phase_index as usize;
    let last_reward_time = pool_infos.last_reward_time[idx];
    let accrued_token_per_share = pool_infos.accrued_token_per_share[idx];
    let end_time = pool_infos.pool_infos[idx].end_time;
    let reward_per_second = pool_infos.pool_infos[idx].reward_per_second;
    let (new_accrued, new_last) = update_pool(
        end_time,
        reward_per_second,
        supply,
        accrued_token_per_share,
        now,
        last_reward_time,
    );
    pool_infos.last_reward_time[idx] = new_last;
    pool_infos.accrued_token_per_share[idx] = new_accrued;
    new_accrued
}

} // verus!

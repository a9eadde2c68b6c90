//! Properties of the pool that span several calls.

use vstd::prelude::*;
use crate::math::{mul_floor, ratio_atomics, Decimal, DECIMAL_FRACTIONAL};
use crate::pool::contract::{deposit_error, staker_or_empty, phases_with_new_phase, pool_after_harvest, pool_after_settling, pool_with_reward_added, restaked};
use crate::pool::formulas::{multiplier, pool_update, pool_update_in_range};
use crate::pool::query::{pending_accrued, pending_past_reward, pending_reward, pending_reward_atomics};
use crate::pool::contract::{harvested_reward, settled_reward};
use crate::pool::settle::{
    accrued_after_settling, chained_reward, current_update, current_update_in_range, harvest_reward,
    lemma_chained_reward_monotone, lemma_harvest_reward_monotone, settled, times_after_settling,
};
use crate::pool::state::{PoolView, StakerInfoResponse};

verus! {

/// A pool whose current phase is one of its phases and whose per-phase
/// entries all have one entry per phase.
pub open spec fn pool_well_formed(p: PoolView) -> bool {
    &&& p.current_phase_index < p.pool_infos.len()
    &&& p.reward_balance.len() == p.pool_infos.len()
    &&& p.last_reward_time.len() == p.pool_infos.len()
    &&& p.accrued_token_per_share.len() == p.pool_infos.len()
}

proof fn lemma_zero_ratio(supply: int)
    requires
        supply > 0,
    ensures
        ratio_atomics(0, supply) == 0,
{
    assert(0 * (DECIMAL_FRACTIONAL as int) / supply == 0) by (nonlinear_arith)
        requires
            supply > 0,
    ;
}

/// Accruing a phase a second time at the same time, with the same staked
/// supply, changes nothing more.
pub proof fn lemma_pool_update_at_same_time(
    end: u64,
    reward_per_second: Decimal,
    supply: u128,
    accrued: Decimal,
    now: u64,
    last: u64,
)
    requires
        pool_update_in_range(end as int, reward_per_second, supply as int, accrued, now as int, last as int),
    ensures
        ({
            let u = pool_update(end as int, reward_per_second, supply as int, accrued, now as int, last as int);
            pool_update(end as int, reward_per_second, supply as int, u.0, now as int, u.1 as int) == u
        }),
{
    if now >= last && supply > 0 {
        assert(multiplier(now as int, now as int, end as int) == 0);
        assert(crate::math::product_atomics(Decimal { atomics: 0 }, reward_per_second) == 0);
        lemma_zero_ratio(supply as int);
        let u = pool_update(end as int, reward_per_second, supply as int, accrued, now as int, last as int);
        assert(u.1 == now);
        assert(Decimal { atomics: ((u.0.atomics as int) + 0) as u128 } == u.0);
    }
}

/// Right after a deposit, a withdrawal or a harvest at time `t`, from the
/// current phase's last reward time on and with staked tokens in the pool,
/// the staker has no reward pending at `t`, whatever its new stake and
/// whatever the staked supply then is.
pub proof fn lemma_pool_nothing_pending_after_settling(
    p: PoolView,
    s: StakerInfoResponse,
    supply: u128,
    t: u64,
    new_amount: u128,
    new_supply: u128,
)
    requires
        pool_well_formed(p),
        supply > 0,
        p.last_reward_time[p.current_phase_index as int] <= t,
        current_update_in_range(p, supply as int, t as int),
        mul_floor(new_amount as int, current_update(p, supply as int, t as int).0) <= u128::MAX,
    ensures
        pending_reward(
            pool_after_settling(p, s, supply, t),
            restaked(p, supply, t, new_amount as int),
            new_supply as int,
            t as int,
        ) == 0,
        pending_reward(
            pool_after_harvest(p, s, supply, t),
            restaked(p, supply, t, new_amount as int),
            new_supply as int,
            t as int,
        ) == 0,
{
    let cur = p.current_phase_index as int;
    let j = s.joined_phase as int;
    let u = current_update(p, supply as int, t as int);
    let s1 = restaked(p, supply, t, new_amount as int);
    crate::math::lemma_mul_floor_monotone(0, new_amount as int, u.0);
    assert(mul_floor(0, u.0) == 0);
    assert(times_after_settling(p, supply as int, j, cur)[cur] == p.last_reward_time[cur]);
    assert(accrued_after_settling(p, supply as int, j, cur)[cur] == p.accrued_token_per_share[cur]);
    let p1 = pool_after_settling(p, s, supply, t);
    let p2 = pool_after_harvest(p, s, supply, t);
    assert(p1.last_reward_time[cur] == t);
    assert(p2.last_reward_time[cur] == t);
    assert(p1.accrued_token_per_share[cur] == u.0);
    assert(p2.accrued_token_per_share[cur] == u.0);
    assert(multiplier(t as int, t as int, p.pool_infos[cur].end_time as int) == 0);
    assert(crate::math::product_atomics(Decimal { atomics: 0 }, p.pool_infos[cur].reward_per_second) == 0);
    assert(pending_reward_atomics(p1, cur, t as int) == 0);
    assert(pending_reward_atomics(p2, cur, t as int) == 0);
    assert(pending_past_reward(p1, new_supply as int, new_amount as int, s1.reward_debt as int, cur, cur) == 0);
    assert(pending_past_reward(p2, new_supply as int, new_amount as int, s1.reward_debt as int, cur, cur) == 0);
    if new_supply > 0 {
        lemma_zero_ratio(new_supply as int);
        assert(pending_accrued(p1, cur, t as int, new_supply as int) == u.0.atomics);
        assert(pending_accrued(p2, cur, t as int, new_supply as int) == u.0.atomics);
        assert(Decimal { atomics: u.0.atomics } == u.0);
    }
}

/// A deposit the pool accepts never takes a stake past the current phase's
/// positive limit per user; a limit of zero sets none.
pub proof fn lemma_pool_deposit_within_limit(
    p: PoolView,
    s: Option<StakerInfoResponse>,
    amount: u128,
    supply: Result<u128, String>,
)
    requires
        deposit_error(p, s, amount, supply) is None,
        p.pool_infos[p.current_phase_index as int].pool_limit_per_user is Some,
        p.pool_infos[p.current_phase_index as int].pool_limit_per_user->0 > 0,
    ensures
        staker_or_empty(s, p.current_phase_index).amount + amount
            <= p.pool_infos[p.current_phase_index as int].pool_limit_per_user->0,
{
}

/// Every change a pool makes to its phases keeps it well formed: settling
/// for a deposit, a withdrawal or a harvest, funding a phase, adding a
/// phase, removing a phase after the current one, and activating the next
/// phase when there is one.
pub proof fn lemma_pool_changes_keep_well_formed(
    p: PoolView,
    s: StakerInfoResponse,
    supply: u128,
    t: u64,
    i: u64,
    amount: u128,
    new_start_time: u64,
    new_end_time: u64,
)
    requires
        pool_well_formed(p),
    ensures
        pool_well_formed(pool_after_settling(p, s, supply, t)),
        pool_well_formed(pool_after_harvest(p, s, supply, t)),
        i < p.pool_infos.len() ==> pool_well_formed(pool_with_reward_added(p, i, amount, supply, t)),
        pool_well_formed(PoolView {
            pool_infos: phases_with_new_phase(p, new_start_time, new_end_time),
            reward_balance: p.reward_balance.push(0),
            last_reward_time: p.last_reward_time.push(new_start_time),
            accrued_token_per_share: p.accrued_token_per_share.push(Decimal { atomics: 0 }),
            ..p
        }),
        p.current_phase_index < i < p.pool_infos.len() ==> pool_well_formed(PoolView {
            pool_infos: p.pool_infos.remove(i as int),
            reward_balance: p.reward_balance.remove(i as int),
            last_reward_time: p.last_reward_time.remove(i as int),
            accrued_token_per_share: p.accrued_token_per_share.remove(i as int),
            ..p
        }),
        p.current_phase_index + 1 < p.pool_infos.len() ==> pool_well_formed(
            PoolView { current_phase_index: (p.current_phase_index + 1) as u64, ..p },
        ),
{
}

/// Adding a phase appends one phase that carries the current phase's reward
/// rate and limit per user, gives the phase after the current one the new
/// start and end times, and leaves every other phase as it was.
pub proof fn lemma_new_phase_inherits_the_current_one(p: PoolView, new_start_time: u64, new_end_time: u64)
    requires
        p.current_phase_index < p.pool_infos.len(),
    ensures
        ({
            let cur = p.current_phase_index as int;
            let c = p.pool_infos[cur];
            let r = phases_with_new_phase(p, new_start_time, new_end_time);
            &&& r.len() == p.pool_infos.len() + 1
            &&& r[r.len() - 1].pool_limit_per_user == c.pool_limit_per_user
            &&& r[r.len() - 1].reward_per_second == c.reward_per_second
            &&& r[cur + 1].start_time == new_start_time
            &&& r[cur + 1].end_time == new_end_time
            &&& forall|k: int| 0 <= k < p.pool_infos.len() && k != cur + 1 ==> #[trigger] r[k] == p.pool_infos[k]
        }),
{
}

/// What a stake earned in a finished phase since the staker joined, as a
/// deposit or withdrawal settles it: in the phase it joined, what its stake
/// earned there beyond its stored debt; in each later one, what its stake
/// earned there beyond what it earned in the phase before.
pub open spec fn settled_phase_due(p: PoolView, s: StakerInfoResponse, supply: int, k: int) -> int {
    let earned = mul_floor(s.amount as int, settled(p, k, supply).0);
    if k == s.joined_phase as int {
        if earned >= s.reward_debt as int { earned - s.reward_debt as int } else { 0 }
    } else {
        let before = mul_floor(s.amount as int, settled(p, k - 1, supply).0);
        if earned >= before { earned - before } else { 0 }
    }
}

/// A deposit or withdrawal pays a staker who joined an earlier phase at least
/// what is due for each finished phase since it joined.
pub proof fn lemma_settling_pays_each_finished_phase(p: PoolView, s: StakerInfoResponse, supply: u128, now: u64, k: int)
    requires
        s.joined_phase <= k < p.current_phase_index,
    ensures
        settled_reward(p, s, supply, now) >= settled_phase_due(p, s, supply as int, k),
        settled_phase_due(p, s, supply as int, k) >= 0,
{
    let j = s.joined_phase as int;
    let cur = p.current_phase_index as int;
    lemma_chained_reward_monotone(p, supply as int, s.amount as int, s.reward_debt as int, j, k + 1, cur);
    lemma_chained_reward_monotone(p, supply as int, s.amount as int, s.reward_debt as int, j, k, k);
    assert(chained_reward(p, supply as int, s.amount as int, s.reward_debt as int, j, k + 1)
        == chained_reward(p, supply as int, s.amount as int, s.reward_debt as int, j, k)
            + settled_phase_due(p, s, supply as int, k));
}

/// A harvest pays a staker at least what its stake earned in each finished
/// phase since it joined: in the phase it joined, what the stake earned there
/// beyond its stored debt; in each later one, all the stake earned there.
pub proof fn lemma_harvest_pays_each_finished_phase(p: PoolView, s: StakerInfoResponse, supply: u128, now: u64, k: int)
    requires
        s.joined_phase <= k < p.current_phase_index,
    ensures
        k > s.joined_phase ==> harvested_reward(p, s, supply, now) >= mul_floor(s.amount as int, settled(p, k, supply as int).0),
        k == s.joined_phase ==> harvested_reward(p, s, supply, now)
            >= mul_floor(s.amount as int, settled(p, k, supply as int).0) - s.reward_debt,
        harvested_reward(p, s, supply, now) >= 0,
{
    let j = s.joined_phase as int;
    let cur = p.current_phase_index as int;
    lemma_harvest_reward_monotone(p, supply as int, s.amount as int, s.reward_debt as int, j, k + 1, cur);
    lemma_harvest_reward_monotone(p, supply as int, s.amount as int, s.reward_debt as int, j, k, k);
    crate::math::lemma_mul_floor_monotone(0, s.amount as int, settled(p, k, supply as int).0);
    assert(mul_floor(0, settled(p, k, supply as int).0) == 0);
}

} // verus!

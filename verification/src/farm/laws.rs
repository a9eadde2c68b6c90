//! Properties of the farm that span several calls.

use vstd::prelude::*;
use crate::farm::claim::{
    claim_in_range, claim_reward, claimed_debt, claimed_phase, debt_after_settling, farm_after_claim,
    past_phases_reward,
};
use crate::farm::execute::{
    activate_phase_error, add_reward_balance_error, deposit_error, farm_with_reward_added, new_staker,
    staker_after_stake_change, staker_or_new,
};
use crate::common::Coin;
use crate::farm::formulas::{multiplier, released_reward, update_in_range, updated_phase};
use crate::farm::state::{FarmView, PhaseInfo, StakerView};
use crate::math::{mul_floor, ratio_atomics, sat_sub, DECIMAL_FRACTIONAL};

verus! {

/// Accruing a phase's rewards a second time at the same time stays within
/// the arithmetic and, for any stake, changes neither its accrued reward per
/// share nor, for the same stake, anything.
pub proof fn lemma_update_at_same_time(p: PhaseInfo, t: u64, b: u128, b2: u128)
    requires
        update_in_range(p, t as int, b as int),
    ensures
        update_in_range(updated_phase(p, t as int, b as int), t as int, b as int),
        updated_phase(updated_phase(p, t as int, b as int), t as int, b as int) == updated_phase(p, t as int, b as int),
        (b > 0 || p.start_time < p.end_time) ==> update_in_range(updated_phase(p, t as int, b as int), t as int, b2 as int),
        (b2 > 0 && update_in_range(updated_phase(p, t as int, b as int), t as int, b2 as int))
            ==> updated_phase(updated_phase(p, t as int, b as int), t as int, b2 as int).accrued_token_per_share
                == updated_phase(p, t as int, b as int).accrued_token_per_share,
{
    let q = updated_phase(p, t as int, b as int);
    let d = (q.end_time as int) - (q.start_time as int);
    if t >= q.last_reward_time && (b > 0 || (b2 > 0 && (p.start_time < p.end_time || update_in_range(q, t as int, b2 as int)))) {
        assert(d > 0) by {
            if t < p.last_reward_time {
                assert(q == p);
            }
            if b == 0 {
                assert(q.last_reward_time == t);
            }
        }
        assert(multiplier(q.last_reward_time as int, t as int, q.end_time as int) == 0);
        assert(released_reward(q, t as int) == 0) by (nonlinear_arith)
            requires
                released_reward(q, t as int) == multiplier(q.last_reward_time as int, t as int, q.end_time as int)
                    * (q.reward_balance as int) / d,
                multiplier(q.last_reward_time as int, t as int, q.end_time as int) == 0,
                d > 0,
        ;
        if b2 > 0 {
            assert(ratio_atomics(0, b2 as int) == 0) by (nonlinear_arith)
                requires
                    b2 > 0,
            ;
        }
        if b > 0 {
            assert(ratio_atomics(0, b as int) == 0) by (nonlinear_arith)
                requires
                    b > 0,
            ;
        }
    }
}

/// Right after a deposit, a withdrawal or a harvest at time `t`, whatever the
/// new stake and total stake, the staker has no reward pending at `t`: the
/// pending-reward query, wherever it is within the arithmetic, answers zero,
/// and it is within the arithmetic whenever the farm held a stake or its
/// current phase has a positive length.
pub proof fn lemma_nothing_pending_after_settling(f: FarmView, s: StakerView, t: u64, new_amount: u128, new_balance: u128)
    requires
        claim_in_range(f, s, t as int),
        new_amount <= s.amount
            || mul_floor(new_amount as int, claimed_phase(f, t as int).accrued_token_per_share) <= u128::MAX,
    ensures
        update_in_range(claimed_phase(f, t as int), t as int, new_balance as int) ==> claim_reward(
            FarmView { staked_token_balance: new_balance, ..farm_after_claim(f, t as int) },
            staker_after_stake_change(f, s, t, new_amount as int),
            t as int,
        ) == 0,
        (f.staked_token_balance > 0 || f.phases[f.current_phase_index as int].start_time
            < f.phases[f.current_phase_index as int].end_time) ==> update_in_range(
            claimed_phase(f, t as int),
            t as int,
            new_balance as int,
        ),
        claim_in_range(
            FarmView { staked_token_balance: new_balance, ..farm_after_claim(f, t as int) },
            staker_after_stake_change(f, s, t, new_amount as int),
            t as int,
        ) ==> claim_reward(
            FarmView { staked_token_balance: new_balance, ..farm_after_claim(f, t as int) },
            staker_after_stake_change(f, s, t, new_amount as int),
            t as int,
        ) == 0,
{
    let cur = f.current_phase_index as int;
    let f1 = FarmView { staked_token_balance: new_balance, ..farm_after_claim(f, t as int) };
    let s1 = staker_after_stake_change(f, s, t, new_amount as int);
    let p = f.phases[cur];
    let acc = claimed_phase(f, t as int).accrued_token_per_share;
    lemma_update_at_same_time(p, t, f.staked_token_balance, new_balance);
    if new_amount <= s.amount {
        crate::math::lemma_mul_floor_monotone(new_amount as int, s.amount as int, acc);
    }
    crate::math::lemma_mul_floor_monotone(0, new_amount as int, acc);
    assert(mul_floor(0, acc) == 0);
    assert(f1.phases[cur] == claimed_phase(f, t as int));
    assert(claimed_debt(f1, s1) == s1.reward_debt);
    assert(past_phases_reward(new_amount as int, f1.phases, s1.reward_debt, cur, cur) == 0);
    let q = claimed_phase(f1, t as int);
    if update_in_range(claimed_phase(f, t as int), t as int, new_balance as int) {
        if new_balance == 0 {
            assert(q.accrued_token_per_share.atomics == 0 || t < claimed_phase(f, t as int).last_reward_time);
            assert(mul_floor(new_amount as int, crate::math::Decimal { atomics: 0 }) == 0) by (nonlinear_arith);
        }
    }
}

/// Withdrawing at time `t` what was just deposited at `t`, within the
/// current phase, gives back the staker's stake and the farm's total stake,
/// pays nothing, and accrues no phase any further.
pub proof fn lemma_withdraw_undoes_deposit(f: FarmView, s: StakerView, t: u64, amount: u128)
    requires
        claim_in_range(f, s, t as int),
        f.phases[f.current_phase_index as int].start_time < f.phases[f.current_phase_index as int].end_time,
        t <= f.phases[f.current_phase_index as int].end_time,
        amount > 0,
        f.staked_token_balance + amount <= u128::MAX,
        s.amount + amount <= u128::MAX,
        mul_floor(s.amount + amount, claimed_phase(f, t as int).accrued_token_per_share) <= u128::MAX,
    ensures
        ({
            let f1 = FarmView { staked_token_balance: (f.staked_token_balance + amount) as u128, ..farm_after_claim(f, t as int) };
            let s1 = staker_after_stake_change(f, s, t, s.amount + amount);
            let f2 = FarmView { staked_token_balance: (f1.staked_token_balance - amount) as u128, ..farm_after_claim(f1, t as int) };
            let s2 = staker_after_stake_change(f1, s1, t, s1.amount - amount);
            &&& claim_reward(f1, s1, t as int) == 0
            &&& f2.staked_token_balance == f.staked_token_balance
            &&& s2.amount == s.amount
            &&& f2.phases == f1.phases
        }),
{
    let cur = f.current_phase_index as int;
    let new_amount = (s.amount + amount) as u128;
    let new_balance = (f.staked_token_balance + amount) as u128;
    lemma_nothing_pending_after_settling(f, s, t, new_amount, new_balance);
    let f1 = FarmView { staked_token_balance: new_balance, ..farm_after_claim(f, t as int) };
    let p = f.phases[cur];
    lemma_update_at_same_time(p, t, f.staked_token_balance, new_balance);
    let q = updated_phase(p, t as int, f.staked_token_balance as int);
    assert(f1.phases[cur] == q);
    assert(updated_phase(q, t as int, new_balance as int) == q);
    assert(f1.phases.update(cur, q) =~= f1.phases);
}

/// The stakes of a list of staker records, added up.
pub open spec fn stake_sum(stakers: Seq<StakerView>) -> int
    decreases stakers.len(),
{
    if stakers.len() == 0 {
        0
    } else {
        stake_sum(stakers.drop_last()) + stakers.last().amount
    }
}

proof fn lemma_stake_sum_update(stakers: Seq<StakerView>, i: int, v: StakerView)
    requires
        0 <= i < stakers.len(),
    ensures
        stake_sum(stakers.update(i, v)) == stake_sum(stakers) - stakers[i].amount + v.amount,
    decreases stakers.len(),
{
    let u = stakers.update(i, v);
    if i == stakers.len() - 1 {
        assert(u.drop_last() =~= stakers.drop_last());
    } else {
        lemma_stake_sum_update(stakers.drop_last(), i, v);
        assert(u.drop_last() =~= stakers.drop_last().update(i, v));
    }
}

proof fn lemma_stake_sum_remove(stakers: Seq<StakerView>, i: int)
    requires
        0 <= i < stakers.len(),
    ensures
        stake_sum(stakers.remove(i)) == stake_sum(stakers) - stakers[i].amount,
    decreases stakers.len(),
{
    let r = stakers.remove(i);
    if i == stakers.len() - 1 {
        assert(r =~= stakers.drop_last());
    } else {
        lemma_stake_sum_remove(stakers.drop_last(), i);
        assert(r.drop_last() =~= stakers.drop_last().remove(i));
    }
}

/// The farm's total stake is what its stakers have staked, added up, and
/// every stake change keeps it so: a first deposit adds a record, a deposit
/// or withdrawal changes the staker's stake and the total alike, a
/// withdrawal of the whole stake removes the record, and a harvest changes
/// no stake.
pub proof fn lemma_total_stake_kept(f: FarmView, stakers: Seq<StakerView>, i: int, t: u64, amount: u128)
    requires
        f.staked_token_balance == stake_sum(stakers),
        0 <= i < stakers.len(),
    ensures
        f.staked_token_balance + amount <= u128::MAX ==> f.staked_token_balance + amount == stake_sum(
            stakers.push(staker_after_stake_change(f, new_staker(f.current_phase_index as int), t, amount as int)),
        ),
        stakers[i].amount + amount <= u128::MAX ==> f.staked_token_balance + amount == stake_sum(
            stakers.update(i, staker_after_stake_change(f, stakers[i], t, stakers[i].amount + amount)),
        ),
        amount <= stakers[i].amount ==> f.staked_token_balance - amount == stake_sum(
            stakers.update(i, staker_after_stake_change(f, stakers[i], t, stakers[i].amount - amount)),
        ),
        amount == stakers[i].amount ==> f.staked_token_balance - amount == stake_sum(stakers.remove(i)),
        f.staked_token_balance == stake_sum(
            stakers.update(i, staker_after_stake_change(f, stakers[i], t, stakers[i].amount as int)),
        ),
{
    let cur = f.current_phase_index as int;
    let pushed = stakers.push(staker_after_stake_change(f, new_staker(cur), t, amount as int));
    assert(pushed.drop_last() =~= stakers);
    lemma_stake_sum_remove(stakers, i);
    if stakers[i].amount + amount <= u128::MAX {
        lemma_stake_sum_update(stakers, i, staker_after_stake_change(f, stakers[i], t, stakers[i].amount + amount));
    }
    if amount <= stakers[i].amount {
        lemma_stake_sum_update(stakers, i, staker_after_stake_change(f, stakers[i], t, stakers[i].amount - amount));
    }
    lemma_stake_sum_update(stakers, i, staker_after_stake_change(f, stakers[i], t, stakers[i].amount as int));
}

/// A deposit the farm accepts never takes a stake past a positive limit per
/// user; a limit of zero sets none.
pub proof fn lemma_deposit_within_limit(f: FarmView, s: Option<StakerView>, t: u64, amount: u128)
    requires
        deposit_error(f, s, t, amount) is None,
        f.phases_limit_per_user is Some,
        f.phases_limit_per_user->0 > 0,
    ensures
        staker_or_new(s, f.current_phase_index as int).amount + amount <= f.phases_limit_per_user->0,
{
}

/// Funding a phase adds exactly the amount sent to its reward balance and
/// leaves every other phase, and the rest of the farm, as it was.
pub proof fn lemma_funding_adds_to_the_balance(f: FarmView, phase_index: u64, amount: u128)
    requires
        phase_index < f.phases.len(),
        f.phases[phase_index as int].reward_balance + amount <= u128::MAX,
    ensures
        farm_with_reward_added(f, phase_index, amount).phases.len() == f.phases.len(),
        farm_with_reward_added(f, phase_index, amount).phases[phase_index as int].reward_balance
            == f.phases[phase_index as int].reward_balance + amount,
        forall|k: int| 0 <= k < f.phases.len() && k != phase_index
            ==> #[trigger] farm_with_reward_added(f, phase_index, amount).phases[k] == f.phases[k],
        farm_with_reward_added(f, phase_index, amount).current_phase_index == f.current_phase_index,
        farm_with_reward_added(f, phase_index, amount).staked_token_balance == f.staked_token_balance,
{
}

/// Funding is accepted only from the phase's whitelisted address, for a phase
/// that is not activated and has not started.
pub proof fn lemma_funding_only_before_start(
    f: FarmView,
    sender: String,
    funds: Seq<Coin>,
    now: u64,
    phase_index: u64,
    amount: u128,
)
    requires
        add_reward_balance_error(f, sender, funds, now, phase_index, amount) is None,
    ensures
        now <= f.phases[phase_index as int].start_time,
        f.phases[phase_index as int].whitelist@ == sender@,
        phase_index > f.current_phase_index || f.current_phase_index == 0,
{
}

/// An activation is accepted only from the owner, once the current phase has
/// ended and no later than the start of the next phase, which must exist and
/// hold a reward balance.
pub proof fn lemma_activation_window(f: FarmView, owner: String, sender: String, now: u64)
    requires
        activate_phase_error(f, owner, sender, now) is None,
    ensures
        owner@ == sender@,
        f.current_phase_index + 1 < f.phases.len(),
        f.phases[f.current_phase_index as int].end_time <= now,
        now <= f.phases[f.current_phase_index + 1].start_time,
        f.phases[f.current_phase_index + 1].reward_balance > 0,
{
}

/// A farm whose current phase is one of its phases.
pub open spec fn farm_well_formed(f: FarmView) -> bool {
    f.current_phase_index < f.phases.len()
}

/// A staker record that has joined no phase after the current one and holds
/// a debt entry for the phase it joined.
pub open spec fn staker_well_formed(f: FarmView, s: StakerView) -> bool {
    &&& s.joined_phase <= f.current_phase_index
    &&& s.joined_phase < s.reward_debt.len()
}

/// In a well-formed farm, a claim by a well-formed staker only reads stored
/// phases and stored debts.
pub proof fn lemma_claim_reads_stored_entries(f: FarmView, s: StakerView)
    requires
        farm_well_formed(f),
        staker_well_formed(f, s),
    ensures
        f.current_phase_index < f.phases.len(),
        s.joined_phase < f.current_phase_index ==> s.joined_phase < s.reward_debt.len(),
        s.joined_phase >= f.current_phase_index ==> f.current_phase_index < s.reward_debt.len(),
{
}

/// Settling a claim keeps the farm well formed and leaves the staker well
/// formed whatever its new stake.
pub proof fn lemma_settling_keeps_well_formed(f: FarmView, s: StakerView, t: u64, new_amount: int, new_balance: u128)
    requires
        farm_well_formed(f),
        staker_well_formed(f, s),
    ensures
        farm_well_formed(FarmView { staked_token_balance: new_balance, ..farm_after_claim(f, t as int) }),
        staker_well_formed(
            FarmView { staked_token_balance: new_balance, ..farm_after_claim(f, t as int) },
            staker_after_stake_change(f, s, t, new_amount),
        ),
{
    let cur = f.current_phase_index as int;
    let j = s.joined_phase as int;
    assert(claimed_debt(f, s).len() > cur) by {
        if j < cur {
            assert(debt_after_settling(s.amount as int, f.phases, s.reward_debt, j, cur).len() == s.reward_debt.len() + (cur - j));
        }
    }
}

/// Appending a phase, or removing or funding one that is not activated,
/// keeps the farm well formed and its stakers well formed.
pub proof fn lemma_phase_edits_keep_well_formed(f: FarmView, s: StakerView, i: int, p: PhaseInfo)
    requires
        farm_well_formed(f),
        staker_well_formed(f, s),
    ensures
        farm_well_formed(FarmView { phases: f.phases.push(p), ..f }),
        (f.current_phase_index < i < f.phases.len()) ==> farm_well_formed(FarmView { phases: f.phases.remove(i), ..f }),
        0 <= i < f.phases.len() ==> farm_well_formed(FarmView { phases: f.phases.update(i, p), ..f }),
        staker_well_formed(FarmView { phases: f.phases.push(p), ..f }, s),
        (f.current_phase_index < i < f.phases.len()) ==> staker_well_formed(FarmView { phases: f.phases.remove(i), ..f }, s),
        0 <= i < f.phases.len() ==> staker_well_formed(FarmView { phases: f.phases.update(i, p), ..f }, s),
{
}

/// Activating the next phase, when there is one, keeps the farm well formed
/// and every well-formed staker well formed.
pub proof fn lemma_activation_keeps_well_formed(f: FarmView, s: StakerView, p: PhaseInfo)
    requires
        farm_well_formed(f),
        staker_well_formed(f, s),
        f.current_phase_index + 1 < f.phases.len(),
        f.current_phase_index < u64::MAX,
    ensures
        farm_well_formed(FarmView {
            phases: f.phases.update(f.current_phase_index as int, p),
            current_phase_index: (f.current_phase_index + 1) as u64,
            ..f
        }),
        staker_well_formed(
            FarmView {
                phases: f.phases.update(f.current_phase_index as int, p),
                current_phase_index: (f.current_phase_index + 1) as u64,
                ..f
            },
            s,
        ),
{
}

/// The rewards a phase releases at each of a sequence of updates, given as
/// (time, total stake), and the phase after them.
pub open spec fn release_run(p: PhaseInfo, steps: Seq<(u64, u128)>) -> (PhaseInfo, int)
    decreases steps.len(),
{
    if steps.len() == 0 {
        (p, 0)
    } else {
        let prev = release_run(p, steps.drop_last());
        let q = prev.0;
        let t = steps.last().0 as int;
        let b = steps.last().1 as int;
        let released = if t >= q.last_reward_time && b > 0 {
            released_reward(q, t)
        } else {
            0
        };
        (updated_phase(q, t, b), prev.1 + released)
    }
}

proof fn lemma_floor_sum(a: int, b: int, d: int)
    requires
        a >= 0,
        b >= 0,
        d > 0,
    ensures
        a / d + b / d <= (a + b) / d,
{
    assert(a / d + b / d <= (a + b) / d) by (nonlinear_arith)
        requires
            a >= 0,
            b >= 0,
            d > 0,
    ;
}

proof fn lemma_floor_scaled_monotone(x: int, y: int, r: int, d: int)
    requires
        0 <= x <= y,
        r >= 0,
        d > 0,
    ensures
        0 <= x * r / d <= y * r / d,
{
    assert(0 <= x * r <= y * r) by (nonlinear_arith)
        requires
            0 <= x <= y,
            r >= 0,
    ;
    assert(0 <= x * r / d <= y * r / d) by (nonlinear_arith)
        requires
            0 <= x * r <= y * r,
            d > 0,
    ;
}

proof fn lemma_release_run_bound(p: PhaseInfo, steps: Seq<(u64, u128)>)
    requires
        p.start_time < p.end_time,
        p.start_time <= p.last_reward_time,
    ensures
        ({
            let (q, total) = release_run(p, steps);
            let d = (p.end_time as int) - (p.start_time as int);
            let reached = (if q.last_reward_time <= p.end_time { q.last_reward_time as int } else { p.end_time as int })
                - (p.start_time as int);
            &&& q.start_time == p.start_time
            &&& q.end_time == p.end_time
            &&& q.reward_balance == p.reward_balance
            &&& p.start_time <= q.last_reward_time
            &&& 0 <= total <= reached * (p.reward_balance as int) / d
        }),
    decreases steps.len(),
{
    let d = (p.end_time as int) - (p.start_time as int);
    let r = p.reward_balance as int;
    if steps.len() == 0 {
        let x = (if p.last_reward_time <= p.end_time { p.last_reward_time as int } else { p.end_time as int })
            - (p.start_time as int);
        lemma_floor_scaled_monotone(0, x, r, d);
    } else {
        lemma_release_run_bound(p, steps.drop_last());
        let prev = release_run(p, steps.drop_last());
        let q = prev.0;
        let total = prev.1;
        let t = steps.last().0 as int;
        let b = steps.last().1 as int;
        let end = p.end_time as int;
        let start = p.start_time as int;
        let x = (if q.last_reward_time <= p.end_time { q.last_reward_time as int } else { end }) - start;
        let q2 = updated_phase(q, t, b);
        let x2 = (if q2.last_reward_time <= p.end_time { q2.last_reward_time as int } else { end }) - start;
        if t >= q.last_reward_time && b > 0 {
            let m = multiplier(q.last_reward_time as int, t, end);
            assert(x + m == x2);
            assert(m >= 0);
            lemma_floor_sum(x * r, m * r, d);
            assert(x * r + m * r == x2 * r) by (nonlinear_arith)
                requires
                    x + m == x2,
            ;
            assert(m * r >= 0 && x * r >= 0) by (nonlinear_arith)
                requires
                    m >= 0,
                    x >= 0,
                    r >= 0,
            ;
        } else if t >= q.last_reward_time {
            assert(x <= x2);
            lemma_floor_scaled_monotone(x, x2, r, d);
        }
    }
}

/// A phase never releases more than its reward balance: from its start, the
/// rewards released over any sequence of updates add up to at most the
/// balance.
pub proof fn lemma_phase_releases_at_most_its_balance(p: PhaseInfo, steps: Seq<(u64, u128)>)
    requires
        p.start_time < p.end_time,
        p.last_reward_time == p.start_time,
    ensures
        release_run(p, steps).1 <= p.reward_balance,
{
    lemma_release_run_bound(p, steps);
    let q = release_run(p, steps).0;
    let d = (p.end_time as int) - (p.start_time as int);
    let reached = (if q.last_reward_time <= p.end_time { q.last_reward_time as int } else { p.end_time as int })
        - (p.start_time as int);
    lemma_floor_scaled_monotone(reached, d, p.reward_balance as int, d);
    assert(d * (p.reward_balance as int) / d == p.reward_balance) by (nonlinear_arith)
        requires
            d > 0,
    ;
}

} // verus!

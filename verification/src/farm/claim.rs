//! Settling a staker's rewards across the phases since the staker last acted.

use vstd::prelude::*;
use crate::farm::formulas::{calc_reward_amount, update_in_range, updated_phase};
use crate::farm::state::{FarmInfo, FarmView, PhaseInfo, StakerInfo, StakerView};
use crate::math::{mul_floor, sat_sub};

verus! {

/// The debt a claim reads for phase `i`: the stored entry, or zero past the
/// stored entries.
pub open spec fn debt_at(debt: Seq<u128>, i: int) -> int {
    if 0 <= i < debt.len() {
        debt[i] as int
    } else {
        0
    }
}

/// What a stake of `amount` is owed for the finished phase `i`.
pub open spec fn phase_owed(amount: int, phases: Seq<PhaseInfo>, debt: Seq<u128>, i: int) -> int {
    sat_sub(mul_floor(amount, phases[i].accrued_token_per_share), debt_at(debt, i))
}

/// What a stake of `amount` is owed for the finished phases `from..to`.
pub open spec fn past_phases_reward(amount: int, phases: Seq<PhaseInfo>, debt: Seq<u128>, from: int, to: int) -> int
    decreases to - from,
{
    if to <= from {
        0
    } else {
        past_phases_reward(amount, phases, debt, from, to - 1) + phase_owed(amount, phases, debt, to - 1)
    }
}

/// The staker's debts after settling the finished phases `from..to`: each
/// settled phase's debt becomes what the stake earned in it, and one zero
/// entry is appended per settled phase.
pub open spec fn debt_after_settling(amount: int, phases: Seq<PhaseInfo>, debt: Seq<u128>, from: int, to: int) -> Seq<u128> {
    if to <= from {
        debt
    } else {
        Seq::new(
            (debt.len() + (to - from)) as nat,
            |i: int|
                if from <= i < to {
                    mul_floor(amount, phases[i].accrued_token_per_share) as u128
                } else {
                    debt_at(debt, i) as u128
                },
        )
    }
}

/// The current phase of `f` after accruing its rewards up to `t`.
pub open spec fn claimed_phase(f: FarmView, t: int) -> PhaseInfo {
    updated_phase(f.phases[f.current_phase_index as int], t, f.staked_token_balance as int)
}

/// The staker's debts after a claim.
pub open spec fn claimed_debt(f: FarmView, s: StakerView) -> Seq<u128> {
    debt_after_settling(
        s.amount as int,
        f.phases,
        s.reward_debt,
        s.joined_phase as int,
        f.current_phase_index as int,
    )
}

/// The reward a claim at time `t` pays: the finished phases since the staker
/// joined, plus the current phase accrued up to `t`.
pub open spec fn claim_reward(f: FarmView, s: StakerView, t: int) -> int {
    past_phases_reward(
        s.amount as int,
        f.phases,
        s.reward_debt,
        s.joined_phase as int,
        f.current_phase_index as int,
    ) + sat_sub(
        mul_floor(s.amount as int, claimed_phase(f, t).accrued_token_per_share),
        claimed_debt(f, s)[f.current_phase_index as int] as int,
    )
}

/// When a claim stays within the stored entries and the arithmetic.
pub open spec fn claim_in_range(f: FarmView, s: StakerView, t: int) -> bool {
    let cur = f.current_phase_index as int;
    let j = s.joined_phase as int;
    &&& cur < f.phases.len()
    &&& j < cur ==> j < s.reward_debt.len()
    &&& j >= cur ==> cur < s.reward_debt.len()
    &&& forall|i: int| j <= i < cur ==> mul_floor(s.amount as int, #[trigger] f.phases[i].accrued_token_per_share) <= u128::MAX
    &&& update_in_range(f.phases[cur], t, f.staked_token_balance as int)
    &&& mul_floor(s.amount as int, claimed_phase(f, t).accrued_token_per_share) <= u128::MAX
    &&& claim_reward(f, s, t) <= u128::MAX
}

/// The farm after a claim at `t`: only the current phase changes.
pub open spec fn farm_after_claim(f: FarmView, t: int) -> FarmView {
    FarmView { phases: f.phases.update(f.current_phase_index as int, claimed_phase(f, t)), ..f }
}

/// The staker after a claim: only the debts change.
pub open spec fn staker_after_claim(f: FarmView, s: StakerView) -> StakerView {
    StakerView { reward_debt: claimed_debt(f, s), ..s }
}

/// Settled rewards never shrink as more phases are settled.
pub proof fn lemma_past_reward_monotone(amount: int, phases: Seq<PhaseInfo>, debt: Seq<u128>, from: int, to1: int, to2: int)
    requires
        0 <= amount,
        to1 <= to2,
    ensures
        0 <= past_phases_reward(amount, phases, debt, from, to1) <= past_phases_reward(amount, phases, debt, from, to2),
    decreases to2 - to1,
{
    if to1 < to2 {
        lemma_past_reward_monotone(amount, phases, debt, from, to1, to2 - 1);
        assert(phase_owed(amount, phases, debt, to2 - 1) >= 0);
    } else {
        lemma_past_reward_nonneg(amount, phases, debt, from, to1);
    }
}

/// Settled rewards are never negative.
pub proof fn lemma_past_reward_nonneg(amount: int, phases: Seq<PhaseInfo>, debt: Seq<u128>, from: int, to: int)
    ensures
        0 <= past_phases_reward(amount, phases, debt, from, to),
    decreases to - from,
{
    if to > from {
        lemma_past_reward_nonneg(amount, phases, debt, from, to - 1);
    }
}

/// Settles `staker_info`'s rewards at `current_time`: for each finished phase
/// since the staker joined, adds what its stake earned there and records that
/// as its debt; then accrues the current phase up to `current_time` and adds
/// what the stake earned there beyond its debt. Returns the total.
pub fn claim_all_reward(farm_info: &mut FarmInfo, staker_info: &mut StakerInfo, current_time: u64) -> (r: u128)
    requires
        claim_in_range(old(farm_info)@, old(staker_info)@, current_time as int),
    ensures
        r == claim_reward(old(farm_info)@, old(staker_info)@, current_time as int),
        final(farm_info)@ == farm_after_claim(old(farm_info)@, current_time as int),
        final(staker_info)@ == staker_after_claim(old(farm_info)@, old(staker_info)@),
{
    let ghost f0 = farm_info@;
    let ghost s0 = staker_info@;
    let ghost amount = s0.amount as int;
    let ghost phases = f0.phases;
    let ghost debt0 = s0.reward_debt;
    let ghost j = s0.joined_phase as int;
    let current_phase_index = farm_info.current_phase_index;
    let mut reward_amount: u128 = 0;
    let mut i = staker_info.joined_phase;
    while i < current_phase_index
        invariant
            f0 == farm_info@,
            amount == s0.amount as int,
            phases == f0.phases,
            debt0 == s0.reward_debt,
            j == s0.joined_phase as int,
            claim_in_range(f0, s0, current_time as int),
            current_phase_index == f0.current_phase_index,
            j <= i,
            j < current_phase_index ==> i <= current_phase_index,
            j >= current_phase_index ==> i == j,
            staker_info.amount == s0.amount,
            staker_info.joined_phase == s0.joined_phase,
            reward_amount == past_phases_reward(amount, phases, debt0, j, i as int),
            staker_info.reward_debt@ == debt_after_settling(amount, phases, debt0, j, i as int),
        decreases current_phase_index - i,
    {
        let ghost d = staker_info.reward_debt@;
        assert(i < farm_info.phases_info.len());
        let idx = i as usize;
        let accrued_token_per_share = farm_info.phases_info[idx].accrued_token_per_share;
        assert(phases[i as int].accrued_token_per_share == accrued_token_per_share);
        assert(d[i as int] as int == debt_at(debt0, i as int));
        proof {
            lemma_past_reward_monotone(amount, phases, debt0, j, i as int + 1, current_phase_index as int);
        }
        let owed = calc_reward_amount(staker_info.amount, accrued_token_per_share, staker_info.reward_debt[idx]);
        reward_amount = reward_amount + owed;
        let settled = crate::math::mul_decimal(staker_info.amount, accrued_token_per_share);
        staker_info.reward_debt.set(idx, settled);
        staker_info.reward_debt.push(0);
        assert(staker_info.reward_debt@ =~= debt_after_settling(amount, phases, debt0, j, i as int + 1));
        i = i + 1;
    }
    let ghost d = staker_info.reward_debt@;
    assert(d == claimed_debt(f0, s0));
    assert(current_phase_index < farm_info.phases_info.len());
    let cur = current_phase_index as usize;
    let staked_token_balance = farm_info.staked_token_balance;
    farm_info.phases_info[cur].update_reward_ratio_and_time(current_time, staked_token_balance);
    let accrued = farm_info.phases_info[cur].accrued_token_per_share;
    let owed = calc_reward_amount(staker_info.amount, accrued, staker_info.reward_debt[cur]);
    reward_amount + owed
}

} // verus!

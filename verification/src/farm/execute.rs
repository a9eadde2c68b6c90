//! The farm's message handlers. Each takes the stored state and the message,
//! and returns the new state and the transfers to perform, or the refusal.

use vstd::prelude::*;
use crate::common::{funds_cover, Coin, Env, MessageInfo, TransferMsg};
use crate::farm::claim::{
    claim_all_reward, claim_in_range, claim_reward, claimed_debt, claimed_phase, farm_after_claim,
};
use crate::farm::error::ContractError;
use crate::farm::formulas::{update_in_range, updated_phase};
use crate::farm::state::{Config, FarmInfo, FarmView, PhaseInfo, StakerInfo, StakerView, TokenInfo};
use crate::math::{lemma_mul_floor_monotone, mul_decimal, mul_floor, Decimal};

verus! {

/// A staker's record, if any, as a mathematical value.
pub open spec fn staker_view(s: Option<StakerInfo>) -> Option<StakerView> {
    match s {
        Some(v) => Some(v@),
        None => None,
    }
}

/// The transfer of `amount` reward tokens from the farm to `recipient`.
pub open spec fn token_transfer(token: TokenInfo, recipient: String, amount: u128) -> TransferMsg {
    match token {
        TokenInfo::Token { contract_addr } => TransferMsg::Cw20Transfer { contract_addr, recipient, amount },
        TokenInfo::NativeToken { denom } => TransferMsg::BankSend { to_address: recipient, denom, amount },
    }
}

/// The payout of a claimed reward: one transfer when it is positive, none otherwise.
pub open spec fn reward_payout(token: TokenInfo, recipient: String, amount: u128) -> Seq<TransferMsg> {
    if amount > 0 {
        seq![token_transfer(token, recipient, amount)]
    } else {
        Seq::empty()
    }
}

fn transfer_of(token: &TokenInfo, recipient: &String, amount: u128) -> (r: TransferMsg)
    ensures
        r == token_transfer(*token, *recipient, amount),
{
    match token {
        TokenInfo::Token { contract_addr } => TransferMsg::Cw20Transfer {
            contract_addr: contract_addr.clone(),
            recipient: recipient.clone(),
            amount,
        },
        TokenInfo::NativeToken { denom } => TransferMsg::BankSend {
            to_address: recipient.clone(),
            denom: denom.clone(),
            amount,
        },
    }
}

// ---------------------------------------------------------------- add reward

/// Why adding reward balance is refused, checked in this order.
pub open spec fn add_reward_balance_error(
    f: FarmView,
    sender: String,
    funds: Seq<Coin>,
    now: u64,
    phase_index: u64,
    amount: u128,
) -> Option<ContractError> {
    let cur = f.current_phase_index;
    let p = f.phases[phase_index as int];
    if phase_index <= cur && cur != 0 {
        Some(ContractError::PhaseActivated)
    } else if p.whitelist@ != sender@ {
        Some(ContractError::NotWhitelisted)
    } else if (match f.reward_token {
        TokenInfo::NativeToken { denom } => !funds_cover(funds, denom@, amount),
        TokenInfo::Token { .. } => false,
    }) {
        Some(ContractError::NativeBalanceMismatch)
    } else if now > p.start_time {
        Some(ContractError::PhaseStarted)
    } else {
        None
    }
}

/// The farm once `amount` has been added to the reward balance of a phase.
pub open spec fn farm_with_reward_added(f: FarmView, phase_index: u64, amount: u128) -> FarmView {
    let p = f.phases[phase_index as int];
    FarmView {
        phases: f.phases.update(
            phase_index as int,
            PhaseInfo { reward_balance: (p.reward_balance + amount) as u128, ..p },
        ),
        ..f
    }
}

/// Adds `amount` reward tokens to a phase that has not begun. Only the
/// phase's whitelisted address may do so; a CW20 reward is pulled from the
/// sender, a native reward must come with the message.
pub fn execute_add_reward_balance(
    farm_info: FarmInfo,
    env: &Env,
    info: &MessageInfo,
    phase_index: u64,
    amount: u128,
) -> (r: Result<(FarmInfo, Vec<TransferMsg>), ContractError>)
    requires
        !(phase_index <= farm_info.current_phase_index && farm_info.current_phase_index != 0)
            ==> phase_index < farm_info.phases_info.len(),
        add_reward_balance_error(farm_info@, info.sender, info.funds@, env.block_time, phase_index, amount) is None
            ==> farm_info.phases_info@[phase_index as int].reward_balance + amount <= u128::MAX,
    ensures
        r is Err <==> add_reward_balance_error(farm_info@, info.sender, info.funds@, env.block_time, phase_index, amount) is Some,
        r matches Err(e) ==> add_reward_balance_error(farm_info@, info.sender, info.funds@, env.block_time, phase_index, amount) == Some(e),
        r matches Ok((f, msgs)) ==> {
            &&& f@ == farm_with_reward_added(farm_info@, phase_index, amount)
            &&& f.phases_info.len() == farm_info.phases_info.len()
            &&& f.phases_info@[phase_index as int].reward_balance
                == farm_info.phases_info@[phase_index as int].reward_balance + amount
            &&& forall|k: int| 0 <= k < f.phases_info.len() && k != phase_index
                ==> #[trigger] f.phases_info@[k] == farm_info.phases_info@[k]
            &&& msgs@ == (match farm_info.reward_token {
                TokenInfo::Token { contract_addr } => seq![TransferMsg::Cw20TransferFrom {
                    contract_addr,
                    owner: info.sender,
                    recipient: env.contract_address,
                    amount,
                }],
                TokenInfo::NativeToken { .. } => Seq::empty(),
            })
        },
{
    let current_phase_index = farm_info.current_phase_index;
    if phase_index <= current_phase_index && current_phase_index != 0 {
        return Err(ContractError::PhaseActivated);
    }
    let idx = phase_index as usize;
    if !(farm_info.phases_info[idx].whitelist == info.sender) {
        return Err(ContractError::NotWhitelisted);
    }
    let mut messages: Vec<TransferMsg> = Vec::new();
    match &farm_info.reward_token {
        TokenInfo::Token { contract_addr } => {
            messages.push(TransferMsg::Cw20TransferFrom {
                contract_addr: contract_addr.clone(),
                owner: info.sender.clone(),
                recipient: env.contract_address.clone(),
                amount,
            });
        },
        TokenInfo::NativeToken { denom } => {
            if !crate::cosmwasm::has_coins(&info.funds, denom, amount) {
                return Err(ContractError::NativeBalanceMismatch);
            }
        },
    }
    if env.block_time > farm_info.phases_info[idx].start_time {
        return Err(ContractError::PhaseStarted);
    }
    let ghost f0 = farm_info@;
    let mut farm_info = farm_info;
    let reward_balance = farm_info.phases_info[idx].reward_balance + amount;
    farm_info.phases_info[idx].reward_balance = reward_balance;
    assert(farm_info@.phases =~= farm_with_reward_added(f0, phase_index, amount).phases);
    Ok((farm_info, messages))
}

// ---------------------------------------------------------------- remove phase

/// Why removing a phase is refused, checked in this order.
pub open spec fn remove_phase_error(f: FarmView, owner: String, sender: String, now: u64, phase_index: u64) -> Option<ContractError> {
    if phase_index <= f.current_phase_index {
        Some(ContractError::CannotRemoveActivatedPhase)
    } else if owner@ != sender@ {
        Some(ContractError::OnlyOwnerCanRemovePhase)
    } else if now > f.phases[phase_index as int].start_time {
        Some(ContractError::PhaseStarted)
    } else {
        None
    }
}

/// Removes a phase that has not been activated and has not started. Only the
/// farm owner may do so; a reward balance already added to it goes back to
/// its whitelisted address.
pub fn execute_remove_phase(
    farm_info: FarmInfo,
    config: &Config,
    env: &Env,
    info: &MessageInfo,
    phase_index: u64,
) -> (r: Result<(FarmInfo, Vec<TransferMsg>), ContractError>)
    requires
        (phase_index > farm_info.current_phase_index && config.farm_owner@ == info.sender@)
            ==> phase_index < farm_info.phases_info.len(),
    ensures
        r is Err <==> remove_phase_error(farm_info@, config.farm_owner, info.sender, env.block_time, phase_index) is Some,
        r matches Err(e) ==> remove_phase_error(farm_info@, config.farm_owner, info.sender, env.block_time, phase_index) == Some(e),
        r matches Ok((f, msgs)) ==> {
            let p = farm_info@.phases[phase_index as int];
            &&& f@ == FarmView { phases: farm_info@.phases.remove(phase_index as int), ..farm_info@ }
            &&& msgs@ == reward_payout(farm_info.reward_token, p.whitelist, p.reward_balance)
        },
{
    if phase_index <= farm_info.current_phase_index {
        return Err(ContractError::CannotRemoveActivatedPhase);
    }
    if !(config.farm_owner == info.sender) {
        return Err(ContractError::OnlyOwnerCanRemovePhase);
    }
    let idx = phase_index as usize;
    if env.block_time > farm_info.phases_info[idx].start_time {
        return Err(ContractError::PhaseStarted);
    }
    let mut messages: Vec<TransferMsg> = Vec::new();
    let reward_balance = farm_info.phases_info[idx].reward_balance;
    if reward_balance > 0 {
        messages.push(transfer_of(&farm_info.reward_token, &farm_info.phases_info[idx].whitelist, reward_balance));
    }
    let mut farm_info = farm_info;
    farm_info.phases_info.remove(idx);
    Ok((farm_info, messages))
}

// ---------------------------------------------------------------- deposit

/// The record a first-time depositor starts from: no stake, zero debts up to
/// phase `cur`, joined in phase `cur`.
pub open spec fn new_staker(cur: int) -> StakerView {
    StakerView { amount: 0, reward_debt: Seq::new((cur + 1) as nat, |i: int| 0u128), joined_phase: cur as u64 }
}

/// The staker's record, or a new one.
pub open spec fn staker_or_new(s: Option<StakerView>, cur: int) -> StakerView {
    match s {
        Some(v) => v,
        None => new_staker(cur),
    }
}

/// Why a deposit is refused, checked in this order.
pub open spec fn deposit_error(f: FarmView, s: Option<StakerView>, now: u64, amount: u128) -> Option<ContractError> {
    let cur = f.current_phase_index as int;
    if amount == 0 {
        Some(ContractError::ZeroDeposit)
    } else if f.phases[cur].reward_balance == 0 {
        Some(ContractError::EmptyPhase)
    } else if now > f.phases[cur].end_time {
        Some(ContractError::NotInPhaseRange)
    } else if (match f.phases_limit_per_user {
        Some(limit) => limit > 0 && staker_or_new(s, cur).amount + amount > limit,
        None => false,
    }) {
        Some(ContractError::ExceedsPhaseLimit)
    } else {
        None
    }
}

/// When a deposit stays within the stored entries and the arithmetic.
pub open spec fn deposit_in_range(f: FarmView, s: Option<StakerView>, now: u64, amount: u128) -> bool {
    let cur = f.current_phase_index as int;
    let st = staker_or_new(s, cur);
    &&& amount > 0 ==> cur < f.phases.len()
    &&& (amount > 0 && f.phases[cur].reward_balance != 0 && now <= f.phases[cur].end_time
        && f.phases_limit_per_user is Some && f.phases_limit_per_user->0 > 0) ==> st.amount + amount <= u128::MAX
    &&& deposit_error(f, s, now, amount) is None ==> {
        &&& claim_in_range(f, st, now as int)
        &&& f.staked_token_balance + amount <= u128::MAX
        &&& st.amount + amount <= u128::MAX
        &&& mul_floor(st.amount + amount, claimed_phase(f, now as int).accrued_token_per_share) <= u128::MAX
    }
}

/// The staker's record after settling a claim at `now` and changing its stake
/// to `amount`: its debt in the current phase is what that stake has earned.
pub open spec fn staker_after_stake_change(f: FarmView, s: StakerView, now: u64, amount: int) -> StakerView {
    let cur = f.current_phase_index as int;
    StakerView {
        amount: amount as u128,
        reward_debt: claimed_debt(f, s).update(cur, mul_floor(amount, claimed_phase(f, now as int).accrued_token_per_share) as u128),
        joined_phase: cur as u64,
    }
}

/// What a deposit, withdrawal or harvest leaves behind.
#[derive(Debug)]
pub struct StakeOutcome {
    pub farm_info: FarmInfo,
    /// The staker's record; none when it is to be removed.
    pub staker_info: Option<StakerInfo>,
    /// Rewards paid to the staker.
    pub reward_amount: u128,
    /// Transfers to perform, in order.
    pub messages: Vec<TransferMsg>,
}

pub(crate) fn zero_debts(n: usize) -> (r: Vec<u128>)
    ensures
        r@ == Seq::new(n as nat, |i: int| 0u128),
{
    let mut v: Vec<u128> = Vec::new();
    let mut k: usize = 0;
    while k < n
        invariant
            k <= n,
            v@ == Seq::new(k as nat, |i: int| 0u128),
        decreases n - k,
    {
        v.push(0);
        k = k + 1;
        assert(v@ =~= Seq::new(k as nat, |i: int| 0u128));
    }
    v
}

/// Deposits `amount` staked tokens for the sender: settles the sender's
/// rewards (paid out when positive), pulls the tokens from the sender and
/// records the larger stake, within the farm's limit per user (a limit of
/// zero sets none).
pub fn execute_deposit(
    farm_info: FarmInfo,
    staker_info: Option<StakerInfo>,
    env: &Env,
    info: &MessageInfo,
    amount: u128,
) -> (r: Result<StakeOutcome, ContractError>)
    requires
        deposit_in_range(farm_info@, staker_view(staker_info), env.block_time, amount),
    ensures
        r is Err <==> deposit_error(farm_info@, staker_view(staker_info), env.block_time, amount) is Some,
        r matches Err(e) ==> deposit_error(farm_info@, staker_view(staker_info), env.block_time, amount) == Some(e),
        r matches Ok(out) ==> {
            let f = farm_info@;
            let st = staker_or_new(staker_view(staker_info), f.current_phase_index as int);
            let reward = claim_reward(f, st, env.block_time as int);
            &&& out.reward_amount == reward
            &&& out.farm_info@ == FarmView {
                staked_token_balance: (f.staked_token_balance + amount) as u128,
                ..farm_after_claim(f, env.block_time as int)
            }
            &&& staker_view(out.staker_info) == Some(staker_after_stake_change(f, st, env.block_time, st.amount + amount))
            &&& out.messages@ == reward_payout(f.reward_token, info.sender, reward as u128).push(
                TransferMsg::Cw20TransferFrom {
                    contract_addr: f.staked_token,
                    owner: info.sender,
                    recipient: env.contract_address,
                    amount,
                },
            )
        },
{
    if amount == 0 {
        return Err(ContractError::ZeroDeposit);
    }
    assert(farm_info.current_phase_index < farm_info.phases_info.len());
    let cur = farm_info.current_phase_index as usize;
    if farm_info.phases_info[cur].reward_balance == 0 {
        return Err(ContractError::EmptyPhase);
    }
    let mut staker = match staker_info {
        Some(s) => s,
        None => StakerInfo { amount: 0, reward_debt: zero_debts(cur + 1), joined_phase: cur as u64 },
    };
    assert(staker@ == staker_or_new(staker_view(staker_info), cur as int));
    if env.block_time > farm_info.phases_info[cur].end_time {
        return Err(ContractError::NotInPhaseRange);
    }
    if let Some(limit) = farm_info.phases_limit_per_user {
        if limit > 0 && staker.amount + amount > limit {
            return Err(ContractError::ExceedsPhaseLimit);
        }
    }
    let mut farm_info = farm_info;
    let reward_amount = claim_all_reward(&mut farm_info, &mut staker, env.block_time);
    let mut messages: Vec<TransferMsg> = Vec::new();
    if reward_amount > 0 {
        messages.push(transfer_of(&farm_info.reward_token, &info.sender, reward_amount));
    }
    messages.push(TransferMsg::Cw20TransferFrom {
        contract_addr: farm_info.staked_token.clone(),
        owner: info.sender.clone(),
        recipient: env.contract_address.clone(),
        amount,
    });
    farm_info.staked_token_balance = farm_info.staked_token_balance + amount;
    staker.amount = staker.amount + amount;
    let debt = mul_decimal(staker.amount, farm_info.phases_info[cur].accrued_token_per_share);
    staker.reward_debt.set(cur, debt);
    staker.joined_phase = cur as u64;
    Ok(StakeOutcome { farm_info, staker_info: Some(staker), reward_amount, messages })
}

// ---------------------------------------------------------------- withdraw

/// Why a withdrawal is refused, checked in this order.
pub open spec fn withdraw_error(s: Option<StakerView>, amount: u128) -> Option<ContractError> {
    if amount == 0 {
        Some(ContractError::ZeroWithdraw)
    } else if s is None {
        Some(ContractError::NotStaker)
    } else if s->0.amount < amount {
        Some(ContractError::InsufficientStake)
    } else {
        None
    }
}

/// Withdraws `amount` staked tokens to the sender: settles the sender's
/// rewards (paid out when positive), returns the tokens and records the
/// smaller stake; a record whose stake reaches zero is removed.
pub fn execute_withdraw(
    farm_info: FarmInfo,
    staker_info: Option<StakerInfo>,
    env: &Env,
    info: &MessageInfo,
    amount: u128,
) -> (r: Result<StakeOutcome, ContractError>)
    requires
        withdraw_error(staker_view(staker_info), amount) is None ==> {
            &&& claim_in_range(farm_info@, staker_info->0@, env.block_time as int)
            &&& farm_info.staked_token_balance >= amount
        },
    ensures
        r is Err <==> withdraw_error(staker_view(staker_info), amount) is Some,
        r matches Err(e) ==> withdraw_error(staker_view(staker_info), amount) == Some(e),
        r matches Ok(out) ==> {
            let f = farm_info@;
            let st = staker_info->0@;
            let reward = claim_reward(f, st, env.block_time as int);
            &&& out.reward_amount == reward
            &&& out.farm_info@ == FarmView {
                staked_token_balance: (f.staked_token_balance - amount) as u128,
                ..farm_after_claim(f, env.block_time as int)
            }
            &&& staker_view(out.staker_info) == (if st.amount == amount {
                None
            } else {
                Some(staker_after_stake_change(f, st, env.block_time, st.amount - amount))
            })
            &&& out.messages@ == reward_payout(f.reward_token, info.sender, reward as u128).push(
                TransferMsg::Cw20Transfer { contract_addr: f.staked_token, recipient: info.sender, amount },
            )
        },
{
    if amount == 0 {
        return Err(ContractError::ZeroWithdraw);
    }
    let mut staker = match staker_info {
        Some(s) => s,
        None => {
            return Err(ContractError::NotStaker);
        },
    };
    if staker.amount < amount {
        return Err(ContractError::InsufficientStake);
    }
    assert(farm_info.current_phase_index < farm_info.phases_info.len());
    let cur = farm_info.current_phase_index as usize;
    let mut farm_info = farm_info;
    let ghost f0 = farm_info@;
    let ghost s0 = staker@;
    let reward_amount = claim_all_reward(&mut farm_info, &mut staker, env.block_time);
    let mut messages: Vec<TransferMsg> = Vec::new();
    if reward_amount > 0 {
        messages.push(transfer_of(&farm_info.reward_token, &info.sender, reward_amount));
    }
    messages.push(TransferMsg::Cw20Transfer {
        contract_addr: farm_info.staked_token.clone(),
        recipient: info.sender.clone(),
        amount,
    });
    farm_info.staked_token_balance = farm_info.staked_token_balance - amount;
    staker.amount = staker.amount - amount;
    proof {
        lemma_mul_floor_monotone(staker.amount as int, s0.amount as int, claimed_phase(f0, env.block_time as int).accrued_token_per_share);
    }
    let debt = mul_decimal(staker.amount, farm_info.phases_info[cur].accrued_token_per_share);
    staker.reward_debt.set(cur, debt);
    staker.joined_phase = cur as u64;
    let staker_info = if staker.amount == 0 {
        None
    } else {
        Some(staker)
    };
    Ok(StakeOutcome { farm_info, staker_info, reward_amount, messages })
}

// ---------------------------------------------------------------- harvest

/// Why a harvest is refused, checked in this order.
pub open spec fn harvest_error(f: FarmView, s: Option<StakerView>, now: u64) -> Option<ContractError> {
    if s is None {
        Some(ContractError::OnlyStakerCanHarvest)
    } else if claim_reward(f, s->0, now as int) == 0 {
        Some(ContractError::ZeroReward)
    } else {
        None
    }
}

/// Pays the sender the rewards it has earned; refused when there are none.
pub fn execute_harvest(
    farm_info: FarmInfo,
    staker_info: Option<StakerInfo>,
    env: &Env,
    info: &MessageInfo,
) -> (r: Result<StakeOutcome, ContractError>)
    requires
        staker_info is Some ==> claim_in_range(farm_info@, staker_info->0@, env.block_time as int),
    ensures
        r is Err <==> harvest_error(farm_info@, staker_view(staker_info), env.block_time) is Some,
        r matches Err(e) ==> harvest_error(farm_info@, staker_view(staker_info), env.block_time) == Some(e),
        r matches Ok(out) ==> {
            let f = farm_info@;
            let st = staker_info->0@;
            let reward = claim_reward(f, st, env.block_time as int);
            &&& out.reward_amount == reward
            &&& out.farm_info@ == farm_after_claim(f, env.block_time as int)
            &&& staker_view(out.staker_info) == Some(staker_after_stake_change(f, st, env.block_time, st.amount as int))
            &&& out.messages@ == seq![token_transfer(f.reward_token, info.sender, reward as u128)]
        },
{
    let mut staker = match staker_info {
        Some(s) => s,
        None => {
            return Err(ContractError::OnlyStakerCanHarvest);
        },
    };
    assert(farm_info.current_phase_index < farm_info.phases_info.len());
    let cur = farm_info.current_phase_index as usize;
    let mut farm_info = farm_info;
    let reward_amount = claim_all_reward(&mut farm_info, &mut staker, env.block_time);
    if reward_amount == 0 {
        return Err(ContractError::ZeroReward);
    }
    let debt = mul_decimal(staker.amount, farm_info.phases_info[cur].accrued_token_per_share);
    staker.reward_debt.set(cur, debt);
    staker.joined_phase = cur as u64;
    let mut messages: Vec<TransferMsg> = Vec::new();
    messages.push(transfer_of(&farm_info.reward_token, &info.sender, reward_amount));
    Ok(StakeOutcome { farm_info, staker_info: Some(staker), reward_amount, messages })
}

// ---------------------------------------------------------------- phases

/// Why a time range for a new phase is refused, checked in this order.
pub open spec fn time_range_error(now: u64, start_time: u64, end_time: u64) -> Option<ContractError> {
    if start_time >= end_time {
        Some(ContractError::StartNotBeforeEnd)
    } else if now > start_time {
        Some(ContractError::CurrentTimeAfterStart)
    } else {
        None
    }
}

/// Accepts a phase's time range when it starts before it ends and has not
/// started yet.
pub fn validate_time_range(env: &Env, start_time: u64, end_time: u64) -> (r: Result<(), ContractError>)
    ensures
        r is Err <==> time_range_error(env.block_time, start_time, end_time) is Some,
        r matches Err(e) ==> time_range_error(env.block_time, start_time, end_time) == Some(e),
{
    if start_time >= end_time {
        return Err(ContractError::StartNotBeforeEnd);
    }
    if env.block_time > start_time {
        return Err(ContractError::CurrentTimeAfterStart);
    }
    Ok(())
}

/// Why adding a phase is refused, checked in this order.
pub open spec fn add_phase_error(
    f: FarmView,
    owner: String,
    sender: String,
    now: u64,
    new_start_time: u64,
    new_end_time: u64,
) -> Option<ContractError> {
    let cur = f.current_phase_index as int;
    if owner@ != sender@ {
        Some(ContractError::OnlyOwnerCanAddPhase)
    } else if time_range_error(now, new_start_time, new_end_time) is Some {
        time_range_error(now, new_start_time, new_end_time)
    } else if new_start_time < f.phases[cur].end_time {
        Some(ContractError::StartBeforeCurrentPhaseEnd)
    } else if f.phases.len() - 1 > cur {
        Some(ContractError::PreviousPhaseNotActive)
    } else {
        None
    }
}

/// A new phase with no reward balance yet.
pub open spec fn new_phase(start_time: u64, end_time: u64, whitelist: String) -> PhaseInfo {
    PhaseInfo {
        start_time,
        end_time,
        whitelist,
        reward_balance: 0,
        last_reward_time: start_time,
        accrued_token_per_share: Decimal { atomics: 0 },
    }
}

/// Appends a phase after the current one. Only the owner may do so, for a
/// range that has not started and begins after the current phase ends, and
/// only when every earlier phase has been activated.
pub fn execute_add_phase(
    farm_info: FarmInfo,
    config: &Config,
    env: &Env,
    info: &MessageInfo,
    new_start_time: u64,
    new_end_time: u64,
    whitelist: String,
) -> (r: Result<FarmInfo, ContractError>)
    requires
        (config.farm_owner@ == info.sender@ && time_range_error(env.block_time, new_start_time, new_end_time) is None)
            ==> farm_info.current_phase_index < farm_info.phases_info.len(),
    ensures
        r is Err <==> add_phase_error(farm_info@, config.farm_owner, info.sender, env.block_time, new_start_time, new_end_time) is Some,
        r matches Err(e) ==> add_phase_error(farm_info@, config.farm_owner, info.sender, env.block_time, new_start_time, new_end_time) == Some(e),
        r matches Ok(f) ==> f@ == (FarmView {
            phases: farm_info@.phases.push(new_phase(new_start_time, new_end_time, whitelist)),
            ..farm_info@
        }),
{
    if !(config.farm_owner == info.sender) {
        return Err(ContractError::OnlyOwnerCanAddPhase);
    }
    match validate_time_range(env, new_start_time, new_end_time) {
        Ok(()) => {},
        Err(e) => {
            return Err(e);
        },
    }
    let phases_length = farm_info.phases_info.len();
    let cur = farm_info.current_phase_index as usize;
    if new_start_time < farm_info.phases_info[cur].end_time {
        return Err(ContractError::StartBeforeCurrentPhaseEnd);
    }
    if phases_length - 1 > cur {
        return Err(ContractError::PreviousPhaseNotActive);
    }
    let mut farm_info = farm_info;
    farm_info.phases_info.push(PhaseInfo {
        start_time: new_start_time,
        end_time: new_end_time,
        whitelist,
        reward_balance: 0,
        last_reward_time: new_start_time,
        accrued_token_per_share: Decimal::zero(),
    });
    Ok(farm_info)
}

/// Why activating the next phase is refused, checked in this order.
pub open spec fn activate_phase_error(f: FarmView, owner: String, sender: String, now: u64) -> Option<ContractError> {
    let cur = f.current_phase_index as int;
    if owner@ != sender@ {
        Some(ContractError::OnlyOwnerCanActivatePhase)
    } else if f.phases.len() <= cur + 1 {
        Some(ContractError::AddPhaseFirst)
    } else if now < f.phases[cur].end_time || now > f.phases[cur + 1].start_time {
        Some(ContractError::NotInActivationRange)
    } else if f.phases[cur + 1].reward_balance == 0 {
        Some(ContractError::EmptyPhase)
    } else {
        None
    }
}

/// Activates the phase after the current one, between the end of the current
/// phase and the start of the next, once the next phase holds a reward
/// balance. The current phase first accrues its rewards up to its end.
pub fn execute_activate_phase(
    farm_info: FarmInfo,
    config: &Config,
    env: &Env,
    info: &MessageInfo,
) -> (r: Result<FarmInfo, ContractError>)
    requires
        activate_phase_error(farm_info@, config.farm_owner, info.sender, env.block_time) is None ==> {
            let p = farm_info.phases_info@[farm_info.current_phase_index as int];
            update_in_range(p, p.end_time as int, farm_info.staked_token_balance as int)
        },
    ensures
        r is Err <==> activate_phase_error(farm_info@, config.farm_owner, info.sender, env.block_time) is Some,
        r matches Err(e) ==> activate_phase_error(farm_info@, config.farm_owner, info.sender, env.block_time) == Some(e),
        r matches Ok(f) ==> {
            let cur = farm_info.current_phase_index as int;
            let p = farm_info@.phases[cur];
            &&& farm_info.phases_info@[cur].end_time <= env.block_time
            &&& env.block_time <= farm_info.phases_info@[cur + 1].start_time
            &&& farm_info.phases_info@[cur + 1].reward_balance > 0
            &&& config.farm_owner@ == info.sender@
            &&& f@ == FarmView {
                phases: farm_info@.phases.update(cur, updated_phase(p, p.end_time as int, farm_info.staked_token_balance as int)),
                current_phase_index: (cur + 1) as u64,
                ..farm_info@
            }
        },
{
    if !(config.farm_owner == info.sender) {
        return Err(ContractError::OnlyOwnerCanActivatePhase);
    }
    let current_phase_index = farm_info.current_phase_index;
    let len = farm_info.phases_info.len() as u64;
    if len <= current_phase_index || len - current_phase_index == 1 {
        return Err(ContractError::AddPhaseFirst);
    }
    let cur = current_phase_index as usize;
    if env.block_time < farm_info.phases_info[cur].end_time || env.block_time > farm_info.phases_info[cur + 1].start_time {
        return Err(ContractError::NotInActivationRange);
    }
    if farm_info.phases_info[cur + 1].reward_balance == 0 {
        return Err(ContractError::EmptyPhase);
    }
    let staked_token_balance = farm_info.staked_token_balance;
    let mut farm_info = farm_info;
    let end_time = farm_info.phases_info[cur].end_time;
    farm_info.phases_info[cur].update_reward_ratio_and_time(end_time, staked_token_balance);
    farm_info.current_phase_index = current_phase_index + 1;
    Ok(farm_info)
}

} // verus!

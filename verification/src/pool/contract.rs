//! The pool's message handlers and queries. Each takes the stored state and
//! the message, and returns the new state and the transfers to perform, or
//! the refusal. The staked token balance of the pool, which the handlers
//! query from the staked token contract, is given as the outcome of that query.

use vstd::prelude::*;
use crate::common::{Coin, Env, MessageInfo, TransferMsg};
use crate::math::{mul_decimal, mul_floor, ratio_atomics, sat_sub, Decimal, DECIMAL_FRACTIONAL};
use crate::pool::error::ContractError;
use crate::pool::laws::{pool_well_formed, settled_phase_due};
use crate::pool::formulas::{calc_reward_amount, pool_update, pool_update_in_range, update_pool};
use crate::pool::msg::InstantiateMsg;
use crate::pool::settle::{
    chained_reward, current_update, current_update_in_range, harvest_past_in_range, harvest_reward,
    past_in_range, settle_current_phase, settled, settle_joined_phases, settle_joined_phases_for_harvest,
    times_after_settling, accrued_after_settling, with_current_update,
};
use crate::pool::state::{
    native_funds_match, Config, PoolInfo, PoolInfos, PoolView, RewardTokenAsset, StakerInfoResponse, TokenInfo,
};

verus! {

/// Whether `address` is on the list.
pub open spec fn listed(list: Seq<String>, address: String) -> bool {
    exists|k: int| 0 <= k < list.len() && (#[trigger] list[k])@ == address@
}

pub(crate) fn is_listed(list: &Vec<String>, address: &String) -> (r: bool)
    ensures
        r == listed(list@, *address),
{
    let mut k: usize = 0;
    while k < list.len()
        invariant
            k <= list.len(),
            forall|m: int| 0 <= m < k ==> (#[trigger] list@[m])@ != address@,
        decreases list.len() - k,
    {
        if list[k] == *address {
            return true;
        }
        k = k + 1;
    }
    false
}

/// The transfer of `amount` reward tokens from the pool to `recipient`.
pub open spec fn token_transfer(token: TokenInfo, recipient: String, amount: u128) -> TransferMsg {
    match token {
        TokenInfo::Token { contract_addr } => TransferMsg::Cw20Transfer { contract_addr, recipient, amount },
        TokenInfo::NativeToken { denom } => TransferMsg::BankSend { to_address: recipient, denom, amount },
    }
}

fn transfer_of(token: &TokenInfo, recipient: &String, amount: u128) -> (r: TransferMsg)
    ensures
        r == token_transfer(*token, *recipient, amount),
{
    match token {
        TokenInfo::Token { contract_addr } => TransferMsg::Cw20Transfer {
            contract_addr: contract_addr.clone(),
            recipient: recipient.clone(),
            amount,
        },
        TokenInfo::NativeToken { denom } => TransferMsg::BankSend {
            to_address: recipient.clone(),
            denom: denom.clone(),
            amount,
        },
    }
}

/// The pool a creation message describes: one current phase without rewards.
pub fn instantiate(msg: InstantiateMsg) -> (r: (Config, PoolInfos))
    ensures
        r.0.halo_factory_owner == msg.pool_owner,
        r.1@ == (PoolView {
            staked_token: msg.staked_token,
            reward_token: msg.reward_token,
            current_phase_index: 0,
            pool_infos: seq![PoolInfo {
                reward_per_second: Decimal { atomics: 0 },
                start_time: msg.start_time,
                end_time: msg.end_time,
                pool_limit_per_user: msg.pool_limit_per_user,
            }],
            whitelist: msg.whitelist@,
            reward_balance: seq![0u128],
            last_reward_time: seq![msg.start_time],
            accrued_token_per_share: seq![Decimal { atomics: 0 }],
        }),
        pool_well_formed(r.1@),
{
    let config = Config { halo_factory_owner: msg.pool_owner };
    let mut pool_infos: Vec<PoolInfo> = Vec::new();
    pool_infos.push(PoolInfo {
        reward_per_second: Decimal::zero(),
        start_time: msg.start_time,
        end_time: msg.end_time,
        pool_limit_per_user: msg.pool_limit_per_user,
    });
    let mut reward_balance: Vec<u128> = Vec::new();
    reward_balance.push(0);
    let mut last_reward_time: Vec<u64> = Vec::new();
    last_reward_time.push(msg.start_time);
    let mut accrued_token_per_share: Vec<Decimal> = Vec::new();
    accrued_token_per_share.push(Decimal::zero());
    let infos = PoolInfos {
        staked_token: msg.staked_token,
        reward_token: msg.reward_token,
        current_phase_index: 0,
        pool_infos,
        whitelist: msg.whitelist,
        reward_balance,
        last_reward_time,
        accrued_token_per_share,
    };
    assert(infos@.pool_infos =~= seq![PoolInfo {
        reward_per_second: Decimal { atomics: 0 },
        start_time: msg.start_time,
        end_time: msg.end_time,
        pool_limit_per_user: msg.pool_limit_per_user,
    }]);
    assert(infos@.reward_balance =~= seq![0u128]);
    assert(infos@.last_reward_time =~= seq![msg.start_time]);
    assert(infos@.accrued_token_per_share =~= seq![Decimal { atomics: 0 }]);
    (config, infos)
}

// ---------------------------------------------------------------- add reward

/// Why adding reward balance to a phase is refused, checked in this order.
pub open spec fn add_reward_balance_error(
    p: PoolView,
    sender: String,
    funds: Seq<Coin>,
    now: u64,
    phase_index: u64,
    asset: RewardTokenAsset,
    supply: Result<u128, String>,
) -> Option<ContractError> {
    let i = phase_index as int;
    if !listed(p.whitelist, sender) {
        Some(ContractError::NotWhitelisted)
    } else if now > p.pool_infos[i].end_time {
        Some(ContractError::PoolActive)
    } else if p.reward_balance[i] > 0 {
        Some(ContractError::RewardAddedTwice)
    } else if !native_funds_match(asset, funds) {
        Some(ContractError::NativeBalanceMismatch)
    } else if supply is Err {
        Some(ContractError::QueryFailed { reason: supply->Err_0 })
    } else {
        None
    }
}

/// The reward per second that spreads `amount` over a phase, rounded down to a whole number.
pub open spec fn spread_rate(amount: u128, info: PoolInfo) -> Decimal {
    let r = ratio_atomics(amount as int, (info.end_time as int) - (info.start_time as int));
    Decimal { atomics: (r - r % (DECIMAL_FRACTIONAL as int)) as u128 }
}

/// The pool after `amount` reward tokens are added to a phase and the phase
/// is accrued from its start up to `now` at its previous rate.
pub open spec fn pool_with_reward_added(p: PoolView, phase_index: u64, amount: u128, supply: u128, now: u64) -> PoolView {
    let i = phase_index as int;
    let info = p.pool_infos[i];
    let u = pool_update(
        info.end_time as int,
        info.reward_per_second,
        supply as int,
        p.accrued_token_per_share[i],
        now as int,
        info.start_time as int,
    );
    PoolView {
        pool_infos: p.pool_infos.update(i, PoolInfo { reward_per_second: spread_rate(amount, info), ..info }),
        reward_balance: p.reward_balance.update(i, amount),
        last_reward_time: p.last_reward_time.update(i, u.1),
        accrued_token_per_share: p.accrued_token_per_share.update(i, u.0),
        ..p
    }
}

/// Adds the reward balance of a phase that has not ended, once, from a
/// whitelisted address: the reward rate becomes the balance spread over the
/// phase, and the phase is accrued from its start.
pub fn execute_add_reward_balance(
    pool_infos: PoolInfos,
    env: &Env,
    info: &MessageInfo,
    phase_index: u64,
    asset: RewardTokenAsset,
    staked_token_supply: Result<u128, String>,
) -> (r: Result<(PoolInfos, Vec<TransferMsg>), ContractError>)
    requires
        phase_index < pool_infos.pool_infos.len(),
        (listed(pool_infos.whitelist@, info.sender)
            && env.block_time <= pool_infos.pool_infos@[phase_index as int].end_time) ==> {
            &&& phase_index < pool_infos.accrued_token_per_share.len()
            &&& phase_index < pool_infos.reward_balance.len()
        },
        add_reward_balance_error(pool_infos@, info.sender, info.funds@, env.block_time, phase_index, asset, Ok(0)) is None ==> {
            let p = pool_infos@.pool_infos[phase_index as int];
            &&& p.start_time < p.end_time
            &&& ratio_atomics(asset.amount as int, (p.end_time as int) - (p.start_time as int)) <= u128::MAX
        },
        add_reward_balance_error(pool_infos@, info.sender, info.funds@, env.block_time, phase_index, asset, staked_token_supply) is None ==> {
            let p = pool_infos@.pool_infos[phase_index as int];
            &&& phase_index < pool_infos.last_reward_time.len()
            &&& pool_update_in_range(
                p.end_time as int,
                p.reward_per_second,
                staked_token_supply->Ok_0 as int,
                pool_infos@.accrued_token_per_share[phase_index as int],
                env.block_time as int,
                p.start_time as int,
            )
        },
    ensures
        r is Err <==> add_reward_balance_error(pool_infos@, info.sender, info.funds@, env.block_time, phase_index, asset, staked_token_supply) is Some,
        r matches Err(e) ==> add_reward_balance_error(pool_infos@, info.sender, info.funds@, env.block_time, phase_index, asset, staked_token_supply) == Some(e),
        r matches Ok((p, msgs)) ==> {
            &&& p@ == pool_with_reward_added(pool_infos@, phase_index, asset.amount, staked_token_supply->Ok_0, env.block_time)
            &&& msgs@ == (match pool_infos.reward_token {
                TokenInfo::Token { contract_addr } => seq![TransferMsg::Cw20TransferFrom {
                    contract_addr,
                    owner: info.sender,
                    recipient: env.contract_address,
                    amount: asset.amount,
                }],
                TokenInfo::NativeToken { .. } => Seq::empty(),
            })
        },
{
    let current_time = env.block_time;
    let idx = phase_index as usize;
    let pool_info = pool_infos.pool_infos[idx];
    if !is_listed(&pool_infos.whitelist, &info.sender) {
        return Err(ContractError::NotWhitelisted);
    }
    if current_time > pool_info.end_time {
        return Err(ContractError::PoolActive);
    }
    let accrued_token_per_share = pool_infos.accrued_token_per_share[idx];
    if pool_infos.reward_balance[idx] > 0 {
        return Err(ContractError::RewardAddedTwice);
    }
    match asset.assert_sent_native_token_balance(&info.funds) {
        Ok(()) => {},
        Err(e) => {
            return Err(e);
        },
    }
    let mut messages: Vec<TransferMsg> = Vec::new();
    if let TokenInfo::Token { contract_addr } = &pool_infos.reward_token {
        messages.push(TransferMsg::Cw20TransferFrom {
            contract_addr: contract_addr.clone(),
            owner: info.sender.clone(),
            recipient: env.contract_address.clone(),
            amount: asset.amount,
        });
    }
    let reward_balance = asset.amount;
    let new_reward_per_second = Decimal::from_ratio(reward_balance, (pool_info.end_time - pool_info.start_time) as u128).floor();
    let staked_token_supply = match staked_token_supply {
        Ok(v) => v,
        Err(reason) => {
            return Err(ContractError::QueryFailed { reason });
        },
    };
    let ghost p0 = pool_infos@;
    let mut pool_infos = pool_infos;
    pool_infos.reward_balance[idx] = reward_balance;
    pool_infos.pool_infos[idx] = PoolInfo { reward_per_second: new_reward_per_second, ..pool_info };
    pool_infos.last_reward_time[idx] = pool_info.start_time;
    let (new_accrued_token_per_share, new_last_reward_time) = update_pool(
        pool_info.end_time,
        pool_info.reward_per_second,
        staked_token_supply,
        accrued_token_per_share,
        current_time,
        pool_info.start_time,
    );
    pool_infos.last_reward_time[idx] = new_last_reward_time;
    pool_infos.accrued_token_per_share[idx] = new_accrued_token_per_share;
    assert(pool_infos@.last_reward_time =~= pool_with_reward_added(p0, phase_index, asset.amount, staked_token_supply, current_time).last_reward_time);
    assert(pool_infos@.pool_infos =~= pool_with_reward_added(p0, phase_index, asset.amount, staked_token_supply, current_time).pool_infos);
    Ok((pool_infos, messages))
}

// ---------------------------------------------------------------- remove phase

/// Why removing a phase is refused, checked in this order.
pub open spec fn remove_phase_error(p: PoolView, sender: String, now: u64, phase_index: u64) -> Option<ContractError> {
    if !listed(p.whitelist, sender) {
        Some(ContractError::NotWhitelisted)
    } else if p.current_phase_index == phase_index {
        Some(ContractError::CannotRemoveActivePhase)
    } else if now > p.pool_infos[phase_index as int].start_time {
        Some(ContractError::PhaseStarted)
    } else {
        None
    }
}

/// Removes a phase other than the current one that has not started, for a
/// whitelisted sender; a reward balance the phase holds is sent back to the
/// sender.
pub fn execute_remove_phase(
    pool_infos: PoolInfos,
    env: &Env,
    info: &MessageInfo,
    phase_index: u64,
) -> (r: Result<(PoolInfos, Vec<TransferMsg>), ContractError>)
    requires
        (listed(pool_infos.whitelist@, info.sender) && pool_infos.current_phase_index != phase_index)
            ==> phase_index < pool_infos.pool_infos.len(),
        remove_phase_error(pool_infos@, info.sender, env.block_time, phase_index) is None ==> {
            &&& phase_index < pool_infos.reward_balance.len()
            &&& phase_index < pool_infos.last_reward_time.len()
            &&& phase_index < pool_infos.accrued_token_per_share.len()
        },
    ensures
        r is Err <==> remove_phase_error(pool_infos@, info.sender, env.block_time, phase_index) is Some,
        r matches Err(e) ==> remove_phase_error(pool_infos@, info.sender, env.block_time, phase_index) == Some(e),
        r matches Ok((p, msgs)) ==> {
            let i = phase_index as int;
            &&& p@ == (PoolView {
                pool_infos: pool_infos@.pool_infos.remove(i),
                reward_balance: pool_infos@.reward_balance.remove(i),
                last_reward_time: pool_infos@.last_reward_time.remove(i),
                accrued_token_per_share: pool_infos@.accrued_token_per_share.remove(i),
                ..pool_infos@
            })
            &&& msgs@ == reward_payout(pool_infos.reward_token, info.sender, pool_infos@.reward_balance[i])
        },
{
    if !is_listed(&pool_infos.whitelist, &info.sender) {
        return Err(ContractError::NotWhitelisted);
    }
    if pool_infos.current_phase_index == phase_index {
        return Err(ContractError::CannotRemoveActivePhase);
    }
    let idx = phase_index as usize;
    if env.block_time > pool_infos.pool_infos[idx].start_time {
        return Err(ContractError::PhaseStarted);
    }
    let mut messages: Vec<TransferMsg> = Vec::new();
    let balance = pool_infos.reward_balance[idx];
    if balance > 0 {
        messages.push(transfer_of(&pool_infos.reward_token, &info.sender, balance));
    }
    let mut pool_infos = pool_infos;
    pool_infos.pool_infos.remove(idx);
    pool_infos.reward_balance.remove(idx);
    pool_infos.last_reward_time.remove(idx);
    pool_infos.accrued_token_per_share.remove(idx);
    Ok((pool_infos, messages))
}

// ---------------------------------------------------------------- stake changes

/// The staker's record, or an empty one joined in phase `joined`.
pub open spec fn staker_or_empty(s: Option<StakerInfoResponse>, joined: u64) -> StakerInfoResponse {
    match s {
        Some(v) => v,
        None => StakerInfoResponse { amount: 0, reward_debt: 0, joined_phase: joined },
    }
}

/// The pool after settling the finished phases since `s` joined and accruing
/// the current phase up to `now`, as deposits and withdrawals do.
pub open spec fn pool_after_settling(p: PoolView, s: StakerInfoResponse, supply: u128, now: u64) -> PoolView {
    let cur = p.current_phase_index as int;
    with_current_update(
        PoolView {
            last_reward_time: times_after_settling(p, supply as int, s.joined_phase as int, cur),
            accrued_token_per_share: accrued_after_settling(p, supply as int, s.joined_phase as int, cur),
            ..p
        },
        supply as int,
        now as int,
    )
}

/// What a deposit or withdrawal pays: the finished phases since `s` joined,
/// then the current phase accrued up to `now`.
pub open spec fn settled_reward(p: PoolView, s: StakerInfoResponse, supply: u128, now: u64) -> int {
    let cur = p.current_phase_index as int;
    let j = s.joined_phase as int;
    chained_reward(p, supply as int, s.amount as int, s.reward_debt as int, j, cur) + sat_sub(
        mul_floor(s.amount as int, current_update(p, supply as int, now as int).0),
        if j < cur { 0 } else { s.reward_debt as int },
    )
}

/// When settling for a deposit or withdrawal stays within the stored entries
/// and the arithmetic, and the stake can then become `new_amount`.
pub open spec fn settling_in_range(p: PoolView, s: StakerInfoResponse, supply: u128, now: u64, new_amount: int) -> bool {
    &&& past_in_range(p, s, supply as int, u128::MAX as int)
    &&& current_update_in_range(p, supply as int, now as int)
    &&& mul_floor(s.amount as int, current_update(p, supply as int, now as int).0) <= u128::MAX
    &&& settled_reward(p, s, supply, now) <= u128::MAX
    &&& 0 <= new_amount <= u128::MAX
    &&& mul_floor(new_amount, current_update(p, supply as int, now as int).0) <= u128::MAX
}

/// The staker after its stake becomes `new_amount`, with its debt set to
/// what that stake has earned in the current phase.
pub open spec fn restaked(p: PoolView, supply: u128, now: u64, new_amount: int) -> StakerInfoResponse {
    StakerInfoResponse {
        amount: new_amount as u128,
        reward_debt: mul_floor(new_amount, current_update(p, supply as int, now as int).0) as u128,
        joined_phase: p.current_phase_index,
    }
}

/// The payout of a reward: one transfer when it is positive, none otherwise.
pub open spec fn reward_payout(token: TokenInfo, recipient: String, amount: u128) -> Seq<TransferMsg> {
    if amount > 0 {
        seq![token_transfer(token, recipient, amount)]
    } else {
        Seq::empty()
    }
}

/// What a deposit, withdrawal or harvest leaves behind.
#[derive(Debug)]
pub struct PoolStakeOutcome {
    pub pool_infos: PoolInfos,
    /// The staker's record; none when it is to be removed.
    pub staker_info: Option<StakerInfoResponse>,
    /// Rewards paid to the staker.
    pub reward_amount: u128,
    /// Transfers to perform, in order.
    pub messages: Vec<TransferMsg>,
}

/// Why a deposit is refused, checked in this order.
pub open spec fn deposit_error(p: PoolView, s: Option<StakerInfoResponse>, amount: u128, supply: Result<u128, String>) -> Option<ContractError> {
    let st = staker_or_empty(s, p.current_phase_index);
    if (match p.pool_infos[p.current_phase_index as int].pool_limit_per_user {
        Some(limit) => limit > 0 && st.amount + amount > limit,
        None => false,
    }) {
        Some(ContractError::ExceedsPoolLimit)
    } else if supply is Err {
        Some(ContractError::QueryFailed { reason: supply->Err_0 })
    } else {
        None
    }
}

/// Deposits `amount` staked tokens for the sender, within the limit per user
/// (a limit of zero sets none):
/// settles the sender's rewards (paid out when positive), pulls the tokens
/// from the sender and records the larger stake.
pub fn execute_deposit(
    pool_infos: PoolInfos,
    staker_info: Option<StakerInfoResponse>,
    env: &Env,
    info: &MessageInfo,
    amount: u128,
    staked_token_supply: Result<u128, String>,
) -> (r: Result<PoolStakeOutcome, ContractError>)
    requires
        pool_infos.current_phase_index < pool_infos.pool_infos.len(),
        (pool_infos.pool_infos@[pool_infos.current_phase_index as int].pool_limit_per_user matches Some(limit) && limit > 0)
            ==> staker_or_empty(staker_info, pool_infos.current_phase_index).amount + amount <= u128::MAX,
        deposit_error(pool_infos@, staker_info, amount, staked_token_supply) is None ==> {
            let st = staker_or_empty(staker_info, pool_infos.current_phase_index);
            settling_in_range(pool_infos@, st, staked_token_supply->Ok_0, env.block_time, st.amount + amount)
        },
    ensures
        r is Err <==> deposit_error(pool_infos@, staker_info, amount, staked_token_supply) is Some,
        r matches Err(e) ==> deposit_error(pool_infos@, staker_info, amount, staked_token_supply) == Some(e),
        r matches Ok(out) ==> {
            let p = pool_infos@;
            let st = staker_or_empty(staker_info, p.current_phase_index);
            let supply = staked_token_supply->Ok_0;
            let reward = settled_reward(p, st, supply, env.block_time);
            &&& out.reward_amount == reward
            &&& forall|k: int| st.joined_phase <= k < p.current_phase_index
                ==> out.reward_amount >= #[trigger] settled_phase_due(p, st, supply as int, k)
            &&& out.pool_infos@ == pool_after_settling(p, st, supply, env.block_time)
            &&& out.staker_info == Some(restaked(p, supply, env.block_time, st.amount + amount))
            &&& out.messages@ == reward_payout(p.reward_token, info.sender, reward as u128).push(
                TransferMsg::Cw20TransferFrom {
                    contract_addr: p.staked_token,
                    owner: info.sender,
                    recipient: env.contract_address,
                    amount,
                },
            )
        },
{
    let current_phase_index = pool_infos.current_phase_index;
    let cur = current_phase_index as usize;
    let pool_limit_per_user = pool_infos.pool_infos[cur].pool_limit_per_user;
    let mut staker = match staker_info {
        Some(s) => s,
        None => StakerInfoResponse { amount: 0, reward_debt: 0, joined_phase: current_phase_index },
    };
    if let Some(limit) = pool_limit_per_user {
        if limit > 0 && staker.amount + amount > limit {
            return Err(ContractError::ExceedsPoolLimit);
        }
    }
    let supply = match staked_token_supply {
        Ok(v) => v,
        Err(reason) => {
            return Err(ContractError::QueryFailed { reason });
        },
    };
    let ghost p0 = pool_infos@;
    let ghost s0 = staker;
    let mut pool_infos = pool_infos;
    let past = settle_joined_phases(&mut pool_infos, &mut staker, supply);
    let ghost p1 = pool_infos@;
    assert(current_update(p1, supply as int, env.block_time as int) == current_update(p0, supply as int, env.block_time as int));
    assert(current_update_in_range(p1, supply as int, env.block_time as int));
    let new_accrued = settle_current_phase(&mut pool_infos, supply, env.block_time);
    let owed = calc_reward_amount(staker.amount, new_accrued, staker.reward_debt);
    let reward_amount = past + owed;
    let mut messages: Vec<TransferMsg> = Vec::new();
    if reward_amount > 0 {
        messages.push(transfer_of(&pool_infos.reward_token, &info.sender, reward_amount));
    }
    messages.push(TransferMsg::Cw20TransferFrom {
        contract_addr: pool_infos.staked_token.clone(),
        owner: info.sender.clone(),
        recipient: env.contract_address.clone(),
        amount,
    });
    staker.amount = staker.amount + amount;
    staker.reward_debt = mul_decimal(staker.amount, new_accrued);
    staker.joined_phase = current_phase_index;
    proof {
        assert forall|k: int| s0.joined_phase <= k < p0.current_phase_index
            implies reward_amount >= #[trigger] settled_phase_due(p0, s0, supply as int, k) by {
            crate::pool::laws::lemma_settling_pays_each_finished_phase(p0, s0, supply, env.block_time, k);
        }
    }
    Ok(PoolStakeOutcome { pool_infos, staker_info: Some(staker), reward_amount, messages })
}

/// Why a withdrawal is refused, checked in this order.
pub open spec fn withdraw_error(p: PoolView, s: Option<StakerInfoResponse>, amount: u128, supply: Result<u128, String>) -> Option<ContractError> {
    let st = staker_or_empty(s, p.current_phase_index);
    if st.amount == 0 {
        Some(ContractError::OnlyStakerCanWithdraw)
    } else if st.amount < amount {
        Some(ContractError::InsufficientStake)
    } else if supply is Err {
        Some(ContractError::QueryFailed { reason: supply->Err_0 })
    } else {
        None
    }
}

/// Withdraws `amount` staked tokens to the sender: settles the sender's
/// rewards and sends them when positive, returns the tokens and records the
/// smaller stake;
/// a record whose stake reaches zero is removed.
pub fn execute_withdraw(
    pool_infos: PoolInfos,
    staker_info: Option<StakerInfoResponse>,
    env: &Env,
    info: &MessageInfo,
    amount: u128,
    staked_token_supply: Result<u128, String>,
) -> (r: Result<PoolStakeOutcome, ContractError>)
    requires
        withdraw_error(pool_infos@, staker_info, amount, staked_token_supply) is None ==> {
            let st = staker_or_empty(staker_info, pool_infos.current_phase_index);
            settling_in_range(pool_infos@, st, staked_token_supply->Ok_0, env.block_time, st.amount - amount)
        },
    ensures
        r is Err <==> withdraw_error(pool_infos@, staker_info, amount, staked_token_supply) is Some,
        r matches Err(e) ==> withdraw_error(pool_infos@, staker_info, amount, staked_token_supply) == Some(e),
        r matches Ok(out) ==> {
            let p = pool_infos@;
            let st = staker_or_empty(staker_info, p.current_phase_index);
            let supply = staked_token_supply->Ok_0;
            let reward = settled_reward(p, st, supply, env.block_time);
            &&& out.reward_amount == reward
            &&& forall|k: int| st.joined_phase <= k < p.current_phase_index
                ==> out.reward_amount >= #[trigger] settled_phase_due(p, st, supply as int, k)
            &&& out.pool_infos@ == pool_after_settling(p, st, supply, env.block_time)
            &&& out.staker_info == (if st.amount == amount {
                None
            } else {
                Some(restaked(p, supply, env.block_time, st.amount - amount))
            })
            &&& out.messages@ == reward_payout(p.reward_token, info.sender, reward as u128).push(
                TransferMsg::Cw20Transfer { contract_addr: p.staked_token, recipient: info.sender, amount },
            )
        },
{
    let current_phase_index = pool_infos.current_phase_index;
    let mut staker = match staker_info {
        Some(s) => s,
        None => StakerInfoResponse { amount: 0, reward_debt: 0, joined_phase: current_phase_index },
    };
    if staker.amount == 0 {
        return Err(ContractError::OnlyStakerCanWithdraw);
    }
    if staker.amount < amount {
        return Err(ContractError::InsufficientStake);
    }
    let supply = match staked_token_supply {
        Ok(v) => v,
        Err(reason) => {
            return Err(ContractError::QueryFailed { reason });
        },
    };
    let ghost p0 = pool_infos@;
    let ghost s0 = staker;
    let mut pool_infos = pool_infos;
    let past = settle_joined_phases(&mut pool_infos, &mut staker, supply);
    let ghost p1 = pool_infos@;
    assert(current_update(p1, supply as int, env.block_time as int) == current_update(p0, supply as int, env.block_time as int));
    assert(current_update_in_range(p1, supply as int, env.block_time as int));
    let new_accrued = settle_current_phase(&mut pool_infos, supply, env.block_time);
    let owed = calc_reward_amount(staker.amount, new_accrued, staker.reward_debt);
    let reward_amount = past + owed;
    let mut messages: Vec<TransferMsg> = Vec::new();
    if reward_amount > 0 {
        messages.push(transfer_of(&pool_infos.reward_token, &info.sender, reward_amount));
    }
    messages.push(TransferMsg::Cw20Transfer {
        contract_addr: pool_infos.staked_token.clone(),
        recipient: info.sender.clone(),
        amount,
    });
    staker.amount = staker.amount - amount;
    staker.reward_debt = mul_decimal(staker.amount, new_accrued);
    staker.joined_phase = current_phase_index;
    let staker_info = if staker.amount == 0 {
        None
    } else {
        Some(staker)
    };
    proof {
        assert forall|k: int| s0.joined_phase <= k < p0.current_phase_index
            implies reward_amount >= #[trigger] settled_phase_due(p0, s0, supply as int, k) by {
            crate::pool::laws::lemma_settling_pays_each_finished_phase(p0, s0, supply, env.block_time, k);
        }
    }
    Ok(PoolStakeOutcome { pool_infos, staker_info, reward_amount, messages })
}

/// What a harvest pays: the finished phases since `s` joined the way a
/// harvest settles them, then the current phase accrued up to `now`.
pub open spec fn harvested_reward(p: PoolView, s: StakerInfoResponse, supply: u128, now: u64) -> int {
    let cur = p.current_phase_index as int;
    let j = s.joined_phase as int;
    harvest_reward(p, supply as int, s.amount as int, s.reward_debt as int, j, cur) + sat_sub(
        mul_floor(s.amount as int, current_update(p, supply as int, now as int).0),
        if j < cur { 0 } else { s.reward_debt as int },
    )
}

/// The pool after a harvest: the finished phases since `s` joined get their
/// last reward time settled, and the current phase is accrued up to `now`.
pub open spec fn pool_after_harvest(p: PoolView, s: StakerInfoResponse, supply: u128, now: u64) -> PoolView {
    let cur = p.current_phase_index as int;
    with_current_update(
        PoolView { last_reward_time: times_after_settling(p, supply as int, s.joined_phase as int, cur), ..p },
        supply as int,
        now as int,
    )
}

/// Why a harvest is refused, checked in this order.
pub open spec fn harvest_error(p: PoolView, s: Option<StakerInfoResponse>, supply: Result<u128, String>, now: u64) -> Option<ContractError> {
    let st = staker_or_empty(s, p.current_phase_index);
    if st.amount == 0 {
        Some(ContractError::OnlyStakerCanHarvest)
    } else if supply is Err {
        Some(ContractError::QueryFailed { reason: supply->Err_0 })
    } else if harvested_reward(p, st, supply->Ok_0, now) == 0 {
        Some(ContractError::ZeroReward)
    } else {
        None
    }
}

/// Pays the sender the rewards it has earned; refused when there are none.
pub fn execute_harvest(
    pool_infos: PoolInfos,
    staker_info: Option<StakerInfoResponse>,
    env: &Env,
    info: &MessageInfo,
    staked_token_supply: Result<u128, String>,
) -> (r: Result<PoolStakeOutcome, ContractError>)
    requires
        (staker_or_empty(staker_info, pool_infos.current_phase_index).amount > 0 && staked_token_supply is Ok) ==> {
            let st = staker_or_empty(staker_info, pool_infos.current_phase_index);
            let supply = staked_token_supply->Ok_0;
            &&& harvest_past_in_range(pool_infos@, st, supply as int)
            &&& current_update_in_range(pool_infos@, supply as int, env.block_time as int)
            &&& mul_floor(st.amount as int, current_update(pool_infos@, supply as int, env.block_time as int).0) <= u128::MAX
            &&& harvested_reward(pool_infos@, st, supply, env.block_time) <= u128::MAX
        },
    ensures
        r is Err <==> harvest_error(pool_infos@, staker_info, staked_token_supply, env.block_time) is Some,
        r matches Err(e) ==> harvest_error(pool_infos@, staker_info, staked_token_supply, env.block_time) == Some(e),
        r matches Ok(out) ==> {
            let p = pool_infos@;
            let st = staker_or_empty(staker_info, p.current_phase_index);
            let supply = staked_token_supply->Ok_0;
            let reward = harvested_reward(p, st, supply, env.block_time);
            &&& out.reward_amount == reward
            &&& forall|k: int| st.joined_phase < k < p.current_phase_index
                ==> out.reward_amount >= mul_floor(st.amount as int, (#[trigger] settled(p, k, supply as int)).0)
            &&& out.pool_infos@ == pool_after_harvest(p, st, supply, env.block_time)
            &&& out.staker_info == Some(restaked(p, supply, env.block_time, st.amount as int))
            &&& out.messages@ == seq![token_transfer(p.reward_token, info.sender, reward as u128)]
        },
{
    let current_phase_index = pool_infos.current_phase_index;
    let mut staker = match staker_info {
        Some(s) => s,
        None => StakerInfoResponse { amount: 0, reward_debt: 0, joined_phase: current_phase_index },
    };
    if staker.amount == 0 {
        return Err(ContractError::OnlyStakerCanHarvest);
    }
    let supply = match staked_token_supply {
        Ok(v) => v,
        Err(reason) => {
            return Err(ContractError::QueryFailed { reason });
        },
    };
    let ghost p0 = pool_infos@;
    let ghost s0 = staker;
    let mut pool_infos = pool_infos;
    let past = settle_joined_phases_for_harvest(&mut pool_infos, &mut staker, supply);
    let ghost p1 = pool_infos@;
    assert(current_update(p1, supply as int, env.block_time as int) == current_update(p0, supply as int, env.block_time as int));
    assert(current_update_in_range(p1, supply as int, env.block_time as int));
    let new_accrued = settle_current_phase(&mut pool_infos, supply, env.block_time);
    let owed = calc_reward_amount(staker.amount, new_accrued, staker.reward_debt);
    let reward_amount = past + owed;
    staker.reward_debt = mul_decimal(staker.amount, new_accrued);
    if reward_amount == 0 {
        return Err(ContractError::ZeroReward);
    }
    let mut messages: Vec<TransferMsg> = Vec::new();
    messages.push(transfer_of(&pool_infos.reward_token, &info.sender, reward_amount));
    staker.joined_phase = current_phase_index;
    proof {
        assert forall|k: int| s0.joined_phase < k < p0.current_phase_index
            implies reward_amount >= mul_floor(s0.amount as int, (#[trigger] settled(p0, k, supply as int)).0) by {
            crate::pool::laws::lemma_harvest_pays_each_finished_phase(p0, s0, supply, env.block_time, k);
        }
    }
    Ok(PoolStakeOutcome { pool_infos, staker_info: Some(staker), reward_amount, messages })
}

// ---------------------------------------------------------------- phases

/// Sets the limit per user of the current phase. Only the owner may do so.
pub fn execute_update_pool_limit_per_user(
    pool_infos: PoolInfos,
    config: &Config,
    info: &MessageInfo,
    new_pool_limit_per_user: u128,
) -> (r: Result<PoolInfos, ContractError>)
    requires
        config.halo_factory_owner@ == info.sender@ ==> pool_infos.current_phase_index < pool_infos.pool_infos.len(),
    ensures
        r is Err <==> config.halo_factory_owner@ != info.sender@,
        r matches Err(e) ==> e == ContractError::OnlyOwnerCanUpdateLimit,
        r matches Ok(p) ==> {
            let cur = pool_infos.current_phase_index as int;
            p@ == (PoolView {
                pool_infos: pool_infos@.pool_infos.update(
                    cur,
                    PoolInfo { pool_limit_per_user: Some(new_pool_limit_per_user), ..pool_infos@.pool_infos[cur] },
                ),
                ..pool_infos@
            })
        },
{
    if !(config.halo_factory_owner == info.sender) {
        return Err(ContractError::OnlyOwnerCanUpdateLimit);
    }
    let cur = pool_infos.current_phase_index as usize;
    let mut pool_infos = pool_infos;
    let pool_info = pool_infos.pool_infos[cur];
    pool_infos.pool_infos[cur] = PoolInfo { pool_limit_per_user: Some(new_pool_limit_per_user), ..pool_info };
    Ok(pool_infos)
}

/// The phases after adding one: a copy of the current phase, starting at its
/// end and ending at `new_end_time`, is appended; then the phase after the
/// current one is given the new start and end times.
pub open spec fn phases_with_new_phase(p: PoolView, new_start_time: u64, new_end_time: u64) -> Seq<PoolInfo> {
    let cur = p.current_phase_index as int;
    let c = p.pool_infos[cur];
    let appended = p.pool_infos.push(PoolInfo { start_time: c.end_time, end_time: new_end_time, ..c });
    appended.update(cur + 1, PoolInfo { start_time: new_start_time, end_time: new_end_time, ..appended[cur + 1] })
}

/// Adds a phase after the current one, with no reward balance yet. Only the
/// owner may do so.
pub fn execute_add_phase(
    pool_infos: PoolInfos,
    config: &Config,
    info: &MessageInfo,
    new_start_time: u64,
    new_end_time: u64,
) -> (r: Result<PoolInfos, ContractError>)
    requires
        config.halo_factory_owner@ == info.sender@ ==> pool_infos.current_phase_index < pool_infos.pool_infos.len(),
    ensures
        r is Err <==> config.halo_factory_owner@ != info.sender@,
        r matches Err(e) ==> e == ContractError::OnlyOwnerCanAddPhase,
        r matches Ok(p) ==> p.pool_infos.len() == pool_infos.pool_infos.len() + 1,
        r matches Ok(p) ==> {
            let cur = pool_infos.current_phase_index as int;
            let c = pool_infos.pool_infos@[cur];
            let last = p.pool_infos@[p.pool_infos.len() - 1];
            &&& last.pool_limit_per_user == c.pool_limit_per_user
            &&& last.reward_per_second == c.reward_per_second
            &&& p.pool_infos@[cur + 1].start_time == new_start_time
            &&& p.pool_infos@[cur + 1].end_time == new_end_time
        },
        r matches Ok(p) ==> p@ == (PoolView {
            pool_infos: phases_with_new_phase(pool_infos@, new_start_time, new_end_time),
            reward_balance: pool_infos@.reward_balance.push(0),
            last_reward_time: pool_infos@.last_reward_time.push(new_start_time),
            accrued_token_per_share: pool_infos@.accrued_token_per_share.push(Decimal { atomics: 0 }),
            ..pool_infos@
        }),
{
    if !(config.halo_factory_owner == info.sender) {
        return Err(ContractError::OnlyOwnerCanAddPhase);
    }
    let cur = pool_infos.current_phase_index as usize;
    let ghost p0 = pool_infos@;
    let mut pool_infos = pool_infos;
    let current = pool_infos.pool_infos[cur];
    pool_infos.pool_infos.push(PoolInfo { start_time: current.end_time, end_time: new_end_time, ..current });
    let next = pool_infos.pool_infos[cur + 1];
    pool_infos.pool_infos[cur + 1] = PoolInfo { start_time: new_start_time, end_time: new_end_time, ..next };
    pool_infos.reward_balance.push(0);
    pool_infos.last_reward_time.push(new_start_time);
    pool_infos.accrued_token_per_share.push(Decimal::zero());
    assert(pool_infos@.pool_infos =~= phases_with_new_phase(p0, new_start_time, new_end_time));
    Ok(pool_infos)
}

/// Makes the next phase current, once the current phase has ended.
pub fn execute_activate_phase(pool_infos: PoolInfos, env: &Env) -> (r: Result<PoolInfos, ContractError>)
    requires
        pool_infos.current_phase_index < pool_infos.pool_infos.len(),
        pool_infos.current_phase_index < u64::MAX,
    ensures
        r is Err <==> env.block_time < pool_infos.pool_infos@[pool_infos.current_phase_index as int].end_time,
        r matches Err(e) ==> e == ContractError::CurrentPhaseNotEnded,
        r matches Ok(p) ==> p@ == (PoolView { current_phase_index: (pool_infos.current_phase_index + 1) as u64, ..pool_infos@ }),
{
    let cur = pool_infos.current_phase_index as usize;
    if env.block_time < pool_infos.pool_infos[cur].end_time {
        return Err(ContractError::CurrentPhaseNotEnded);
    }
    let mut pool_infos = pool_infos;
    pool_infos.current_phase_index = pool_infos.current_phase_index + 1;
    Ok(pool_infos)
}

} // verus!

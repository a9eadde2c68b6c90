//! The pool factory's handlers and queries.

use vstd::prelude::*;
use crate::common::{page_ids, page_of_ids, Env, MessageInfo};
use crate::pool::msg::InstantiateMsg as PoolInstantiateMsg;
use crate::pool::state::{PoolInfos, TokenInfo};
use crate::pool_factory::error::ContractError;
use crate::pool_factory::msg::InstantiateMsg;
use crate::pool_factory::state::{recorded_pool, Config, ConfigResponse, FactoryPoolInfo};

verus! {

/// The factory a creation message describes, owned by its sender, with no
/// pools yet. Returns the configuration and the number of pools.
pub fn instantiate(info: &MessageInfo, msg: InstantiateMsg) -> (r: (Config, u64))
    ensures
        r.0 == (Config { owner: info.sender, pool_code_id: msg.pool_code_id }),
        r.1 == 0,
{
    (Config { owner: info.sender.clone(), pool_code_id: msg.pool_code_id }, 0)
}

/// Why a configuration update is refused, checked in this order.
pub open spec fn update_config_error(config: Config, sender: String, owner: Option<Result<String, String>>) -> Option<ContractError> {
    if sender@ != config.owner@ {
        Some(ContractError::Unauthorized)
    } else if owner is Some && owner->0 is Err {
        Some(ContractError::InvalidAddress { reason: owner->0->Err_0 })
    } else {
        None
    }
}

/// Lets the owner hand the factory to a new owner and change the pool code.
/// `owner` is the new owner as validated by the chain, when one is given.
pub fn execute_update_config(
    config: Config,
    info: &MessageInfo,
    owner: Option<Result<String, String>>,
    pool_code_id: Option<u64>,
) -> (r: Result<Config, ContractError>)
    ensures
        r is Err <==> update_config_error(config, info.sender, owner) is Some,
        r matches Err(e) ==> update_config_error(config, info.sender, owner) == Some(e),
        r matches Ok(c) ==> c == (Config {
            owner: match owner { Some(o) => o->Ok_0, None => config.owner },
            pool_code_id: match pool_code_id { Some(id) => id, None => config.pool_code_id },
        }),
{
    if !(info.sender == config.owner) {
        return Err(ContractError::Unauthorized);
    }
    let mut config = config;
    match owner {
        Some(Ok(new_owner)) => {
            config.owner = new_owner;
        },
        Some(Err(reason)) => {
            return Err(ContractError::InvalidAddress { reason });
        },
        None => {},
    }
    match pool_code_id {
        Some(id) => {
            config.pool_code_id = id;
        },
        None => {},
    }
    Ok(config)
}

/// The instantiation of a pool that the factory asks the chain for.
#[derive(Clone, Debug, PartialEq, Eq)]
pub struct PoolInstantiation {
    pub code_id: u64,
    /// The pool contract's admin.
    pub admin: String,
    pub label: String,
    pub msg: PoolInstantiateMsg,
}

/// Why creating a pool is refused, checked in this order.
pub open spec fn create_pool_error(config: Config, sender: String, staked_token_check: Result<(), String>) -> Option<ContractError> {
    if sender@ != config.owner@ {
        Some(ContractError::Unauthorized)
    } else if staked_token_check is Err {
        Some(ContractError::InvalidAddress { reason: staked_token_check->Err_0 })
    } else {
        None
    }
}

/// Lets the owner create a pool for a staked token whose address the chain
/// accepts (`staked_token_check` is the chain's verdict on it); the owner
/// becomes the pool's owner and the factory its admin.
pub fn execute_create_pool(
    config: &Config,
    env: &Env,
    info: &MessageInfo,
    staked_token: String,
    staked_token_check: Result<(), String>,
    reward_token: TokenInfo,
    start_time: u64,
    end_time: u64,
    pool_limit_per_user: Option<u128>,
    whitelist: Vec<String>,
) -> (r: Result<PoolInstantiation, ContractError>)
    ensures
        r is Err <==> create_pool_error(*config, info.sender, staked_token_check) is Some,
        r matches Err(e) ==> create_pool_error(*config, info.sender, staked_token_check) == Some(e),
        r matches Ok(inst) ==> {
            &&& inst.code_id == config.pool_code_id
            &&& inst.admin == env.contract_address
            &&& inst.label@ == "pair"@
            &&& inst.msg == (PoolInstantiateMsg {
                staked_token,
                reward_token,
                start_time,
                end_time,
                pool_limit_per_user,
                pool_owner: info.sender,
                whitelist,
            })
        },
{
    if !(info.sender == config.owner) {
        return Err(ContractError::Unauthorized);
    }
    match staked_token_check {
        Ok(()) => {},
        Err(reason) => {
            return Err(ContractError::InvalidAddress { reason });
        },
    }
    Ok(PoolInstantiation {
        code_id: config.pool_code_id,
        admin: env.contract_address.clone(),
        label: "pair".to_owned(),
        msg: PoolInstantiateMsg {
            staked_token,
            reward_token,
            start_time,
            end_time,
            pool_limit_per_user,
            pool_owner: info.sender.clone(),
            whitelist,
        },
    })
}

/// Registers a newly created pool: it gets the next id, which is also the
/// new number of pools, and the factory records it.
pub fn reply(number_of_pools: u64, pool_infos: &PoolInfos) -> (r: (u64, FactoryPoolInfo))
    requires
        number_of_pools < u64::MAX,
        pool_infos.current_phase_index < pool_infos.pool_infos.len(),
    ensures
        r.0 == number_of_pools + 1,
        r.1 == recorded_pool(*pool_infos),
{
    (number_of_pools + 1, FactoryPoolInfo::from(pool_infos))
}

/// The factory's configuration.
pub fn query_config(config: &Config) -> (r: ConfigResponse)
    ensures
        r == (ConfigResponse { owner: config.owner, pool_code_id: config.pool_code_id }),
{
    ConfigResponse { owner: config.owner.clone(), pool_code_id: config.pool_code_id }
}

/// The ids of the pools a page lists, in order: those after `start_after`
/// (0 by default), at most `limit` (30 by default), among the
/// `number_of_pools` pools numbered from 1.
pub fn query_pools(start_after: Option<u64>, limit: Option<u32>, number_of_pools: u64) -> (r: Vec<u64>)
    ensures
        r@ == page_ids(
            match start_after { Some(s) => s, None => 0 },
            match limit { Some(l) => l as nat, None => 30 },
            number_of_pools,
        ),
{
    page_of_ids(start_after, limit, number_of_pools)
}

} // verus!

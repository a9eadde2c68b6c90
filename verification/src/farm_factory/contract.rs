//! The farm factory's handlers and queries.

use vstd::prelude::*;
use crate::common::{page_ids, page_of_ids, Env, MessageInfo};
use crate::farm::msg::InstantiateMsg as FarmInstantiateMsg;
use crate::farm::state::{FarmInfo, TokenInfo};
use crate::farm_factory::error::ContractError;
use crate::farm_factory::msg::InstantiateMsg;
use crate::farm_factory::state::{Config, ConfigResponse, FactoryFarmInfo};

verus! {

/// The factory a creation message describes, owned by its sender, with no
/// farms yet. Returns the configuration and the number of farms.
pub fn instantiate(info: &MessageInfo, msg: InstantiateMsg) -> (r: (Config, u64))
    ensures
        r.0 == (Config { owner: info.sender, farm_code_id: msg.farm_code_id }),
        r.1 == 0,
{
    (Config { owner: info.sender.clone(), farm_code_id: msg.farm_code_id }, 0)
}

/// Why a configuration update is refused, checked in this order.
pub open spec fn update_config_error(config: Config, sender: String, owner: Option<Result<String, String>>) -> Option<ContractError> {
    if sender@ != config.owner@ {
        Some(ContractError::Unauthorized)
    } else if owner is Some && owner->0 is Err {
        Some(ContractError::InvalidAddress { reason: owner->0->Err_0 })
    } else {
        None
    }
}

/// Lets the owner hand the factory to a new owner and change the farm code.
/// `owner` is the new owner as validated by the chain, when one is given; a
/// value that is not given stays as it was.
pub fn execute_update_config(
    config: Config,
    info: &MessageInfo,
    owner: Option<Result<String, String>>,
    farm_code_id: Option<u64>,
) -> (r: Result<Config, ContractError>)
    ensures
        r is Err <==> update_config_error(config, info.sender, owner) is Some,
        r matches Err(e) ==> update_config_error(config, info.sender, owner) == Some(e),
        r matches Ok(c) ==> c == (Config {
            owner: match owner { Some(o) => o->Ok_0, None => config.owner },
            farm_code_id: match farm_code_id { Some(id) => id, None => config.farm_code_id },
        }),
{
    if !(info.sender == config.owner) {
        return Err(ContractError::Unauthorized);
    }
    let mut config = config;
    match owner {
        Some(Ok(new_owner)) => {
            config.owner = new_owner;
        },
        Some(Err(reason)) => {
            return Err(ContractError::InvalidAddress { reason });
        },
        None => {},
    }
    match farm_code_id {
        Some(id) => {
            config.farm_code_id = id;
        },
        None => {},
    }
    Ok(config)
}

/// The instantiation of a farm that the factory asks the chain for.
#[derive(Clone, Debug, PartialEq, Eq)]
pub struct FarmInstantiation {
    pub code_id: u64,
    /// The farm contract's admin.
    pub admin: String,
    pub label: String,
    pub msg: FarmInstantiateMsg,
}

/// Why creating a farm is refused, checked in this order.
pub open spec fn create_farm_error(config: Config, sender: String, now: u64, start_time: u64, end_time: u64) -> Option<ContractError> {
    if sender@ != config.owner@ {
        Some(ContractError::Unauthorized)
    } else if start_time >= end_time {
        Some(ContractError::StartNotBeforeEnd)
    } else if now > start_time {
        Some(ContractError::CurrentTimeAfterStart)
    } else {
        None
    }
}

/// Lets the owner create a farm whose first phase starts before it ends and
/// has not started yet; the owner becomes the farm's owner and admin.
pub fn execute_create_farm(
    config: &Config,
    env: &Env,
    info: &MessageInfo,
    staked_token: String,
    reward_token: TokenInfo,
    start_time: u64,
    end_time: u64,
    phases_limit_per_user: Option<u128>,
    whitelist: String,
) -> (r: Result<FarmInstantiation, ContractError>)
    ensures
        r is Err <==> create_farm_error(*config, info.sender, env.block_time, start_time, end_time) is Some,
        r matches Err(e) ==> create_farm_error(*config, info.sender, env.block_time, start_time, end_time) == Some(e),
        r matches Ok(inst) ==> {
            &&& inst.code_id == config.farm_code_id
            &&& inst.admin == config.owner
            &&& inst.label@ == "farm"@
            &&& inst.msg == (FarmInstantiateMsg {
                staked_token,
                reward_token,
                start_time,
                end_time,
                phases_limit_per_user,
                farm_owner: info.sender,
                whitelist,
            })
        },
{
    if !(info.sender == config.owner) {
        return Err(ContractError::Unauthorized);
    }
    if start_time >= end_time {
        return Err(ContractError::StartNotBeforeEnd);
    }
    if env.block_time > start_time {
        return Err(ContractError::CurrentTimeAfterStart);
    }
    Ok(FarmInstantiation {
        code_id: config.farm_code_id,
        admin: config.owner.clone(),
        label: "farm".to_owned(),
        msg: FarmInstantiateMsg {
            staked_token,
            reward_token,
            start_time,
            end_time,
            phases_limit_per_user,
            farm_owner: info.sender.clone(),
            whitelist,
        },
    })
}

/// What the factory records about a farm it created, from the farm's state:
/// its tokens, limit, and the times of its current phase.
pub open spec fn recorded_farm(f: FarmInfo) -> FactoryFarmInfo {
    let p = f.phases_info@[f.current_phase_index as int];
    FactoryFarmInfo {
        staked_token: f.staked_token,
        reward_token: f.reward_token,
        start_time: p.start_time,
        end_time: p.end_time,
        phases_limit_per_user: f.phases_limit_per_user,
    }
}

/// Registers a newly created farm: it gets the next id, which is also the
/// new number of farms, and the factory records it.
pub fn reply(number_of_farms: u64, farm_info: &FarmInfo) -> (r: (u64, FactoryFarmInfo))
    requires
        number_of_farms < u64::MAX,
        farm_info.current_phase_index < farm_info.phases_info.len(),
    ensures
        r.0 == number_of_farms + 1,
        r.1 == recorded_farm(*farm_info),
{
    let farm_key = number_of_farms + 1;
    let cur = farm_info.current_phase_index as usize;
    let info = FactoryFarmInfo {
        staked_token: farm_info.staked_token.clone(),
        reward_token: farm_info.reward_token.clone(),
        start_time: farm_info.phases_info[cur].start_time,
        end_time: farm_info.phases_info[cur].end_time,
        phases_limit_per_user: farm_info.phases_limit_per_user,
    };
    (farm_key, info)
}

/// The factory's configuration.
pub fn query_config(config: &Config) -> (r: ConfigResponse)
    ensures
        r == (ConfigResponse { owner: config.owner, farm_code_id: config.farm_code_id }),
{
    ConfigResponse { owner: config.owner.clone(), farm_code_id: config.farm_code_id }
}

/// The ids of the farms a page lists, in order: those after `start_after`
/// (0 by default), at most `limit` (30 by default), among the
/// `number_of_farms` farms numbered from 1.
pub fn query_farms(start_after: Option<u64>, limit: Option<u32>, number_of_farms: u64) -> (r: Vec<u64>)
    ensures
        r@ == page_ids(
            match start_after { Some(s) => s, None => 0 },
            match limit { Some(l) => l as nat, None => 30 },
            number_of_farms,
        ),
{
    page_of_ids(start_after, limit, number_of_farms)
}

} // verus!

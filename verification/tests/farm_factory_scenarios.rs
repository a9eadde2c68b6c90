use halo_contracts::common::{Env, MessageInfo};
use halo_contracts::farm::contract::instantiate as instantiate_farm;
use halo_contracts::farm::execute::{execute_activate_phase, execute_add_phase, execute_remove_phase};
use halo_contracts::farm::state::{Config as FarmConfig, FarmInfo, TokenInfo};
use halo_contracts::farm_factory::contract::{
    execute_create_farm, execute_update_config, instantiate, query_config, query_farms, reply,
};
use halo_contracts::farm_factory::error::ContractError;
use halo_contracts::farm_factory::msg::InstantiateMsg;
use halo_contracts::farm_factory::state::{Config, ConfigResponse, FactoryFarmInfo};

const ADMIN: &str = "aura1uh24g2lc8hvvkaaf7awz25lrh5fptthu2dhq0n";
const USER_1: &str = "aura1fqj2redmssckrdeekhkcvd2kzp9f4nks4fctrt";
const NATIVE_DENOM_2: &str = "utaura";
const LP_TOKEN: &str = "contract1";
const FACTORY: &str = "contract0";
const GENESIS_TIME: u64 = 1571797419;

fn env(time: u64, contract: &str) -> Env {
    Env { block_time: time, contract_address: contract.to_string() }
}

fn info(sender: &str) -> MessageInfo {
    MessageInfo { sender: sender.to_string(), funds: vec![] }
}

fn factory() -> Config {
    let (config, count) = instantiate(&info(ADMIN), InstantiateMsg { farm_code_id: 3 });
    assert_eq!(count, 0);
    config
}

fn native() -> TokenInfo {
    TokenInfo::NativeToken { denom: NATIVE_DENOM_2.to_string() }
}

fn create(config: &Config, sender: &str, time: u64, start: u64, end: u64) -> Result<(FarmConfig, FarmInfo), String> {
    match execute_create_farm(
        config,
        &env(time, FACTORY),
        &info(sender),
        LP_TOKEN.to_string(),
        native(),
        start,
        end,
        None,
        USER_1.to_string(),
    ) {
        Ok(inst) => {
            assert_eq!(inst.code_id, 3);
            assert_eq!(inst.admin, ADMIN.to_string());
            assert_eq!(inst.label, "farm".to_string());
            Ok(instantiate_farm(inst.msg))
        }
        Err(ContractError::Unauthorized) => Err("Unauthorized".to_string()),
        Err(e) => Err(format!("Generic error: {}", e.message())),
    }
}

#[test]
fn farm_factory_create_farm() {
    let config = factory();
    let current_block_time = GENESIS_TIME;

    assert_eq!(
        create(&config, USER_1, current_block_time, current_block_time, current_block_time + 100).unwrap_err(),
        "Unauthorized"
    );
    assert_eq!(
        create(&config, ADMIN, current_block_time, current_block_time + 100, current_block_time).unwrap_err(),
        "Generic error: Start time is greater than end time"
    );
    assert_eq!(
        create(&config, ADMIN, current_block_time, current_block_time - 1, current_block_time + 200).unwrap_err(),
        "Generic error: Current time is greater than start time"
    );

    let (farm_config, farm) = create(&config, ADMIN, current_block_time, current_block_time, current_block_time + 200).unwrap();
    assert_eq!(farm_config.farm_owner, ADMIN.to_string());

    let err = execute_remove_phase(farm.clone(), &farm_config, &env(current_block_time, "contract3"), &info(ADMIN), 0).unwrap_err();
    assert_eq!(format!("Generic error: {}", err.message()), "Generic error: Can not remove activated phase");

    let farm = execute_add_phase(
        farm,
        &farm_config,
        &env(current_block_time, "contract3"),
        &info(ADMIN),
        current_block_time + 200,
        current_block_time + 400,
        USER_1.to_string(),
    )
    .unwrap();

    let err = execute_remove_phase(farm.clone(), &farm_config, &env(current_block_time, "contract3"), &info(USER_1), 1).unwrap_err();
    assert_eq!(
        format!("Generic error: {}", err.message()),
        "Generic error: Unauthorized: Only owner can remove phase"
    );
    // a phase that has started can no longer be removed
    let started = env(current_block_time + 201, "contract3");
    let err = execute_remove_phase(farm.clone(), &farm_config, &started, &info(ADMIN), 1).unwrap_err();
    assert_eq!(
        format!("Generic error: {}", err.message()),
        "Generic error: Current time is greater than start time of the phase"
    );
    let at_start = env(current_block_time + 200, "contract3");
    let (removed, transfers) = execute_remove_phase(farm.clone(), &farm_config, &at_start, &info(ADMIN), 1).unwrap();
    assert_eq!(removed.phases_info.len(), 1);
    assert!(transfers.is_empty());

    let later = env(current_block_time + 200, "contract3");
    let err = execute_activate_phase(farm.clone(), &farm_config, &later, &info(ADMIN)).unwrap_err();
    assert_eq!(format!("Generic error: {}", err.message()), "Generic error: Empty phase");

    let err = execute_activate_phase(farm, &farm_config, &later, &info(USER_1)).unwrap_err();
    assert_eq!(
        format!("Generic error: {}", err.message()),
        "Generic error: Unauthorized: Only owner can active new phase"
    );
}

#[test]
fn farm_factory_registers_and_lists_farms() {
    let config = factory();
    let (_, farm) = create(&config, ADMIN, GENESIS_TIME, GENESIS_TIME + 10, GENESIS_TIME + 110).unwrap();
    let mut registry: Vec<FactoryFarmInfo> = Vec::new();
    let mut count = 0u64;
    for _ in 0..35 {
        let (id, record) = reply(count, &farm);
        assert_eq!(id, count + 1);
        registry.push(record);
        count = id;
    }
    assert_eq!(
        registry[0],
        FactoryFarmInfo {
            staked_token: LP_TOKEN.to_string(),
            reward_token: native(),
            start_time: GENESIS_TIME + 10,
            end_time: GENESIS_TIME + 110,
            phases_limit_per_user: None,
        }
    );
    // the default page holds the first 30 farms
    assert_eq!(query_farms(None, None, count), (1..=30).collect::<Vec<u64>>());
    assert_eq!(query_farms(Some(30), None, count), (31..=35).collect::<Vec<u64>>());
    assert_eq!(query_farms(Some(2), Some(3), count), vec![3, 4, 5]);
    assert_eq!(query_farms(Some(35), Some(3), count), Vec::<u64>::new());
    assert_eq!(query_farms(Some(40), None, count), Vec::<u64>::new());
    // consecutive pages add up to one longer page
    let mut joined = query_farms(Some(4), Some(7), count);
    joined.extend(query_farms(Some(11), Some(9), count));
    assert_eq!(joined, query_farms(Some(4), Some(16), count));
    assert_eq!(joined, (5..=20).collect::<Vec<u64>>());
    // a newly registered farm is listed right after the previous count
    let (id, _) = reply(count, &farm);
    assert_eq!(query_farms(Some(count), Some(1), id), vec![36]);
}

#[test]
fn farm_factory_update_config() {
    let config = factory();
    assert_eq!(
        execute_update_config(config.clone(), &info(USER_1), Some(Ok(USER_1.to_string())), Some(7)),
        Err(ContractError::Unauthorized)
    );
    assert_eq!(
        execute_update_config(config.clone(), &info(ADMIN), Some(Err("Invalid input: human address too short".to_string())), Some(7)),
        Err(ContractError::InvalidAddress { reason: "Invalid input: human address too short".to_string() })
    );
    // a value that is not given stays as it was
    let code_only = execute_update_config(config.clone(), &info(ADMIN), None, Some(2)).unwrap();
    assert_eq!(query_config(&code_only), ConfigResponse { owner: ADMIN.to_string(), farm_code_id: 2 });
    let owner_only = execute_update_config(config.clone(), &info(ADMIN), Some(Ok(USER_1.to_string())), None).unwrap();
    assert_eq!(owner_only.owner, USER_1.to_string());
    assert_eq!(owner_only.farm_code_id, config.farm_code_id);
    let updated = execute_update_config(config, &info(ADMIN), Some(Ok(USER_1.to_string())), Some(7)).unwrap();
    assert_eq!(query_config(&updated), ConfigResponse { owner: USER_1.to_string(), farm_code_id: 7 });
}

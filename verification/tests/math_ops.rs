use halo_contracts::common::{Coin, Env, MessageInfo};
use halo_contracts::farm::contract::instantiate;
use halo_contracts::farm::execute::execute_add_reward_balance;
use halo_contracts::farm::msg::InstantiateMsg;
use halo_contracts::farm::state::TokenInfo;
use halo_contracts::math::{mul_decimal, Decimal};

const ONE: u128 = 1_000_000_000_000_000_000;

#[test]
fn decimal_division_rounds_down() {
    // 1 / 3
    assert_eq!(Decimal::new(ONE).divide(Decimal::new(3 * ONE)), Decimal::raw(333_333_333_333_333_333));
    // 10 atomics over 4 atomics is 2.5
    assert_eq!(Decimal::raw(10).divide(Decimal::raw(4)), Decimal::raw(2 * ONE + ONE / 2));
    let ours = Decimal::raw(7 * ONE).divide(Decimal::raw(9 * ONE));
    let theirs = cosmwasm_std::Decimal::raw(7 * ONE) / cosmwasm_std::Decimal::raw(9 * ONE);
    assert_eq!(ours.atomics(), theirs.atomics().u128());
}

#[test]
fn decimal_product_rounds_down() {
    assert_eq!(Decimal::raw(3 * ONE / 2).multiply(Decimal::raw(5 * ONE)), Decimal::raw(7 * ONE + ONE / 2));
    assert_eq!(Decimal::raw(10).multiply(Decimal::raw(10_000_000 * ONE)), Decimal::raw(100_000_000));
    assert_eq!(Decimal::raw(1).multiply(Decimal::raw(1)), Decimal::zero());
}

#[test]
fn decimal_from_ratio_rounds_down() {
    assert_eq!(Decimal::from_ratio(1_000_000_000, 100), Decimal::raw(10_000_000 * ONE));
    assert_eq!(Decimal::from_ratio(2, 3), Decimal::raw(666_666_666_666_666_666));
    assert_eq!(Decimal::from_ratio(2, 3).floor(), Decimal::zero());
    assert_eq!(Decimal::from_ratio(7, 2).floor(), Decimal::raw(3 * ONE));
}

#[test]
fn amount_times_decimal_rounds_down() {
    assert_eq!(mul_decimal(1_000, Decimal::raw(ONE / 3)), 333);
    assert_eq!(mul_decimal(150_000_000, Decimal::raw(66_666_666_666_666_666_666_666)), 9_999_999_999_999);
    assert_eq!(mul_decimal(0, Decimal::raw(5 * ONE)), 0);
}

#[test]
fn native_reward_must_come_with_the_coins() {
    let (_, farm) = instantiate(InstantiateMsg {
        staked_token: "lp".to_string(),
        reward_token: TokenInfo::NativeToken { denom: "uaura".to_string() },
        start_time: 100,
        end_time: 200,
        phases_limit_per_user: None,
        farm_owner: "owner".to_string(),
        whitelist: "owner".to_string(),
    });
    let env = Env { block_time: 50, contract_address: "farm".to_string() };
    let short = MessageInfo {
        sender: "owner".to_string(),
        funds: vec![Coin { denom: "uaura".to_string(), amount: 999 }],
    };
    let err = execute_add_reward_balance(farm.clone(), &env, &short, 0, 1_000).unwrap_err();
    assert_eq!(err.message(), "Native token balance mismatch between the argument and the transferred");
    let other_denom = MessageInfo {
        sender: "owner".to_string(),
        funds: vec![Coin { denom: "uatom".to_string(), amount: 5_000 }],
    };
    assert!(execute_add_reward_balance(farm.clone(), &env, &other_denom, 0, 1_000).is_err());
    let enough = MessageInfo {
        sender: "owner".to_string(),
        funds: vec![Coin { denom: "uatom".to_string(), amount: 5 }, Coin { denom: "uaura".to_string(), amount: 1_000 }],
    };
    let (funded, transfers) = execute_add_reward_balance(farm, &env, &enough, 0, 1_000).unwrap();
    assert_eq!(funded.phases_info[0].reward_balance, 1_000);
    assert!(transfers.is_empty());
}

use std::collections::BTreeMap;

use halo_contracts::common::{Coin, Env, MessageInfo, TransferMsg};
use halo_contracts::farm::contract::instantiate;
use halo_contracts::farm::execute::{
    execute_activate_phase, execute_add_phase, execute_add_reward_balance, execute_deposit,
    execute_harvest, execute_remove_phase, execute_withdraw, StakeOutcome,
};
use halo_contracts::farm::msg::InstantiateMsg;
use halo_contracts::farm::query::{query_pending_reward, query_staker_info, query_total_lp_token_staked};
use halo_contracts::farm::state::{Config, FarmInfo, PendingRewardResponse, PhaseInfo, TokenInfo};
use halo_contracts::math::Decimal;

const ADMIN: &str = "aura1uh24g2lc8hvvkaaf7awz25lrh5fptthu2dhq0n";
const USER_1: &str = "aura1fqj2redmssckrdeekhkcvd2kzp9f4nks4fctrt";
const NATIVE_DENOM_2: &str = "utaura";
const LP_TOKEN: &str = "contract0";
const REWARD_TOKEN: &str = "contract1";
const FARM: &str = "contract2";
const GENESIS_TIME: u64 = 1571797419;

const MOCK_1000_HALO_LP_TOKEN_AMOUNT: u128 = 1_000_000_000;
const MOCK_150_HALO_LP_TOKEN_AMOUNT: u128 = 150_000_000;
const INIT_1000_000_NATIVE_BALANCE_2: u128 = 1_000_000_000_000u128;
const ADD_1000_NATIVE_BALANCE_2: u128 = 1_000_000_000u128;

/// A farm with its owner, its stakers, and the token balances around it.
struct Chain {
    time: u64,
    config: Config,
    farm: FarmInfo,
    stakers: BTreeMap<String, halo_contracts::farm::state::StakerInfo>,
    native: BTreeMap<String, u128>,
    lp: BTreeMap<String, u128>,
    reward_cw20: BTreeMap<String, u128>,
}

fn credit(book: &mut BTreeMap<String, u128>, who: &str, amount: u128) {
    *book.entry(who.to_string()).or_insert(0) += amount;
}

fn debit(book: &mut BTreeMap<String, u128>, who: &str, amount: u128) {
    let entry = book.entry(who.to_string()).or_insert(0);
    assert!(*entry >= amount, "insufficient balance of {}", who);
    *entry -= amount;
}

impl Chain {
    fn new(start_offset: u64, duration: u64, reward_token: TokenInfo) -> Chain {
        let msg = InstantiateMsg {
            staked_token: LP_TOKEN.to_string(),
            reward_token,
            start_time: GENESIS_TIME + start_offset,
            end_time: GENESIS_TIME + start_offset + duration,
            phases_limit_per_user: None,
            farm_owner: ADMIN.to_string(),
            whitelist: ADMIN.to_string(),
        };
        let (config, farm) = instantiate(msg);
        let mut native = BTreeMap::new();
        native.insert(ADMIN.to_string(), INIT_1000_000_NATIVE_BALANCE_2);
        Chain {
            time: GENESIS_TIME,
            config,
            farm,
            stakers: BTreeMap::new(),
            native,
            lp: BTreeMap::new(),
            reward_cw20: BTreeMap::new(),
        }
    }

    fn env(&self) -> Env {
        Env { block_time: self.time, contract_address: FARM.to_string() }
    }

    fn info(sender: &str, funds: Vec<Coin>) -> MessageInfo {
        MessageInfo { sender: sender.to_string(), funds }
    }

    fn advance(&mut self, seconds: u64) {
        self.time += seconds;
    }

    fn mint_lp(&mut self, to: &str, amount: u128) {
        credit(&mut self.lp, to, amount);
    }

    fn book(&mut self, contract_addr: &str) -> &mut BTreeMap<String, u128> {
        if contract_addr == LP_TOKEN {
            &mut self.lp
        } else {
            assert_eq!(contract_addr, REWARD_TOKEN);
            &mut self.reward_cw20
        }
    }

    fn apply(&mut self, messages: &[TransferMsg]) {
        for m in messages {
            match m {
                TransferMsg::Cw20Transfer { contract_addr, recipient, amount } => {
                    let book = self.book(contract_addr);
                    debit(book, FARM, *amount);
                    credit(book, recipient, *amount);
                }
                TransferMsg::Cw20TransferFrom { contract_addr, owner, recipient, amount } => {
                    let book = self.book(contract_addr);
                    debit(book, owner, *amount);
                    credit(book, recipient, *amount);
                }
                TransferMsg::BankSend { to_address, denom, amount } => {
                    assert_eq!(denom, NATIVE_DENOM_2);
                    debit(&mut self.native, FARM, *amount);
                    credit(&mut self.native, to_address, *amount);
                }
            }
        }
    }

    fn apply_stake(&mut self, sender: &str, out: StakeOutcome) {
        self.farm = out.farm_info;
        match out.staker_info {
            Some(s) => {
                self.stakers.insert(sender.to_string(), s);
            }
            None => {
                self.stakers.remove(sender);
            }
        }
        self.apply(&out.messages);
    }

    fn add_reward_balance(&mut self, sender: &str, phase_index: u64, amount: u128) -> Result<(), String> {
        let native_reward = matches!(self.farm.reward_token, TokenInfo::NativeToken { .. });
        let funds = if native_reward {
            vec![Coin { denom: NATIVE_DENOM_2.to_string(), amount }]
        } else {
            vec![]
        };
        let info = Chain::info(sender, funds);
        match execute_add_reward_balance(self.farm.clone(), &self.env(), &info, phase_index, amount) {
            Ok((farm, messages)) => {
                if native_reward {
                    debit(&mut self.native, sender, amount);
                    credit(&mut self.native, FARM, amount);
                }
                self.farm = farm;
                self.apply(&messages);
                Ok(())
            }
            Err(e) => Err(format!("Generic error: {}", e.message())),
        }
    }

    fn deposit(&mut self, sender: &str, amount: u128) -> Result<(), String> {
        let staker = self.stakers.get(sender).cloned();
        match execute_deposit(self.farm.clone(), staker, &self.env(), &Chain::info(sender, vec![]), amount) {
            Ok(out) => {
                self.apply_stake(sender, out);
                Ok(())
            }
            Err(e) => Err(format!("Generic error: {}", e.message())),
        }
    }

    fn withdraw(&mut self, sender: &str, amount: u128) -> Result<(), String> {
        let staker = self.stakers.get(sender).cloned();
        match execute_withdraw(self.farm.clone(), staker, &self.env(), &Chain::info(sender, vec![]), amount) {
            Ok(out) => {
                self.apply_stake(sender, out);
                Ok(())
            }
            Err(e) => Err(format!("Generic error: {}", e.message())),
        }
    }

    fn harvest(&mut self, sender: &str) -> Result<(), String> {
        let staker = self.stakers.get(sender).cloned();
        match execute_harvest(self.farm.clone(), staker, &self.env(), &Chain::info(sender, vec![])) {
            Ok(out) => {
                self.apply_stake(sender, out);
                Ok(())
            }
            Err(e) => Err(format!("Generic error: {}", e.message())),
        }
    }

    fn add_phase(&mut self, sender: &str, start: u64, end: u64) -> Result<(), String> {
        let info = Chain::info(sender, vec![]);
        match execute_add_phase(self.farm.clone(), &self.config, &self.env(), &info, start, end, ADMIN.to_string()) {
            Ok(farm) => {
                self.farm = farm;
                Ok(())
            }
            Err(e) => Err(format!("Generic error: {}", e.message())),
        }
    }

    fn activate_phase(&mut self, sender: &str) -> Result<(), String> {
        let info = Chain::info(sender, vec![]);
        match execute_activate_phase(self.farm.clone(), &self.config, &self.env(), &info) {
            Ok(farm) => {
                self.farm = farm;
                Ok(())
            }
            Err(e) => Err(format!("Generic error: {}", e.message())),
        }
    }

    fn remove_phase(&mut self, sender: &str, phase_index: u64) -> Result<(), String> {
        let info = Chain::info(sender, vec![]);
        match execute_remove_phase(self.farm.clone(), &self.config, &self.env(), &info, phase_index) {
            Ok((farm, messages)) => {
                self.farm = farm;
                self.apply(&messages);
                Ok(())
            }
            Err(e) => Err(format!("Generic error: {}", e.message())),
        }
    }

    fn pending(&self, address: &str) -> PendingRewardResponse {
        query_pending_reward(self.farm.clone(), self.stakers.get(address).cloned(), &self.env())
    }

    fn native_of(&self, who: &str) -> u128 {
        *self.native.get(who).unwrap_or(&0)
    }

    fn lp_of(&self, who: &str) -> u128 {
        *self.lp.get(who).unwrap_or(&0)
    }

    fn reward_of(&self, who: &str) -> u128 {
        *self.reward_cw20.get(who).unwrap_or(&0)
    }
}

fn native() -> TokenInfo {
    TokenInfo::NativeToken { denom: NATIVE_DENOM_2.to_string() }
}

fn pending_native(amount: u128, time_query: u64) -> PendingRewardResponse {
    PendingRewardResponse { info: native(), amount, time_query }
}

#[test]
fn proper_operation() {
    let mut chain = Chain::new(0, 100, native());
    assert_eq!(chain.native_of(ADMIN), INIT_1000_000_NATIVE_BALANCE_2);
    chain.mint_lp(ADMIN, MOCK_1000_HALO_LP_TOKEN_AMOUNT);
    assert_eq!(chain.lp_of(ADMIN), MOCK_1000_HALO_LP_TOKEN_AMOUNT);
    let current_block_time = chain.time;

    assert!(chain.add_reward_balance(ADMIN, 0, ADD_1000_NATIVE_BALANCE_2).is_ok());
    assert_eq!(
        chain.farm,
        FarmInfo {
            staked_token: LP_TOKEN.to_string(),
            reward_token: native(),
            current_phase_index: 0,
            phases_info: vec![PhaseInfo {
                start_time: current_block_time,
                end_time: current_block_time + 100,
                whitelist: ADMIN.to_string(),
                reward_balance: ADD_1000_NATIVE_BALANCE_2,
                last_reward_time: current_block_time,
                accrued_token_per_share: Decimal::zero(),
            }],
            phases_limit_per_user: None,
            staked_token_balance: 0,
        }
    );

    chain.advance(1);
    assert!(chain.deposit(ADMIN, MOCK_1000_HALO_LP_TOKEN_AMOUNT).is_ok());
    assert_eq!(chain.lp_of(ADMIN), 0);
    assert_eq!(chain.lp_of(FARM), MOCK_1000_HALO_LP_TOKEN_AMOUNT);

    chain.advance(6);
    let pending_reward = chain.pending(ADMIN);
    assert_eq!(pending_reward, pending_native(60_000_000u128, chain.time));

    assert!(chain.harvest(ADMIN).is_ok());
    assert_eq!(
        chain.native_of(ADMIN),
        INIT_1000_000_NATIVE_BALANCE_2 - ADD_1000_NATIVE_BALANCE_2 + pending_reward.amount
    );

    chain.advance(2);
    let pending_reward = chain.pending(ADMIN);
    assert_eq!(pending_reward, pending_native(20_000_000u128, 1571797428));

    assert!(chain.withdraw(ADMIN, MOCK_1000_HALO_LP_TOKEN_AMOUNT).is_ok());
    assert_eq!(chain.lp_of(ADMIN), MOCK_1000_HALO_LP_TOKEN_AMOUNT);
    assert_eq!(
        chain.native_of(ADMIN),
        INIT_1000_000_NATIVE_BALANCE_2 - ADD_1000_NATIVE_BALANCE_2 + 60000000u128 + pending_reward.amount
    );
}

#[test]
fn integration_test_proper_operation_with_multiple_users() {
    let mut chain = Chain::new(0, 100, native());
    chain.mint_lp(ADMIN, MOCK_1000_HALO_LP_TOKEN_AMOUNT);
    chain.mint_lp(USER_1, MOCK_1000_HALO_LP_TOKEN_AMOUNT / 2);
    let current_block_time = chain.time;

    assert!(chain.add_reward_balance(ADMIN, 0, ADD_1000_NATIVE_BALANCE_2).is_ok());
    let farm_info = chain.farm.clone();
    assert_eq!(
        farm_info,
        FarmInfo {
            staked_token: LP_TOKEN.to_string(),
            reward_token: native(),
            current_phase_index: 0,
            phases_info: vec![PhaseInfo {
                start_time: current_block_time,
                end_time: current_block_time + 100,
                whitelist: ADMIN.to_string(),
                reward_balance: ADD_1000_NATIVE_BALANCE_2,
                last_reward_time: current_block_time,
                accrued_token_per_share: Decimal::zero(),
            }],
            phases_limit_per_user: None,
            staked_token_balance: 0,
        }
    );

    assert!(chain.deposit(ADMIN, MOCK_1000_HALO_LP_TOKEN_AMOUNT).is_ok());
    assert!(chain.deposit(USER_1, MOCK_1000_HALO_LP_TOKEN_AMOUNT / 2).is_ok());

    chain.advance(2);
    let admin_2s = chain.pending(ADMIN);
    assert_eq!(admin_2s, pending_native(13_333_333u128, 1571797421));
    let user1_2s = chain.pending(USER_1);
    assert_eq!(user1_2s, pending_native(6_666_666u128, 1571797421));

    assert!(chain.harvest(ADMIN).is_ok());
    assert_eq!(
        chain.native_of(ADMIN),
        INIT_1000_000_NATIVE_BALANCE_2 - ADD_1000_NATIVE_BALANCE_2 + admin_2s.amount
    );
    assert!(chain.harvest(USER_1).is_ok());
    assert_eq!(chain.native_of(USER_1), user1_2s.amount);

    chain.advance(4);
    let admin_6s = chain.pending(ADMIN);
    assert_eq!(admin_6s, pending_native(26_666_666u128, 1571797425));
    assert!(chain.withdraw(ADMIN, MOCK_1000_HALO_LP_TOKEN_AMOUNT / 2).is_ok());
    assert_eq!(chain.lp_of(ADMIN), MOCK_1000_HALO_LP_TOKEN_AMOUNT / 2);
    assert_eq!(
        chain.native_of(ADMIN),
        INIT_1000_000_NATIVE_BALANCE_2 - ADD_1000_NATIVE_BALANCE_2 + admin_2s.amount + admin_6s.amount
    );

    chain.advance(2);
    let user1_8s = chain.pending(USER_1);
    assert_eq!(user1_8s, pending_native(23_333_333u128, 1571797427));
    assert!(chain.withdraw(USER_1, MOCK_1000_HALO_LP_TOKEN_AMOUNT / 2).is_ok());
    assert_eq!(chain.lp_of(USER_1), MOCK_1000_HALO_LP_TOKEN_AMOUNT / 2);
    assert_eq!(chain.native_of(USER_1), user1_2s.amount + user1_8s.amount);

    chain.advance(2);
    let admin_10s = chain.pending(ADMIN);
    assert_eq!(admin_10s, pending_native(30_000_000u128, 1571797429));
    assert!(chain.harvest(ADMIN).is_ok());
    assert_eq!(
        chain.native_of(ADMIN),
        INIT_1000_000_NATIVE_BALANCE_2 - ADD_1000_NATIVE_BALANCE_2
            + admin_2s.amount
            + admin_6s.amount
            + admin_10s.amount
    );

    chain.advance(2);
    let user1_10s = chain.pending(USER_1);
    assert_eq!(user1_10s, pending_native(0, 1571797431));
    assert_eq!(
        chain.harvest(USER_1).unwrap_err(),
        "Generic error: Unauthorized: Only staker can harvest reward".to_string()
    );

    chain.mint_lp(ADMIN, MOCK_1000_HALO_LP_TOKEN_AMOUNT / 2);
    chain.advance(2);
    let admin_14s = chain.pending(ADMIN);
    assert_eq!(admin_14s, pending_native(40_000_000u128, 1571797433));
    assert!(chain.deposit(ADMIN, MOCK_1000_HALO_LP_TOKEN_AMOUNT / 2).is_ok());
    assert_eq!(
        chain.native_of(ADMIN),
        INIT_1000_000_NATIVE_BALANCE_2 - ADD_1000_NATIVE_BALANCE_2
            + admin_2s.amount
            + admin_6s.amount
            + admin_10s.amount
            + admin_14s.amount
    );

    chain.advance(2);
    assert!(chain.deposit(USER_1, MOCK_150_HALO_LP_TOKEN_AMOUNT).is_ok());
    let admin_16s = chain.pending(ADMIN);
    assert_eq!(admin_16s, pending_native(20_000_000u128, 1571797435));

    chain.advance(2);
    let admin_18s = chain.pending(ADMIN);
    assert_eq!(admin_18s, pending_native(37_391_305u128, 1571797437));
    assert!(chain.harvest(ADMIN).is_ok());
    assert_eq!(999_147_391_304u128, chain.native_of(ADMIN));
    assert_eq!(
        chain.native_of(ADMIN),
        INIT_1000_000_NATIVE_BALANCE_2 - ADD_1000_NATIVE_BALANCE_2
            + admin_2s.amount
            + admin_6s.amount
            + admin_10s.amount
            + admin_14s.amount
            + admin_18s.amount
    );
    let user1_18s = chain.pending(USER_1);
    assert_eq!(user1_18s, pending_native(2_608_696u128, 1571797437));
    assert!(chain.harvest(USER_1).is_ok());
    assert_eq!(32_608_695u128, chain.native_of(USER_1));
    assert_eq!(chain.native_of(USER_1), user1_2s.amount + user1_8s.amount + user1_18s.amount);

    let end = farm_info.phases_info[farm_info.current_phase_index as usize].end_time;
    assert!(chain.add_phase(ADMIN, end + 10, end + 90).is_ok());

    chain.advance(82);
    assert_eq!(query_staker_info(chain.stakers.get(ADMIN).cloned()).amount, ADD_1000_NATIVE_BALANCE_2);
    let admin_100s = chain.pending(ADMIN);
    assert_eq!(admin_100s, pending_native(713_043_478u128, 1571797519));
    assert!(chain.harvest(ADMIN).is_ok());
    assert_eq!(999_860_434_782u128, chain.native_of(ADMIN));
    assert_eq!(
        chain.native_of(ADMIN),
        INIT_1000_000_NATIVE_BALANCE_2 - ADD_1000_NATIVE_BALANCE_2
            + admin_2s.amount
            + admin_6s.amount
            + admin_10s.amount
            + admin_14s.amount
            + admin_18s.amount
            + admin_100s.amount
    );
    let user1_100s = chain.pending(USER_1);
    assert_eq!(user1_100s, pending_native(106_956_522u128, 1571797519));
    assert_eq!(32_608_695u128, chain.native_of(USER_1));

    assert!(chain.add_reward_balance(ADMIN, 1, ADD_1000_NATIVE_BALANCE_2).is_ok());
    chain.advance(5);
    assert!(chain.activate_phase(ADMIN).is_ok());
    assert_eq!(
        chain.farm,
        FarmInfo {
            staked_token: LP_TOKEN.to_string(),
            reward_token: native(),
            current_phase_index: 1,
            phases_info: vec![
                PhaseInfo {
                    start_time: farm_info.phases_info[0].start_time,
                    end_time: end,
                    whitelist: ADMIN.to_string(),
                    reward_balance: ADD_1000_NATIVE_BALANCE_2,
                    last_reward_time: end,
                    accrued_token_per_share: Decimal::raw(930_434_782_608_695_650),
                },
                PhaseInfo {
                    start_time: end + 10,
                    end_time: end + 90,
                    whitelist: ADMIN.to_string(),
                    reward_balance: ADD_1000_NATIVE_BALANCE_2,
                    last_reward_time: end + 10,
                    accrued_token_per_share: Decimal::zero(),
                },
            ],
            phases_limit_per_user: None,
            staked_token_balance: MOCK_1000_HALO_LP_TOKEN_AMOUNT + MOCK_150_HALO_LP_TOKEN_AMOUNT,
        }
    );

    chain.advance(25);
    let admin_135s = chain.pending(ADMIN);
    assert_eq!(admin_135s, pending_native(217_391_304u128, 1571797549));
    assert!(chain.harvest(ADMIN).is_ok());
    assert_eq!(query_staker_info(chain.stakers.get(ADMIN).cloned()).amount, ADD_1000_NATIVE_BALANCE_2);
    let admin_before_150s = INIT_1000_000_NATIVE_BALANCE_2 - ADD_1000_NATIVE_BALANCE_2 - ADD_1000_NATIVE_BALANCE_2
        + admin_2s.amount
        + admin_6s.amount
        + admin_10s.amount
        + admin_14s.amount
        + admin_18s.amount
        + admin_100s.amount
        + admin_135s.amount;
    assert_eq!(chain.native_of(ADMIN), admin_before_150s);
    assert_eq!(chain.native_of(ADMIN), 999_077_826_086u128);
    let user1_135s = chain.pending(USER_1);
    assert_eq!(user1_135s, pending_native(139_565_217u128, 1571797549));
    assert!(chain.harvest(USER_1).is_ok());
    assert_eq!(
        chain.native_of(USER_1),
        user1_2s.amount + user1_8s.amount + user1_18s.amount + user1_135s.amount
    );
    assert_eq!(chain.native_of(USER_1), 172_173_912u128);

    chain.advance(15);
    let admin_150s = chain.pending(ADMIN);
    assert_eq!(admin_150s, pending_native(163_043_478u128, 1571797564));
    assert!(chain.harvest(ADMIN).is_ok());
    assert_eq!(chain.native_of(ADMIN), admin_before_150s + admin_150s.amount);
    assert_eq!(chain.native_of(ADMIN), 999_240_869_564u128);
    let user1_150s = chain.pending(USER_1);
    assert_eq!(user1_150s, pending_native(24_456_522u128, 1571797564));
    assert!(chain.harvest(USER_1).is_ok());
    assert_eq!(
        chain.native_of(USER_1),
        user1_2s.amount + user1_8s.amount + user1_18s.amount + user1_135s.amount + user1_150s.amount
    );
    assert_eq!(chain.native_of(USER_1), 196_630_434u128);

    chain.advance(5);
    let admin_155s = chain.pending(ADMIN);
    assert_eq!(admin_155s, pending_native(54_347_826u128, 1571797569));
    assert!(chain.withdraw(ADMIN, MOCK_1000_HALO_LP_TOKEN_AMOUNT / 2).is_ok());
    assert_eq!(query_staker_info(chain.stakers.get(ADMIN).cloned()).amount, MOCK_1000_HALO_LP_TOKEN_AMOUNT / 2);
    assert_eq!(chain.native_of(ADMIN), admin_before_150s + admin_150s.amount + admin_155s.amount);

    chain.advance(5);
    let user1_160s = chain.pending(USER_1);
    assert_eq!(user1_160s, pending_native(22_575_251u128, 1571797574));
    assert!(chain.harvest(USER_1).is_ok());
    assert_eq!(
        chain.native_of(USER_1),
        user1_2s.amount
            + user1_8s.amount
            + user1_18s.amount
            + user1_135s.amount
            + user1_150s.amount
            + user1_160s.amount
    );

    chain.advance(5);
    let admin_165s = chain.pending(ADMIN);
    assert_eq!(admin_165s, pending_native(96_153_846u128, 1571797579));
    assert!(chain.deposit(ADMIN, MOCK_1000_HALO_LP_TOKEN_AMOUNT / 2).is_ok());

    chain.advance(5);
    let admin_170s = chain.pending(ADMIN);
    assert_eq!(admin_170s, pending_native(54_347_826u128, 1571797584));
    assert!(chain.harvest(ADMIN).is_ok());
    assert_eq!(
        chain.native_of(ADMIN),
        admin_before_150s + admin_150s.amount + admin_155s.amount + admin_165s.amount + admin_170s.amount
    );
    assert_eq!(
        query_total_lp_token_staked(&chain.farm),
        MOCK_1000_HALO_LP_TOKEN_AMOUNT + MOCK_150_HALO_LP_TOKEN_AMOUNT
    );
}

fn cw20_reward() -> TokenInfo {
    TokenInfo::Token { contract_addr: REWARD_TOKEN.to_string() }
}

fn pending_cw20(amount: u128, time_query: u64) -> PendingRewardResponse {
    PendingRewardResponse { info: cw20_reward(), amount, time_query }
}

const MOCK_1000_HALO_REWARD_TOKEN_AMOUNT: u128 = 1_000_000_000_000_000_000_000;

#[test]
fn proper_operation_with_reward_token_decimal_18() {
    let mut chain = Chain::new(0, 100, cw20_reward());
    let current_block_time = chain.time;
    chain.mint_lp(ADMIN, MOCK_1000_HALO_LP_TOKEN_AMOUNT);
    chain.mint_lp(USER_1, MOCK_1000_HALO_LP_TOKEN_AMOUNT / 2);
    credit(&mut chain.reward_cw20, ADMIN, MOCK_1000_HALO_REWARD_TOKEN_AMOUNT);
    let farm_info = chain.farm.clone();
    assert_eq!(
        farm_info,
        FarmInfo {
            staked_token: LP_TOKEN.to_string(),
            reward_token: cw20_reward(),
            current_phase_index: 0,
            phases_info: vec![PhaseInfo {
                start_time: current_block_time,
                end_time: current_block_time + 100,
                whitelist: ADMIN.to_string(),
                reward_balance: 0,
                last_reward_time: current_block_time,
                accrued_token_per_share: Decimal::zero(),
            }],
            phases_limit_per_user: None,
            staked_token_balance: 0,
        }
    );
    assert!(chain.add_reward_balance(ADMIN, 0, MOCK_1000_HALO_REWARD_TOKEN_AMOUNT).is_ok());
    assert!(chain.deposit(ADMIN, MOCK_1000_HALO_LP_TOKEN_AMOUNT).is_ok());

    chain.advance(2);
    let admin_2s = chain.pending(ADMIN);
    assert_eq!(admin_2s, pending_cw20(20_000_000_000_000_000_000u128, 1571797421));
    assert!(chain.harvest(ADMIN).is_ok());
    assert_eq!(chain.reward_of(ADMIN), 20_000_000_000_000_000_000u128);
    assert!(chain.deposit(USER_1, MOCK_1000_HALO_LP_TOKEN_AMOUNT / 2).is_ok());

    chain.advance(2);
    let user1_4s = chain.pending(USER_1);
    assert_eq!(user1_4s, pending_cw20(6_666_666_666_666_666_666u128, 1571797423));
    assert!(chain.harvest(USER_1).is_ok());
    assert_eq!(chain.reward_of(USER_1), user1_4s.amount);

    chain.advance(2);
    let admin_6s = chain.pending(ADMIN);
    assert_eq!(admin_6s, pending_cw20(26_666_666_666_666_666_666u128, 1571797425));
    assert!(chain.withdraw(ADMIN, MOCK_1000_HALO_LP_TOKEN_AMOUNT / 2).is_ok());
    assert_eq!(chain.reward_of(ADMIN), admin_2s.amount + admin_6s.amount);

    chain.advance(1);
    let admin_7s = chain.pending(ADMIN);
    assert_eq!(admin_7s, pending_cw20(5_000_000_000_000_000_000u128, 1571797426));
    assert!(chain.deposit(ADMIN, MOCK_1000_HALO_LP_TOKEN_AMOUNT / 2).is_ok());

    chain.advance(1);
    let admin_8s = chain.pending(ADMIN);
    assert_eq!(admin_8s, pending_cw20(6_666_666_666_666_666_667u128, 1571797427));
    assert!(chain.harvest(ADMIN).is_ok());
    assert_eq!(chain.reward_of(ADMIN), admin_2s.amount + admin_6s.amount + admin_7s.amount + admin_8s.amount);
    let user1_8s = chain.pending(USER_1);
    assert_eq!(user1_8s, pending_cw20(15_000_000_000_000_000_000u128, 1571797427));
    assert!(chain.harvest(USER_1).is_ok());
    assert_eq!(chain.reward_of(USER_1), user1_4s.amount + user1_8s.amount);
    assert_eq!(
        query_total_lp_token_staked(&chain.farm),
        MOCK_1000_HALO_LP_TOKEN_AMOUNT + MOCK_1000_HALO_LP_TOKEN_AMOUNT / 2
    );

    let end = farm_info.phases_info[0].end_time;
    assert!(chain.add_phase(ADMIN, end, end + 10).is_ok());
    chain.advance(92);
    let admin_100s = chain.pending(ADMIN);
    assert_eq!(admin_100s, pending_cw20(613_333_333_333_333_333_333u128, 1571797519));
    let user1_100s = chain.pending(USER_1);
    assert_eq!(user1_100s, pending_cw20(306_666_666_666_666_666_667u128, 1571797519));

    credit(&mut chain.reward_cw20, ADMIN, MOCK_1000_HALO_REWARD_TOKEN_AMOUNT);
    assert!(chain.add_reward_balance(ADMIN, 1, MOCK_1000_HALO_REWARD_TOKEN_AMOUNT).is_ok());
    assert!(chain.activate_phase(ADMIN).is_ok());

    chain.advance(1);
    let admin_101s = chain.pending(ADMIN);
    assert_eq!(admin_101s, pending_cw20(679_999_999_999_999_999_999u128, 1571797520));
    let user1_101s = chain.pending(USER_1);
    assert_eq!(user1_101s, pending_cw20(340_000_000_000_000_000_000u128, 1571797520));

    assert!(chain.withdraw(ADMIN, MOCK_1000_HALO_LP_TOKEN_AMOUNT / 2).is_ok());
    let admin_rewards = admin_2s.amount + admin_6s.amount + admin_7s.amount + admin_8s.amount + admin_101s.amount;
    assert_eq!(chain.reward_of(ADMIN), admin_rewards);

    debit(&mut chain.lp, ADMIN, MOCK_1000_HALO_LP_TOKEN_AMOUNT / 2);
    credit(&mut chain.lp, USER_1, MOCK_1000_HALO_LP_TOKEN_AMOUNT / 2);
    assert!(chain.deposit(USER_1, MOCK_1000_HALO_LP_TOKEN_AMOUNT / 2).is_ok());
    assert_eq!(chain.reward_of(USER_1), user1_4s.amount + user1_8s.amount + user1_101s.amount);

    assert!(chain.add_phase(ADMIN, end + 10, end + 20).is_ok());
    assert!(chain.add_reward_balance(ADMIN, 2, 10_000_000_000_000_000_000u128).is_ok());
    assert_eq!(chain.reward_of(ADMIN), admin_rewards - 10_000_000_000_000_000_000u128);
    assert!(chain.remove_phase(ADMIN, 2).is_ok());
    assert_eq!(chain.reward_of(ADMIN), admin_rewards);
}

#[test]
fn proper_harvest_with_multiple_phases() {
    let mut chain = Chain::new(0, 10, native());
    let current_block_time = chain.time;
    chain.mint_lp(ADMIN, MOCK_1000_HALO_LP_TOKEN_AMOUNT * 10);
    chain.mint_lp(USER_1, MOCK_1000_HALO_LP_TOKEN_AMOUNT / 2);
    assert!(chain.add_reward_balance(ADMIN, 0, ADD_1000_NATIVE_BALANCE_2).is_ok());
    let farm_info = chain.farm.clone();
    assert_eq!(
        farm_info,
        FarmInfo {
            staked_token: LP_TOKEN.to_string(),
            reward_token: native(),
            current_phase_index: 0,
            phases_info: vec![PhaseInfo {
                start_time: current_block_time,
                end_time: current_block_time + 10,
                whitelist: ADMIN.to_string(),
                reward_balance: ADD_1000_NATIVE_BALANCE_2,
                last_reward_time: current_block_time,
                accrued_token_per_share: Decimal::zero(),
            }],
            phases_limit_per_user: None,
            staked_token_balance: 0,
        }
    );

    chain.advance(2);
    assert!(chain.deposit(ADMIN, MOCK_1000_HALO_LP_TOKEN_AMOUNT).is_ok());
    chain.advance(8);
    assert_eq!(chain.pending(ADMIN), pending_native(800_000_000u128, 1571797429));

    let end = farm_info.phases_info[0].end_time;
    assert!(chain.add_phase(ADMIN, end + 2, end + 12).is_ok());
    assert!(chain.add_reward_balance(ADMIN, 1, ADD_1000_NATIVE_BALANCE_2).is_ok());
    chain.advance(1);
    assert!(chain.activate_phase(ADMIN).is_ok());
    chain.advance(1);
    chain.advance(2);
    assert_eq!(chain.pending(ADMIN), pending_native(1_000_000_000u128, 1571797433));

    assert!(chain.deposit(USER_1, MOCK_1000_HALO_LP_TOKEN_AMOUNT / 2).is_ok());
    chain.advance(6);
    let admin_20s = chain.pending(ADMIN);
    assert_eq!(admin_20s, pending_native(1_400_000_000u128, 1571797439));
    assert_eq!(chain.pending(USER_1), pending_native(200_000_000u128, 1571797439));
    assert_eq!(
        chain.native_of(ADMIN),
        INIT_1000_000_NATIVE_BALANCE_2 - ADD_1000_NATIVE_BALANCE_2 - ADD_1000_NATIVE_BALANCE_2
    );
    assert!(chain.deposit(ADMIN, MOCK_1000_HALO_LP_TOKEN_AMOUNT).is_ok());
    assert_eq!(
        chain.native_of(ADMIN),
        INIT_1000_000_NATIVE_BALANCE_2 - ADD_1000_NATIVE_BALANCE_2 - ADD_1000_NATIVE_BALANCE_2 + admin_20s.amount
    );
    assert_eq!(chain.pending(ADMIN), pending_native(0, 1571797439));
    assert_eq!(chain.pending(USER_1), pending_native(200_000_000u128, 1571797439));

    chain.advance(2);
    let user1_8s = chain.pending(USER_1);
    assert_eq!(user1_8s, pending_native(240_000_000u128, 1571797441));
    assert_eq!(chain.pending(ADMIN), pending_native(160_000_000u128, 1571797441));

    chain.advance(2);
    assert!(chain.harvest(USER_1).is_ok());
    assert_eq!(chain.native_of(USER_1), user1_8s.amount);

    chain.advance(1);
    assert_eq!(chain.pending(ADMIN), pending_native(160_000_000u128, 1571797444));
    chain.advance(1);
    assert!(chain.add_phase(ADMIN, 1571797448, 1571797448 + 10).is_ok());
    chain.advance(1);
    assert!(chain.add_reward_balance(ADMIN, 2, ADD_1000_NATIVE_BALANCE_2).is_ok());
    assert_eq!(chain.native_of(ADMIN), 998_400_000_000u128);
    chain.advance(1);
    assert!(chain.activate_phase(ADMIN).is_ok());
    chain.advance(1);
    assert_eq!(chain.pending(ADMIN), pending_native(160_000_000u128, 1571797448));
    chain.advance(1);
    let admin_30s = chain.pending(ADMIN);
    assert_eq!(admin_30s, pending_native(240_000_000u128, 1571797449));
    assert!(chain.harvest(ADMIN).is_ok());
    assert_eq!(chain.native_of(ADMIN), 998_400_000_000u128 + admin_30s.amount);

    chain.advance(10);
    assert!(chain.add_phase(ADMIN, 1571797461, 1571797461 + 10).is_ok());
    assert!(chain.add_reward_balance(ADMIN, 3, ADD_1000_NATIVE_BALANCE_2).is_ok());
    assert_eq!(
        chain.native_of(ADMIN),
        998_400_000_000u128 + admin_30s.amount - ADD_1000_NATIVE_BALANCE_2
    );
    chain.advance(1);
    assert!(chain.remove_phase(ADMIN, 3).is_ok());
    assert_eq!(chain.native_of(ADMIN), 998_400_000_000u128 + admin_30s.amount);
}

#[test]
fn proper_deposit_before_start_time() {
    let mut chain = Chain::new(5, 10, native());
    chain.mint_lp(ADMIN, 2 * MOCK_1000_HALO_LP_TOKEN_AMOUNT);
    chain.mint_lp(USER_1, 2 * MOCK_1000_HALO_LP_TOKEN_AMOUNT);
    assert!(chain.add_reward_balance(ADMIN, 0, ADD_1000_NATIVE_BALANCE_2).is_ok());

    chain.advance(1);
    assert!(chain.deposit(ADMIN, MOCK_1000_HALO_LP_TOKEN_AMOUNT).is_ok());
    chain.advance(1);
    assert!(chain.deposit(USER_1, MOCK_1000_HALO_LP_TOKEN_AMOUNT).is_ok());
    chain.advance(1);
    assert_eq!(chain.pending(ADMIN), pending_native(0, 1571797422));
    assert!(chain.withdraw(ADMIN, MOCK_1000_HALO_LP_TOKEN_AMOUNT).is_ok());
    chain.advance(1);
    assert!(chain.deposit(ADMIN, MOCK_1000_HALO_LP_TOKEN_AMOUNT).is_ok());
    chain.advance(1);
    assert!(chain.deposit(USER_1, MOCK_1000_HALO_LP_TOKEN_AMOUNT).is_ok());

    chain.advance(1);
    assert_eq!(chain.pending(ADMIN), pending_native(33_333_333u128, 1571797425));
    assert_eq!(chain.pending(USER_1), pending_native(66_666_666u128, 1571797425));

    chain.advance(1);
    let admin_7s = chain.pending(ADMIN);
    assert_eq!(admin_7s, pending_native(66_666_666u128, 1571797426));
    assert_eq!(chain.pending(USER_1), pending_native(133_333_333u128, 1571797426));
    assert!(chain.withdraw(ADMIN, MOCK_1000_HALO_LP_TOKEN_AMOUNT / 2).is_ok());
    assert_eq!(
        chain.native_of(ADMIN),
        INIT_1000_000_NATIVE_BALANCE_2 - ADD_1000_NATIVE_BALANCE_2 + admin_7s.amount
    );

    chain.advance(1);
    assert_eq!(chain.pending(ADMIN), pending_native(20_000_000u128, 1571797427));
    assert_eq!(chain.pending(USER_1), pending_native(213_333_333u128, 1571797427));

    chain.advance(1);
    let admin_9s = chain.pending(ADMIN);
    assert_eq!(admin_9s, pending_native(40_000_000u128, 1571797428));
    assert_eq!(chain.pending(USER_1), pending_native(293_333_333u128, 1571797428));
    assert!(chain.deposit(ADMIN, MOCK_1000_HALO_LP_TOKEN_AMOUNT).is_ok());

    chain.advance(1);
    assert_eq!(chain.pending(ADMIN), pending_native(42_857_143u128, 1571797429));
    assert_eq!(chain.pending(USER_1), pending_native(350_476_190u128, 1571797429));

    chain.advance(1);
    let admin_11s = chain.pending(ADMIN);
    assert_eq!(admin_11s, pending_native(85_714_286u128, 1571797430));
    assert_eq!(chain.pending(USER_1), pending_native(407_619_047u128, 1571797430));
    assert!(chain.harvest(ADMIN).is_ok());
    assert_eq!(
        chain.native_of(ADMIN),
        INIT_1000_000_NATIVE_BALANCE_2 - ADD_1000_NATIVE_BALANCE_2 + admin_7s.amount + admin_9s.amount + admin_11s.amount
    );

    chain.advance(1);
    assert_eq!(chain.pending(ADMIN), pending_native(42_857_143u128, 1571797431));
    assert_eq!(chain.pending(USER_1), pending_native(464_761_904u128, 1571797431));

    chain.advance(3);
    assert_eq!(chain.pending(ADMIN), pending_native(171_428_572u128, 1571797434));
    assert_eq!(chain.pending(USER_1), pending_native(636_190_476u128, 1571797434));

    chain.advance(1);
    let admin_16s = chain.pending(ADMIN);
    assert_eq!(admin_16s, pending_native(171_428_572u128, 1571797435));
    assert!(chain.withdraw(ADMIN, MOCK_1000_HALO_LP_TOKEN_AMOUNT + MOCK_1000_HALO_LP_TOKEN_AMOUNT / 2).is_ok());
    assert_eq!(
        chain.native_of(ADMIN),
        INIT_1000_000_NATIVE_BALANCE_2 - ADD_1000_NATIVE_BALANCE_2
            + admin_7s.amount
            + admin_9s.amount
            + admin_11s.amount
            + admin_16s.amount
    );

    chain.advance(1);
    let user_17s = chain.pending(USER_1);
    assert_eq!(user_17s, pending_native(636_190_476u128, 1571797436));
    assert!(chain.harvest(USER_1).is_ok());
    assert_eq!(chain.native_of(USER_1), user_17s.amount);
}

#[test]
fn farm_withdraw_right_after_deposit_gives_everything_back() {
    let mut chain = Chain::new(0, 100, native());
    chain.mint_lp(ADMIN, MOCK_1000_HALO_LP_TOKEN_AMOUNT);
    chain.mint_lp(USER_1, MOCK_150_HALO_LP_TOKEN_AMOUNT);
    assert!(chain.add_reward_balance(ADMIN, 0, ADD_1000_NATIVE_BALANCE_2).is_ok());
    chain.advance(1);
    assert!(chain.deposit(ADMIN, MOCK_1000_HALO_LP_TOKEN_AMOUNT).is_ok());
    chain.advance(10);
    let total_before = query_total_lp_token_staked(&chain.farm);
    assert!(chain.deposit(USER_1, MOCK_150_HALO_LP_TOKEN_AMOUNT).is_ok());
    assert_eq!(query_total_lp_token_staked(&chain.farm), total_before + MOCK_150_HALO_LP_TOKEN_AMOUNT);
    // nothing is pending right after the deposit
    assert_eq!(chain.pending(USER_1).amount, 0);
    let staker = chain.stakers.get(USER_1).cloned();
    let out = execute_withdraw(
        chain.farm.clone(),
        staker,
        &chain.env(),
        &Chain::info(USER_1, vec![]),
        MOCK_150_HALO_LP_TOKEN_AMOUNT,
    )
    .unwrap();
    assert_eq!(out.reward_amount, 0);
    assert_eq!(query_total_lp_token_staked(&out.farm_info), total_before);
    assert_eq!(out.farm_info.phases_info, chain.farm.phases_info);
    assert!(out.staker_info.is_none());
    assert_eq!(
        out.messages,
        vec![TransferMsg::Cw20Transfer {
            contract_addr: LP_TOKEN.to_string(),
            recipient: USER_1.to_string(),
            amount: MOCK_150_HALO_LP_TOKEN_AMOUNT
        }]
    );
    chain.apply_stake(USER_1, out);
    assert_eq!(chain.lp_of(USER_1), MOCK_150_HALO_LP_TOKEN_AMOUNT);
}

#[test]
fn farm_total_stake_is_the_sum_of_stakes() {
    let mut chain = Chain::new(0, 100, native());
    chain.mint_lp(ADMIN, MOCK_1000_HALO_LP_TOKEN_AMOUNT);
    chain.mint_lp(USER_1, MOCK_1000_HALO_LP_TOKEN_AMOUNT);
    assert!(chain.add_reward_balance(ADMIN, 0, ADD_1000_NATIVE_BALANCE_2).is_ok());
    let check = |chain: &Chain| {
        let sum: u128 = chain.stakers.values().map(|s| s.amount).sum();
        assert_eq!(query_total_lp_token_staked(&chain.farm), sum);
    };
    chain.advance(1);
    assert!(chain.deposit(ADMIN, 300).is_ok());
    check(&chain);
    chain.advance(3);
    assert!(chain.deposit(USER_1, 700).is_ok());
    check(&chain);
    chain.advance(3);
    assert!(chain.deposit(ADMIN, 200).is_ok());
    check(&chain);
    chain.advance(5);
    assert!(chain.withdraw(USER_1, 100).is_ok());
    check(&chain);
    chain.advance(5);
    assert!(chain.harvest(ADMIN).is_ok());
    check(&chain);
    assert!(chain.withdraw(ADMIN, 500).is_ok());
    assert!(chain.stakers.get(ADMIN).is_none());
    check(&chain);
    assert_eq!(query_total_lp_token_staked(&chain.farm), 600);
}

#[test]
fn farm_deposit_past_the_limit_per_user_is_refused() {
    let mut chain = Chain::new(0, 100, native());
    chain.farm.phases_limit_per_user = Some(1_000);
    chain.mint_lp(ADMIN, MOCK_1000_HALO_LP_TOKEN_AMOUNT);
    assert!(chain.add_reward_balance(ADMIN, 0, ADD_1000_NATIVE_BALANCE_2).is_ok());
    chain.advance(1);
    assert!(chain.deposit(ADMIN, 600).is_ok());
    assert_eq!(
        chain.deposit(ADMIN, 401).unwrap_err(),
        "Generic error: Deposit amount exceeds phase limit per user".to_string()
    );
    assert!(chain.deposit(ADMIN, 400).is_ok());
    assert_eq!(query_staker_info(chain.stakers.get(ADMIN).cloned()).amount, 1_000);
}

#[test]
fn farm_limit_of_zero_sets_no_limit() {
    let mut chain = Chain::new(0, 100, native());
    chain.farm.phases_limit_per_user = Some(0);
    chain.mint_lp(ADMIN, MOCK_1000_HALO_LP_TOKEN_AMOUNT);
    assert!(chain.add_reward_balance(ADMIN, 0, ADD_1000_NATIVE_BALANCE_2).is_ok());
    chain.advance(1);
    assert!(chain.deposit(ADMIN, MOCK_1000_HALO_LP_TOKEN_AMOUNT).is_ok());
    assert_eq!(query_staker_info(chain.stakers.get(ADMIN).cloned()).amount, MOCK_1000_HALO_LP_TOKEN_AMOUNT);
}

#[test]
fn farm_activation_without_a_next_phase_asks_for_one() {
    let mut chain = Chain::new(0, 100, native());
    assert_eq!(chain.activate_phase(ADMIN).unwrap_err(), "Generic error: Invalid action: Add new phase first".to_string());
    chain.advance(150);
    assert_eq!(chain.activate_phase(ADMIN).unwrap_err(), "Generic error: Invalid action: Add new phase first".to_string());
    assert_eq!(
        chain.activate_phase(USER_1).unwrap_err(),
        "Generic error: Unauthorized: Only owner can active new phase".to_string()
    );
}

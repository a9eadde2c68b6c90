use halo_contracts::farm::formulas::{calc_reward_amount, get_multiplier};
use halo_contracts::farm::state::PhaseInfo;
use halo_contracts::math::Decimal;

fn get_phase_info() -> PhaseInfo {
    PhaseInfo {
        start_time: 100,
        end_time: 200,
        whitelist: "whitelist".to_string(),
        reward_balance: 1000,
        last_reward_time: 100,
        accrued_token_per_share: Decimal::zero(),
    }
}

#[test]
fn test_no_staked_token_balance() {
    let mut phase_info = get_phase_info();
    let (new_accrued_token_per_share, new_last_reward_time) =
        phase_info.update_reward_ratio_and_time(150, 0);
    assert_eq!(new_accrued_token_per_share, Decimal::zero());
    assert_eq!(new_last_reward_time, 150);
    assert_eq!(phase_info.accrued_token_per_share, Decimal::zero());
    assert_eq!(phase_info.last_reward_time, 150);
}

#[test]
fn test_current_time_before_last_reward_time() {
    let mut phase_info = get_phase_info();
    let (new_accrued_token_per_share, new_last_reward_time) =
        phase_info.update_reward_ratio_and_time(50, 100);
    assert_eq!(new_accrued_token_per_share, Decimal::zero());
    assert_eq!(new_last_reward_time, 100);
    assert_eq!(phase_info.last_reward_time, 100);
    assert_eq!(phase_info.accrued_token_per_share, Decimal::zero());
}

#[test]
fn test_current_time_after_start_time() {
    let mut phase_info = get_phase_info();
    let (new_accrued_token_per_share, new_last_reward_time) =
        phase_info.update_reward_ratio_and_time(150, 100);
    assert_eq!(new_accrued_token_per_share, Decimal::percent(500));
    assert_eq!(new_last_reward_time, 150);
    assert_eq!(phase_info.accrued_token_per_share, Decimal::percent(500));
    assert_eq!(phase_info.last_reward_time, 150);
}

#[test]
fn test_current_time_after_end_time() {
    let mut phase_info = get_phase_info();
    let (new_accrued_token_per_share, new_last_reward_time) =
        phase_info.update_reward_ratio_and_time(250, 100);
    assert_eq!(new_accrued_token_per_share, Decimal::percent(1000));
    assert_eq!(new_last_reward_time, 200);
    assert_eq!(phase_info.accrued_token_per_share, Decimal::percent(1000));
    assert_eq!(phase_info.last_reward_time, 200);
}

#[test]
fn farm_multiplier_clips_at_end() {
    assert_eq!(get_multiplier(100, 150, 200), 50);
    assert_eq!(get_multiplier(100, 200, 200), 100);
    assert_eq!(get_multiplier(100, 250, 200), 100);
    assert_eq!(get_multiplier(200, 250, 200), 0);
    assert_eq!(get_multiplier(250, 300, 200), 0);
}

#[test]
fn farm_reward_amount_saturates_at_zero() {
    // 1000 staked at 2.5 per share earns 2500
    assert_eq!(calc_reward_amount(1000, Decimal::percent(250), 0), 2500);
    assert_eq!(calc_reward_amount(1000, Decimal::percent(250), 500), 2000);
    assert_eq!(calc_reward_amount(1000, Decimal::percent(250), 3000), 0);
    // rounded down
    assert_eq!(calc_reward_amount(3, Decimal::percent(50), 0), 1);
}

#[test]
fn update_twice_at_same_time_changes_nothing_more() {
    let mut phase_info = get_phase_info();
    phase_info.update_reward_ratio_and_time(150, 100);
    let once = phase_info.clone();
    phase_info.update_reward_ratio_and_time(150, 100);
    assert_eq!(phase_info, once);
    phase_info.update_reward_ratio_and_time(150, 7);
    assert_eq!(phase_info.accrued_token_per_share, once.accrued_token_per_share);
}

#[test]
fn phase_release_never_exceeds_balance() {
    // updates spread over the whole phase and beyond release the balance once
    let mut phase_info = get_phase_info();
    phase_info.update_reward_ratio_and_time(130, 1);
    phase_info.update_reward_ratio_and_time(170, 1);
    phase_info.update_reward_ratio_and_time(260, 1);
    // with a stake of one token, the accrued reward per share is the reward released
    assert_eq!(phase_info.accrued_token_per_share, Decimal::raw(1000 * 1_000_000_000_000_000_000));
    assert_eq!(phase_info.last_reward_time, 200);
}

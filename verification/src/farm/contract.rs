//! Creating a farm.

use vstd::prelude::*;
use crate::farm::execute::new_phase;
use crate::farm::laws::farm_well_formed;
use crate::farm::msg::InstantiateMsg;
use crate::farm::state::{Config, FarmInfo, FarmView, PhaseInfo};
use crate::math::Decimal;

verus! {

/// The farm a creation message describes: its owner, and one phase without
/// rewards that is the current one, with nothing staked.
pub fn instantiate(msg: InstantiateMsg) -> (r: (Config, FarmInfo))
    ensures
        r.0.farm_owner == msg.farm_owner,
        r.1@ == (FarmView {
            staked_token: msg.staked_token,
            reward_token: msg.reward_token,
            current_phase_index: 0,
            phases: seq![new_phase(msg.start_time, msg.end_time, msg.whitelist)],
            phases_limit_per_user: msg.phases_limit_per_user,
            staked_token_balance: 0,
        }),
        farm_well_formed(r.1@),
{
    let config = Config { farm_owner: msg.farm_owner };
    let phase_info = PhaseInfo {
        start_time: msg.start_time,
        end_time: msg.end_time,
        whitelist: msg.whitelist,
        reward_balance: 0,
        last_reward_time: msg.start_time,
        accrued_token_per_share: Decimal::zero(),
    };
    let mut phases_info: Vec<PhaseInfo> = Vec::new();
    phases_info.push(phase_info);
    let farm_info = FarmInfo {
        staked_token: msg.staked_token,
        reward_token: msg.reward_token,
        current_phase_index: 0,
        phases_info,
        phases_limit_per_user: msg.phases_limit_per_user,
        staked_token_balance: 0,
    };
    assert(farm_info@.phases =~= seq![new_phase(msg.start_time, msg.end_time, msg.whitelist)]);
    (config, farm_info)
}

} // verus!

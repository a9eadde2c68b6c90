//! The stored state of the farm factory.

use vstd::prelude::*;
use crate::farm::state::TokenInfo;

verus! {

/// The factory's owner and the code it instantiates farms from.
#[derive(Clone, Debug, PartialEq, Eq)]
pub struct Config {
    pub owner: String,
    pub farm_code_id: u64,
}

/// The factory's configuration as queried.
#[derive(Clone, Debug, PartialEq, Eq)]
pub struct ConfigResponse {
    pub owner: String,
    pub farm_code_id: u64,
}

/// What the factory records about a farm it created.
#[derive(Clone, Debug, PartialEq, Eq)]
pub struct FactoryFarmInfo {
    pub staked_token: String,
    pub reward_token: TokenInfo,
    pub start_time: u64,
    pub end_time: u64,
    pub phases_limit_per_user: Option<u128>,
}

} // verus!

//! Messages the farm factory accepts.

use vstd::prelude::*;
use crate::farm::state::TokenInfo;

verus! {

/// The message that creates the factory.
#[derive(Clone, Debug, PartialEq, Eq)]
pub struct InstantiateMsg {
    /// Code id farms are instantiated from.
    pub farm_code_id: u64,
}

/// The messages the factory handles.
#[derive(Clone, Debug, PartialEq, Eq)]
pub enum ExecuteMsg {
    /// Changes the owner and the farm code id.
    UpdateConfig { owner: Option<String>, farm_code_id: Option<u64> },
    /// Creates a farm.
    CreateFarm {
        staked_token: String,
        reward_token: TokenInfo,
        start_time: u64,
        end_time: u64,
        phases_limit_per_user: Option<u128>,
        whitelist: String,
    },
}

/// The queries the factory answers.
#[derive(Clone, Debug, PartialEq, Eq)]
pub enum QueryMsg {
    /// The factory's configuration.
    Config {},
    /// The farm with the given id.
    Farm { farm_id: u64 },
    /// A page of farms.
    Farms { start_after: Option<u64>, limit: Option<u32> },
}

} // verus!

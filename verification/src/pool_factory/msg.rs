//! Messages the pool factory accepts.

use vstd::prelude::*;
use crate::pool::state::TokenInfo;

verus! {

/// The message that creates the factory.
#[derive(Clone, Debug, PartialEq, Eq)]
pub struct InstantiateMsg {
    /// Code id pools are instantiated from.
    pub pool_code_id: u64,
}

/// The messages the factory handles.
#[derive(Clone, Debug, PartialEq, Eq)]
pub enum ExecuteMsg {
    /// Changes the owner and the pool code id.
    UpdateConfig { owner: Option<String>, pool_code_id: Option<u64> },
    /// Creates a pool.
    CreatePool {
        staked_token: String,
        reward_token: TokenInfo,
        start_time: u64,
        end_time: u64,
        pool_limit_per_user: Option<u128>,
        whitelist: Vec<String>,
    },
}

/// The queries the factory answers.
#[derive(Clone, Debug, PartialEq, Eq)]
pub enum QueryMsg {
    /// The factory's configuration.
    Config {},
    /// The pool with the given id.
    Pool { pool_id: u64 },
    /// A page of pools.
    Pools { start_after: Option<u64>, limit: Option<u32> },
}

} // verus!

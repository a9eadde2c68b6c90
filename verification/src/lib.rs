//! Staking and farming logic of the Halo contracts: fixed-point reward
//! accounting, the farm contract (multiple reward phases), the pool contract,
//! and the two factories that register farms and pools.
//!
//! Every handler is a function from the stored state and the incoming message
//! to the new state and the token transfers to emit; loading and saving the
//! state and building chain messages happen in the host around it.

mod cosmwasm;

pub mod common;
pub mod math;
pub mod farm;
pub mod farm_factory;
pub mod pool;
pub mod pool_factory;

//! The pool contract: stakers deposit an LP token and earn a reward token at
//! a rate set per phase from the reward balance added to the phase.

pub mod contract;
pub mod error;
pub mod bounds;
pub mod formulas;
pub mod laws;
pub mod msg;
pub mod query;
pub mod settle;
pub mod state;

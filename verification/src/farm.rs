//! The farm contract: stakers deposit an LP token and earn a reward token,
//! paid out over a sequence of phases that the farm owner adds and activates.

pub mod bounds;
pub mod claim;
pub mod contract;
pub mod error;
pub mod execute;
pub mod formulas;
pub mod laws;
pub mod msg;
pub mod query;
pub mod state;

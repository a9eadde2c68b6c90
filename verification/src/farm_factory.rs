//! The farm factory: its owner creates farms, and the factory numbers them
//! from 1 as they come up and lists them.

pub mod contract;
pub mod error;
pub mod msg;
pub mod state;

//! The pool factory: its owner creates pools, and the factory numbers them
//! from 1 as they come up and lists them.

pub mod contract;
pub mod error;
pub mod msg;
pub mod state;

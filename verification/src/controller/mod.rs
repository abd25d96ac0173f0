//! The hub side: dispatches proposals to satellites and keeps track of how
//! each of them ended.

pub mod error;
pub mod state;
pub mod ibc;
pub mod contract;
pub mod migration;
pub mod laws;

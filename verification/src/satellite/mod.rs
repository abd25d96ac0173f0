//! The remote side: takes proposals from the hub, runs them, and watches
//! for the hub falling silent.

pub mod error;
pub mod state;
pub mod batch;
pub mod ibc;
pub mod contract;
pub mod migration;
pub mod laws;

//! The satellite for a chain that charges relayer fees on transfers.

pub mod contract;

//! The messages of the relay's first generation, which later versions
//! still have to read.

pub mod controller;
pub mod satellite;

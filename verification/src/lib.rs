//! Cross-chain governance relay: a hub contract dispatches proposals to a
//! satellite over a single packet channel, tracks their outcome and watches
//! the link's liveness.

pub mod astro_ibc;
pub mod clock;
pub mod controller;
pub mod controller_package;
pub mod cw20_ics20;
pub mod governance;
pub mod host;
pub mod limits;
pub mod ownership;
pub mod payment;
pub mod satellite;
pub mod satellite_neutron;
pub mod satellite_package;
pub mod text;
pub mod version;

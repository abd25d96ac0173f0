//! The settings of the satellite before it watched the hub's liveness, and
//! how they carry over.

use crate::host::{AddrVerdict, Env};
use crate::satellite::error::{ContractError, ContractErrorView};
use crate::satellite::state::{Config, ConfigView};
use vstd::prelude::*;

verus! {

/// The settings as the satellite kept them before it had an emergency owner.
#[derive(Clone, Debug, PartialEq, Eq)]
pub struct ConfigV020 {
    /// The address that may change the settings.
    pub owner: String,
    /// The denomination of the token the satellite forwards to the hub.
    pub astro_denom: String,
    /// The port that the controller on the hub speaks from.
    pub main_controller_port: String,
    /// The address on the hub that receives the token.
    pub main_maker: String,
    /// The one channel over which proposals arrive, once it exists.
    pub gov_channel: Option<String>,
    /// The channel over which the token travels.
    pub transfer_channel: String,
    /// Seconds after which a sent packet times out.
    pub timeout: u64,
}

/// The mathematical value of a [`ConfigV020`].
pub struct ConfigV020View {
    pub owner: Seq<char>,
    pub astro_denom: Seq<char>,
    pub main_controller_port: Seq<char>,
    pub main_maker: Seq<char>,
    pub gov_channel: Option<Seq<char>>,
    pub transfer_channel: Seq<char>,
    pub timeout: u64,
}

impl DeepView for ConfigV020 {
    type V = ConfigV020View;

    open spec fn deep_view(&self) -> ConfigV020View {
        ConfigV020View {
            owner: self.owner@,
            astro_denom: self.astro_denom@,
            main_controller_port: self.main_controller_port@,
            main_maker: self.main_maker@,
            gov_channel: self.gov_channel.deep_view(),
            transfer_channel: self.transfer_channel@,
            timeout: self.timeout,
        }
    }
}

/// What the migration that brings in the liveness watch is given.
#[derive(Clone, Debug, PartialEq, Eq)]
pub struct MigrateMsg {
    /// Seconds of silence after which the hub counts as lost.
    pub max_signal_outage: u64,
    /// The address that may step in once the hub is lost.
    pub emergency_owner: String,
}

/// The settings that the migration makes of the old ones.
pub open spec fn migrated_config(
    old_config: ConfigV020View,
    max_signal_outage: u64,
    emergency_owner: Seq<char>,
) -> ConfigView {
    ConfigView {
        owner: old_config.owner,
        max_signal_outage,
        emergency_owner,
        astro_denom: old_config.astro_denom,
        main_controller_port: old_config.main_controller_port,
        main_maker: old_config.main_maker,
        gov_channel: old_config.gov_channel,
        transfer_channel: old_config.transfer_channel,
        timeout: old_config.timeout,
    }
}

/// Carries the old settings over and adds the liveness watch. Returns the
/// new settings and the time from which the hub's silence is counted,
/// which is the time of the migration. Fails where the host refused the
/// emergency owner's address, which `emergency_owner_error` tells.
pub fn migrate_to_v100(
    old_config: ConfigV020,
    env: &Env,
    msg: &MigrateMsg,
    emergency_owner_error: AddrVerdict,
) -> (result: Result<(Config, u64), ContractError>)
    ensures
        match emergency_owner_error {
            Some(reason) => result matches Err(e) && e.deep_view() == ContractErrorView::Std(
                reason@,
            ),
            None => {
                &&& result matches Ok((config, heard))
                &&& config.deep_view() == migrated_config(
                    old_config.deep_view(),
                    msg.max_signal_outage,
                    msg.emergency_owner@,
                )
                &&& heard == env.block.time
            },
        },
{
    if let Some(reason) = emergency_owner_error {
        return Err(ContractError::Std(reason));
    }
    let config = Config {
        timeout: old_config.timeout,
        owner: old_config.owner,
        main_maker: old_config.main_maker,
        astro_denom: old_config.astro_denom,
        gov_channel: old_config.gov_channel,
        transfer_channel: old_config.transfer_channel,
        main_controller_port: old_config.main_controller_port,
        max_signal_outage: msg.max_signal_outage,
        emergency_owner: msg.emergency_owner.clone(),
    };
    Ok((config, env.block.time))
}

} // verus!

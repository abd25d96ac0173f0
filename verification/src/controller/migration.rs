//! The settings of the first controller, and how they carry over.

use crate::controller::state::{Config, ConfigView};
use vstd::prelude::*;

verus! {

/// The settings as the first version of the controller kept them.
#[derive(Clone, Debug, PartialEq, Eq)]
pub struct ConfigV01 {
    pub owner: String,
    /// The governance body, which later versions merged with the owner.
    pub assembly: String,
    pub timeout: u64,
}

/// Carries the settings of the first version over: owner and timeout stay,
/// the separate governance address is dropped.
pub fn migrate_config(old_config: ConfigV01) -> (config: Config)
    ensures
        config.deep_view() == (ConfigView {
            owner: old_config.owner@,
            timeout: old_config.timeout,
        }),
{
    Config { owner: old_config.owner, timeout: old_config.timeout }
}

} // verus!

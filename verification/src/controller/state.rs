//! What the controller keeps between calls.

use crate::controller::error::{ContractError, ContractErrorView};
use crate::governance::ProposalStatus;
use crate::host::{Response, ResponseView};
use crate::limits::timeout_limits;
use crate::ownership::{OwnershipProposal, OwnershipProposalView};
use crate::version::{ContractVersion, ContractVersionView};
use std::collections::HashMap;
use vstd::prelude::*;

verus! {

/// The controller's settings.
#[derive(Clone, Debug, PartialEq, Eq)]
pub struct Config {
    /// The only address that may dispatch proposals, and the governance
    /// body that is told how they ended.
    pub owner: String,
    /// Seconds after which a sent packet times out.
    pub timeout: u64,
}

/// The mathematical value of a [`Config`].
pub struct ConfigView {
    pub owner: Seq<char>,
    pub timeout: u64,
}

impl DeepView for Config {
    type V = ConfigView;

    open spec fn deep_view(&self) -> ConfigView {
        ConfigView { owner: self.owner@, timeout: self.timeout }
    }
}

/// Everything the controller keeps between calls.
#[derive(Clone, Debug, PartialEq, Eq)]
pub struct Store {
    pub config: Config,
    /// The status of every proposal that was ever dispatched, by its id.
    pub proposal_state: HashMap<u64, ProposalStatus>,
    /// The error text of the latest acknowledgement of a proposal: empty
    /// where that proposal succeeded, absent before the first one.
    pub last_error: Option<String>,
    /// The pending change of owner, if there is one.
    pub ownership_proposal: Option<OwnershipProposal>,
    pub contract_version: ContractVersion,
}

/// The mathematical value of a [`Store`].
pub struct StoreView {
    pub config: ConfigView,
    pub proposal_state: Map<u64, ProposalStatus>,
    pub last_error: Option<Seq<char>>,
    pub ownership_proposal: Option<OwnershipProposalView>,
    pub contract_version: ContractVersionView,
}

impl DeepView for Store {
    type V = StoreView;

    open spec fn deep_view(&self) -> StoreView {
        StoreView {
            config: self.config.deep_view(),
            proposal_state: self.proposal_state@,
            last_error: self.last_error.deep_view(),
            ownership_proposal: self.ownership_proposal.deep_view(),
            contract_version: self.contract_version.deep_view(),
        }
    }
}

impl StoreView {
    /// The settings keep to the policy bounds.
    pub open spec fn wf(self) -> bool {
        timeout_limits().contains(self.config.timeout)
    }
}

/// What a call leads to: the store it leaves and the response it gives, or
/// the error it fails with.
pub type Outcome<M> = Result<(StoreView, ResponseView<M>), ContractErrorView>;

/// A call that started from `before` ended in `after` with `result` as
/// `outcome` says: on success the store and the response are those given,
/// on failure the error is the one given and the store is untouched.
pub open spec fn meets<M>(
    outcome: Outcome<M>,
    before: Store,
    after: Store,
    result: Result<Response<M>, ContractError>,
) -> bool {
    match outcome {
        Ok((store, response)) => {
            &&& result matches Ok(r)
            &&& r.deep_view() == response
            &&& after.deep_view() == store
        },
        Err(error) => {
            &&& result matches Err(e)
            &&& e.deep_view() == error
            &&& after == before
        },
    }
}

} // verus!

//! Messages of the hub-side controller.

use crate::governance::{ProposalMessage, ProposalMessageView};
use vstd::prelude::*;

verus! {

/// What the controller is created with.
#[derive(Clone, Debug, PartialEq, Eq)]
pub struct InstantiateMsg {
    /// The only address that may dispatch proposals.
    pub owner: String,
    /// Seconds after which a sent packet times out.
    pub timeout: u64,
}

/// The mathematical value of an [`InstantiateMsg`].
pub struct InstantiateMsgView {
    pub owner: Seq<char>,
    pub timeout: u64,
}

impl DeepView for InstantiateMsg {
    type V = InstantiateMsgView;

    open spec fn deep_view(&self) -> InstantiateMsgView {
        InstantiateMsgView { owner: self.owner@, timeout: self.timeout }
    }
}

/// A proposal in the flat shape that older controllers put on the wire.
#[derive(Clone, Debug, PartialEq, Eq)]
pub struct IbcProposal<M> {
    pub id: u64,
    pub messages: Vec<ProposalMessage<M>>,
}

/// The mathematical value of an [`IbcProposal`].
pub struct IbcProposalView<M> {
    pub id: u64,
    pub messages: Seq<ProposalMessageView<M>>,
}

impl<M> DeepView for IbcProposal<M> {
    type V = IbcProposalView<M>;

    open spec fn deep_view(&self) -> IbcProposalView<M> {
        IbcProposalView { id: self.id, messages: self.messages.deep_view() }
    }
}

/// What the controller can be asked to do.
#[derive(Clone, Debug, PartialEq, Eq)]
pub enum ExecuteMsg<M> {
    /// Sends a proposal of the governance body to the satellite behind
    /// `channel_id`.
    IbcExecuteProposal { channel_id: String, proposal_id: u64, messages: Vec<ProposalMessage<M>> },
    /// Sets the packet timeout.
    UpdateTimeout { new_timeout: u64 },
    /// Names a new owner, who has `expires_in` seconds to claim.
    ProposeNewOwner { owner: String, expires_in: u64 },
    /// Withdraws the pending change of owner.
    DropOwnershipProposal,
    /// Takes ownership as the named new owner.
    ClaimOwnership,
    /// Sends a heartbeat over each of the channels.
    SendHeartbeat { channels: Vec<String> },
}

/// The mathematical value of an [`ExecuteMsg`].
pub enum ExecuteMsgView<M> {
    IbcExecuteProposal {
        channel_id: Seq<char>,
        proposal_id: u64,
        messages: Seq<ProposalMessageView<M>>,
    },
    UpdateTimeout { new_timeout: u64 },
    ProposeNewOwner { owner: Seq<char>, expires_in: u64 },
    DropOwnershipProposal,
    ClaimOwnership,
    SendHeartbeat { channels: Seq<Seq<char>> },
}

impl<M> DeepView for ExecuteMsg<M> {
    type V = ExecuteMsgView<M>;

    open spec fn deep_view(&self) -> ExecuteMsgView<M> {
        match self {
            ExecuteMsg::IbcExecuteProposal { channel_id, proposal_id, messages } => {
                ExecuteMsgView::IbcExecuteProposal {
                    channel_id: channel_id@,
                    proposal_id: *proposal_id,
                    messages: messages.deep_view(),
                }
            },
            ExecuteMsg::UpdateTimeout { new_timeout } => ExecuteMsgView::UpdateTimeout {
                new_timeout: *new_timeout,
            },
            ExecuteMsg::ProposeNewOwner { owner, expires_in } => ExecuteMsgView::ProposeNewOwner {
                owner: owner@,
                expires_in: *expires_in,
            },
            ExecuteMsg::DropOwnershipProposal => ExecuteMsgView::DropOwnershipProposal,
            ExecuteMsg::ClaimOwnership => ExecuteMsgView::ClaimOwnership,
            ExecuteMsg::SendHeartbeat { channels } => ExecuteMsgView::SendHeartbeat {
                channels: channels.deep_view(),
            },
        }
    }
}

/// What a migration of the controller is given.
#[derive(Clone, Copy, Debug, PartialEq, Eq, Structural)]
pub struct MigrateMsg {
    pub new_timeout: Option<u64>,
}

/// What the controller can be asked about.
#[derive(Clone, Copy, Debug, PartialEq, Eq, Structural)]
pub enum QueryMsg {
    /// The status of the proposal with this id.
    ProposalState { id: u64 },
    /// The error text of the latest failure acknowledgement.
    LastError,
}

} // verus!

//! Messages of the first controller.

use crate::governance::{ProposalMessage, ProposalMessageView, ProposalStatus};
use vstd::prelude::*;

verus! {

/// What the first controller was created with.
#[derive(Clone, Debug, PartialEq, Eq)]
pub struct InstantiateMsg {
    pub owner: String,
    /// Seconds after which a sent packet times out.
    pub timeout: u64,
}

/// A proposal as the first controller put it on the wire.
#[derive(Clone, Debug, PartialEq, Eq)]
pub struct IbcProposal<M> {
    pub id: u64,
    pub messages: Vec<ProposalMessage<M>>,
}

/// The mathematical value of an [`IbcProposal`].
pub struct IbcProposalView<M> {
    pub id: u64,
    pub messages: Seq<ProposalMessageView<M>>,
}

impl<M> DeepView for IbcProposal<M> {
    type V = IbcProposalView<M>;

    open spec fn deep_view(&self) -> IbcProposalView<M> {
        IbcProposalView { id: self.id, messages: self.messages.deep_view() }
    }
}

/// Where a dispatched proposal stood, in the first controller's words.
#[derive(Clone, Copy, Debug, PartialEq, Eq, Structural)]
pub enum IbcProposalState {
    InProgress,
    Succeed,
    Failed,
}

/// The name under which the first controller printed a state.
pub open spec fn state_label(state: IbcProposalState) -> Seq<char> {
    match state {
        IbcProposalState::InProgress => "in_progress"@,
        IbcProposalState::Succeed => "succeed"@,
        IbcProposalState::Failed => "failed"@,
    }
}

/// The status that a state of the first controller stands for today.
pub open spec fn status_of(state: IbcProposalState) -> ProposalStatus {
    match state {
        IbcProposalState::InProgress => ProposalStatus::InProgress,
        IbcProposalState::Succeed => ProposalStatus::Executed,
        IbcProposalState::Failed => ProposalStatus::Failed,
    }
}

impl IbcProposalState {
    /// The name under which the first controller printed the state.
    pub fn label(&self) -> (text: String)
        ensures
            text@ == state_label(*self),
    {
        match self {
            IbcProposalState::InProgress => String::from_str("in_progress"),
            IbcProposalState::Succeed => String::from_str("succeed"),
            IbcProposalState::Failed => String::from_str("failed"),
        }
    }

    /// The status that the state stands for today.
    pub fn status(&self) -> (status: ProposalStatus)
        ensures
            status == status_of(*self),
    {
        match self {
            IbcProposalState::InProgress => ProposalStatus::InProgress,
            IbcProposalState::Succeed => ProposalStatus::Executed,
            IbcProposalState::Failed => ProposalStatus::Failed,
        }
    }
}

/// What the first controller could be asked to do.
#[derive(Clone, Debug, PartialEq, Eq)]
pub enum ExecuteMsg<M> {
    /// Sends a proposal to the satellite behind `channel_id`.
    IbcExecuteProposal { channel_id: String, proposal_id: u64, messages: Vec<ProposalMessage<M>> },
}

} // verus!

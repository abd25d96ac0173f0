//! Messages of the satellite, and the two unions that cross the channel:
//! the envelope the hub sends and the acknowledgement the satellite returns.

use crate::governance::{ProposalMessage, ProposalMessageView};
use vstd::prelude::*;

verus! {

/// What the satellite is created with.
#[derive(Clone, Debug, PartialEq, Eq)]
pub struct InstantiateMsg {
    /// The address that may change the satellite's settings.
    pub owner: String,
    /// The denomination of the token the satellite forwards to the hub.
    pub astro_denom: String,
    /// The channel over which that token travels.
    pub transfer_channel: String,
    /// The controller on the hub.
    pub main_controller: String,
    /// The address on the hub that receives the token.
    pub main_maker: String,
    /// Seconds after which a sent packet times out.
    pub timeout: u64,
    /// Seconds of silence after which the satellite counts the hub as lost.
    pub max_signal_outage: u64,
    /// The address that may step in once the hub is lost.
    pub emergency_owner: String,
}

/// The mathematical value of an [`InstantiateMsg`].
pub struct InstantiateMsgView {
    pub owner: Seq<char>,
    pub astro_denom: Seq<char>,
    pub transfer_channel: Seq<char>,
    pub main_controller: Seq<char>,
    pub main_maker: Seq<char>,
    pub timeout: u64,
    pub max_signal_outage: u64,
    pub emergency_owner: Seq<char>,
}

impl DeepView for InstantiateMsg {
    type V = InstantiateMsgView;

    open spec fn deep_view(&self) -> InstantiateMsgView {
        InstantiateMsgView {
            owner: self.owner@,
            astro_denom: self.astro_denom@,
            transfer_channel: self.transfer_channel@,
            main_controller: self.main_controller@,
            main_maker: self.main_maker@,
            timeout: self.timeout,
            max_signal_outage: self.max_signal_outage,
            emergency_owner: self.emergency_owner@,
        }
    }
}

/// A patch of the satellite's settings: a field left `None` stays as it is.
#[derive(Clone, Debug, PartialEq, Eq)]
pub struct UpdateConfigMsg {
    pub astro_denom: Option<String>,
    pub gov_channel: Option<String>,
    pub main_controller_addr: Option<String>,
    pub main_maker: Option<String>,
    pub transfer_channel: Option<String>,
    pub accept_new_connections: Option<bool>,
    pub timeout: Option<u64>,
    pub max_signal_outage: Option<u64>,
    pub emergency_owner: Option<String>,
}

/// The mathematical value of an [`UpdateConfigMsg`].
pub struct UpdateConfigMsgView {
    pub astro_denom: Option<Seq<char>>,
    pub gov_channel: Option<Seq<char>>,
    pub main_controller_addr: Option<Seq<char>>,
    pub main_maker: Option<Seq<char>>,
    pub transfer_channel: Option<Seq<char>>,
    pub accept_new_connections: Option<bool>,
    pub timeout: Option<u64>,
    pub max_signal_outage: Option<u64>,
    pub emergency_owner: Option<Seq<char>>,
}

impl DeepView for UpdateConfigMsg {
    type V = UpdateConfigMsgView;

    open spec fn deep_view(&self) -> UpdateConfigMsgView {
        UpdateConfigMsgView {
            astro_denom: self.astro_denom.deep_view(),
            gov_channel: self.gov_channel.deep_view(),
            main_controller_addr: self.main_controller_addr.deep_view(),
            main_maker: self.main_maker.deep_view(),
            transfer_channel: self.transfer_channel.deep_view(),
            accept_new_connections: self.accept_new_connections,
            timeout: self.timeout,
            max_signal_outage: self.max_signal_outage,
            emergency_owner: self.emergency_owner.deep_view(),
        }
    }
}

/// What the satellite can be asked to do.
#[derive(Clone, Debug, PartialEq, Eq)]
pub enum ExecuteMsg<M> {
    /// Forwards the satellite's whole balance of the token to the hub.
    TransferAstro,
    /// Patches the settings.
    UpdateConfig(UpdateConfigMsg),
    /// Runs the messages and then fails on purpose, so that nothing is kept.
    CheckMessages(Vec<ProposalMessage<M>>),
    /// Runs the messages on behalf of the contract's admin.
    ExecuteFromMultisig(Vec<ProposalMessage<M>>),
    /// The last step of `CheckMessages`: always fails.
    CheckMessagesPassed,
    /// Names a new owner, who has `expires_in` seconds to claim.
    ProposeNewOwner { owner: String, expires_in: u64 },
    /// Withdraws the pending change of owner.
    DropOwnershipProposal,
    /// Takes ownership as the named new owner.
    ClaimOwnership,
    /// Makes the emergency owner the contract's admin once the hub is lost.
    SetEmergencyOwnerAsAdmin,
}

/// The mathematical value of an [`ExecuteMsg`].
pub enum ExecuteMsgView<M> {
    TransferAstro,
    UpdateConfig(UpdateConfigMsgView),
    CheckMessages(Seq<ProposalMessageView<M>>),
    ExecuteFromMultisig(Seq<ProposalMessageView<M>>),
    CheckMessagesPassed,
    ProposeNewOwner { owner: Seq<char>, expires_in: u64 },
    DropOwnershipProposal,
    ClaimOwnership,
    SetEmergencyOwnerAsAdmin,
}

impl<M> DeepView for ExecuteMsg<M> {
    type V = ExecuteMsgView<M>;

    open spec fn deep_view(&self) -> ExecuteMsgView<M> {
        match self {
            ExecuteMsg::TransferAstro => ExecuteMsgView::TransferAstro,
            ExecuteMsg::UpdateConfig(params) => ExecuteMsgView::UpdateConfig(params.deep_view()),
            ExecuteMsg::CheckMessages(messages) => ExecuteMsgView::CheckMessages(
                messages.deep_view(),
            ),
            ExecuteMsg::ExecuteFromMultisig(messages) => ExecuteMsgView::ExecuteFromMultisig(
                messages.deep_view(),
            ),
            ExecuteMsg::CheckMessagesPassed => ExecuteMsgView::CheckMessagesPassed,
            ExecuteMsg::ProposeNewOwner { owner, expires_in } => ExecuteMsgView::ProposeNewOwner {
                owner: owner@,
                expires_in: *expires_in,
            },
            ExecuteMsg::DropOwnershipProposal => ExecuteMsgView::DropOwnershipProposal,
            ExecuteMsg::ClaimOwnership => ExecuteMsgView::ClaimOwnership,
            ExecuteMsg::SetEmergencyOwnerAsAdmin => ExecuteMsgView::SetEmergencyOwnerAsAdmin,
        }
    }
}

/// The envelope that the hub sends to the satellite.
#[derive(Clone, Debug, PartialEq, Eq)]
pub enum SatelliteMsg<M> {
    /// A proposal to execute.
    ExecuteProposal { id: u64, messages: Vec<ProposalMessage<M>> },
    /// A sign of life, with nothing to execute.
    Heartbeat,
}

/// The mathematical value of a [`SatelliteMsg`].
pub enum SatelliteMsgView<M> {
    ExecuteProposal { id: u64, messages: Seq<ProposalMessageView<M>> },
    Heartbeat,
}

impl<M> DeepView for SatelliteMsg<M> {
    type V = SatelliteMsgView<M>;

    open spec fn deep_view(&self) -> SatelliteMsgView<M> {
        match self {
            SatelliteMsg::ExecuteProposal { id, messages } => SatelliteMsgView::ExecuteProposal {
                id: *id,
                messages: messages.deep_view(),
            },
            SatelliteMsg::Heartbeat => SatelliteMsgView::Heartbeat,
        }
    }
}

/// What the satellite can be asked about.
#[derive(Clone, Copy, Debug, PartialEq, Eq, Structural)]
pub enum QueryMsg {
    /// The block height at which the proposal with this id was completed.
    ProposalState { id: u64 },
}

/// The acknowledgement that the satellite returns for a packet.
#[derive(Clone, Debug, PartialEq, Eq)]
pub enum IbcAckResult {
    /// The packet was accepted; the bytes are the satellite's answer.
    Success(Vec<u8>),
    /// The packet was refused, for the reason given.
    Error(String),
}

/// The mathematical value of an [`IbcAckResult`].
pub enum IbcAckResultView {
    Success(Seq<u8>),
    Error(Seq<char>),
}

impl DeepView for IbcAckResult {
    type V = IbcAckResultView;

    open spec fn deep_view(&self) -> IbcAckResultView {
        match self {
            IbcAckResult::Success(data) => IbcAckResultView::Success(data@),
            IbcAckResult::Error(reason) => IbcAckResultView::Error(reason@),
        }
    }
}

} // verus!

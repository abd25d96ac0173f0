//! Messages of the first satellite, which knew no emergency owner.

use crate::governance::{ProposalMessage, ProposalMessageView};
use vstd::prelude::*;

verus! {

/// What the first satellite was created with.
#[derive(Clone, Debug, PartialEq, Eq)]
pub struct InstantiateMsg {
    /// The address that may change the satellite's settings.
    pub owner: String,
    /// The denomination of the token the satellite forwards to the hub.
    pub astro_denom: String,
    /// The channel over which that token travels.
    pub transfer_channel: String,
    /// The controller on the hub.
    pub main_controller: String,
    /// The address on the hub that receives the token.
    pub main_maker: String,
    /// Seconds after which a sent packet times out.
    pub timeout: u64,
}

/// The mathematical value of an [`InstantiateMsg`].
pub struct InstantiateMsgView {
    pub owner: Seq<char>,
    pub astro_denom: Seq<char>,
    pub transfer_channel: Seq<char>,
    pub main_controller: Seq<char>,
    pub main_maker: Seq<char>,
    pub timeout: u64,
}

impl DeepView for InstantiateMsg {
    type V = InstantiateMsgView;

    open spec fn deep_view(&self) -> InstantiateMsgView {
        InstantiateMsgView {
            owner: self.owner@,
            astro_denom: self.astro_denom@,
            transfer_channel: self.transfer_channel@,
            main_controller: self.main_controller@,
            main_maker: self.main_maker@,
            timeout: self.timeout,
        }
    }
}

/// A patch of the first satellite's settings: a field left `None` stays
/// as it is.
#[derive(Clone, Debug, PartialEq, Eq)]
pub struct UpdateConfigMsg {
    pub astro_denom: Option<String>,
    pub gov_channel: Option<String>,
    pub main_controller_port: Option<String>,
    pub main_maker: Option<String>,
    pub transfer_channel: Option<String>,
    pub timeout: Option<u64>,
}

/// The mathematical value of an [`UpdateConfigMsg`].
pub struct UpdateConfigMsgView {
    pub astro_denom: Option<Seq<char>>,
    pub gov_channel: Option<Seq<char>>,
    pub main_controller_port: Option<Seq<char>>,
    pub main_maker: Option<Seq<char>>,
    pub transfer_channel: Option<Seq<char>>,
    pub timeout: Option<u64>,
}

impl DeepView for UpdateConfigMsg {
    type V = UpdateConfigMsgView;

    open spec fn deep_view(&self) -> UpdateConfigMsgView {
        UpdateConfigMsgView {
            astro_denom: self.astro_denom.deep_view(),
            gov_channel: self.gov_channel.deep_view(),
            main_controller_port: self.main_controller_port.deep_view(),
            main_maker: self.main_maker.deep_view(),
            transfer_channel: self.transfer_channel.deep_view(),
            timeout: self.timeout,
        }
    }
}

/// What the first satellite could be asked to do.
#[derive(Clone, Debug, PartialEq, Eq)]
pub enum ExecuteMsg<M> {
    /// Forwards the token that came with the call to the hub.
    TransferAstro,
    /// Patches the settings.
    UpdateConfig(UpdateConfigMsg),
    /// Runs the messages and then fails on purpose, so that nothing is kept.
    CheckMessages(Vec<ProposalMessage<M>>),
    /// The last step of `CheckMessages`: always fails.
    CheckMessagesPassed,
    /// Names a new owner, who has `expires_in` seconds to claim.
    ProposeNewOwner { owner: String, expires_in: u64 },
    /// Withdraws the pending change of owner.
    DropOwnershipProposal,
    /// Takes ownership as the named new owner.
    ClaimOwnership,
}

/// The mathematical value of an [`ExecuteMsg`].
pub enum ExecuteMsgView<M> {
    TransferAstro,
    UpdateConfig(UpdateConfigMsgView),
    CheckMessages(Seq<ProposalMessageView<M>>),
    CheckMessagesPassed,
    ProposeNewOwner { owner: Seq<char>, expires_in: u64 },
    DropOwnershipProposal,
    ClaimOwnership,
}

impl<M> DeepView for ExecuteMsg<M> {
    type V = ExecuteMsgView<M>;

    open spec fn deep_view(&self) -> ExecuteMsgView<M> {
        match self {
            ExecuteMsg::TransferAstro => ExecuteMsgView::TransferAstro,
            ExecuteMsg::UpdateConfig(params) => ExecuteMsgView::UpdateConfig(params.deep_view()),
            ExecuteMsg::CheckMessages(messages) => ExecuteMsgView::CheckMessages(
                messages.deep_view(),
            ),
            ExecuteMsg::CheckMessagesPassed => ExecuteMsgView::CheckMessagesPassed,
            ExecuteMsg::ProposeNewOwner { owner, expires_in } => ExecuteMsgView::ProposeNewOwner {
                owner: owner@,
                expires_in: *expires_in,
            },
            ExecuteMsg::DropOwnershipProposal => ExecuteMsgView::DropOwnershipProposal,
            ExecuteMsg::ClaimOwnership => ExecuteMsgView::ClaimOwnership,
        }
    }
}

} // verus!

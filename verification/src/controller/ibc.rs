//! The controller's side of the channel: the handshake, and what it does
//! when a packet it sent is acknowledged or times out.

use crate::controller::error::{ContractError, ContractErrorView};
use crate::controller::state::{meets, Outcome, Store, StoreView};
use crate::governance::ProposalStatus;
use crate::host::{
    attr, attr_text, AttributeView, ChannelHandshake, ChannelHandshakeView, Decoded, DecodedView,
    IbcOrder, OutMsg, OutMsgView, Response, ResponseView, fire_and_forget,
};
use crate::satellite_package::{IbcAckResult, IbcAckResultView};
use crate::text::{decimal, decimal_string, reads_as};
use std::collections::HashMap;
use vstd::prelude::*;

verus! {

broadcast use vstd::std_specs::hash::group_hash_axioms;

/// The protocol version that both ends of a channel must name.
pub const IBC_APP_VERSION: &'static str = "astroport-ibc-v1";

/// What a packet of the relay carries, as far as the sender cares once it
/// is on its way.
#[derive(Clone, Copy, Debug, PartialEq, Eq, Structural)]
pub enum PacketKind {
    /// The proposal with this id.
    ExecuteProposal { id: u64 },
    /// A heartbeat.
    Heartbeat,
}

impl DeepView for PacketKind {
    type V = PacketKind;

    open spec fn deep_view(&self) -> PacketKind {
        *self
    }
}

/// An acknowledgement that came back for a packet.
#[derive(Clone, Debug, PartialEq, Eq)]
pub struct IbcPacketAckMsg {
    /// What the satellite answered.
    pub acknowledgement: Decoded<IbcAckResult>,
    /// What the packet carried.
    pub original_packet: Decoded<PacketKind>,
    /// The channel the packet left through.
    pub channel_id: String,
}

/// The mathematical value of an [`IbcPacketAckMsg`].
pub struct IbcPacketAckMsgView {
    pub acknowledgement: DecodedView<IbcAckResultView>,
    pub original_packet: DecodedView<PacketKind>,
    pub channel_id: Seq<char>,
}

impl DeepView for IbcPacketAckMsg {
    type V = IbcPacketAckMsgView;

    open spec fn deep_view(&self) -> IbcPacketAckMsgView {
        IbcPacketAckMsgView {
            acknowledgement: self.acknowledgement.deep_view(),
            original_packet: self.original_packet.deep_view(),
            channel_id: self.channel_id@,
        }
    }
}

/// The news that a packet timed out.
#[derive(Clone, Debug, PartialEq, Eq)]
pub struct IbcPacketTimeoutMsg {
    /// What the packet carried.
    pub packet: Decoded<PacketKind>,
    /// The channel the packet left through.
    pub channel_id: String,
}

/// The mathematical value of an [`IbcPacketTimeoutMsg`].
pub struct IbcPacketTimeoutMsgView {
    pub packet: DecodedView<PacketKind>,
    pub channel_id: Seq<char>,
}

impl DeepView for IbcPacketTimeoutMsg {
    type V = IbcPacketTimeoutMsgView;

    open spec fn deep_view(&self) -> IbcPacketTimeoutMsgView {
        IbcPacketTimeoutMsgView { packet: self.packet.deep_view(), channel_id: self.channel_id@ }
    }
}

/// Why a channel with these parameters may not be opened, if it may not.
pub open spec fn open_refusal(channel: ChannelHandshakeView) -> Option<ContractErrorView> {
    if channel.order != IbcOrder::Unordered {
        Some(ContractErrorView::InvalidOrdering)
    } else if channel.version != IBC_APP_VERSION@ {
        Some(ContractErrorView::InvalidVersion)
    } else if channel.counterparty_version is Some && channel.counterparty_version->0
        != IBC_APP_VERSION@ {
        Some(ContractErrorView::InvalidCounterpartyVersion)
    } else {
        None
    }
}

/// Why the other side's answer in the handshake is not accepted, if it is not.
pub open spec fn connect_refusal(channel: ChannelHandshakeView) -> Option<ContractErrorView> {
    if channel.counterparty_version is Some && channel.counterparty_version->0
        != IBC_APP_VERSION@ {
        Some(ContractErrorView::InvalidCounterpartyVersion)
    } else {
        None
    }
}

/// The response to a step of the handshake that was accepted.
pub open spec fn connect_response<M>(channel_id: Seq<char>) -> ResponseView<M> {
    ResponseView {
        messages: seq![],
        attributes: seq![
            AttributeView { key: "action"@, value: "ibc_connect"@ },
            AttributeView { key: "channel_id"@, value: channel_id },
        ],
    }
}

/// Vets the parameters of a channel that is about to be opened: it must be
/// unordered and both ends must name [`IBC_APP_VERSION`]. Returns the
/// version this side speaks. Nothing is stored.
pub fn ibc_channel_open(msg: &ChannelHandshake) -> (result: Result<String, ContractError>)
    ensures
        match open_refusal(msg.deep_view()) {
            Some(error) => result matches Err(e) && e.deep_view() == error,
            None => result matches Ok(version) && version@ == IBC_APP_VERSION@,
        },
{
    match msg.order {
        IbcOrder::Unordered => {},
        IbcOrder::Ordered => {
            return Err(ContractError::InvalidOrdering);
        },
    }
    if !reads_as(&msg.version, IBC_APP_VERSION) {
        return Err(ContractError::InvalidVersion);
    }
    if let Some(counter_version) = &msg.counterparty_version {
        if !reads_as(counter_version, IBC_APP_VERSION) {
            return Err(ContractError::InvalidCounterpartyVersion);
        }
    }
    Ok(String::from_str(IBC_APP_VERSION))
}

/// Vets the other side's answer once the channel is open: where it names
/// a version, that must be [`IBC_APP_VERSION`]. Nothing is stored.
pub fn ibc_channel_connect<M>(msg: &ChannelHandshake) -> (result: Result<Response<M>, ContractError>)
    ensures
        match connect_refusal(msg.deep_view()) {
            Some(error) => result matches Err(e) && e.deep_view() == error,
            None => result matches Ok(response) && response.deep_view() == connect_response::<M>(
                msg.channel_id@,
            ),
        },
{
    if let Some(counter_version) = &msg.counterparty_version {
        if !reads_as(counter_version, IBC_APP_VERSION) {
            return Err(ContractError::InvalidCounterpartyVersion);
        }
    }
    let mut response = Response::new();
    response.add_attribute(attr_text("action", "ibc_connect"));
    response.add_attribute(attr("channel_id", msg.channel_id.clone()));
    assert(response.deep_view().attributes =~= connect_response::<M>(msg.channel_id@).attributes);
    Ok(response)
}

/// Refuses to close a channel, whoever asks.
pub fn ibc_channel_close<M>(msg: &ChannelHandshake) -> (result: Result<Response<M>, ContractError>)
    ensures
        result matches Err(e) && e.deep_view() == ContractErrorView::ChannelCloseNotAllowed,
{
    Err(ContractError::ChannelCloseNotAllowed)
}

/// Why the proposal `id` cannot be given its final status, if it cannot:
/// it was never dispatched, or it has its final status already.
pub open spec fn finalize_refusal(
    proposal_state: Map<u64, ProposalStatus>,
    id: u64,
) -> Option<ContractErrorView> {
    if !proposal_state.contains_key(id) {
        Some(ContractErrorView::ProposalNotFound { proposal_id: id })
    } else if proposal_state[id] != ProposalStatus::InProgress {
        Some(
            ContractErrorView::ProposalAlreadyFinalized {
                proposal_id: id,
                status: proposal_state[id],
            },
        )
    } else {
        None
    }
}

/// Moves the proposal `id` from `InProgress` to `status`. A proposal that
/// was never dispatched, or that has its final status already, is refused
/// and nothing changes.
pub fn finalize(proposal_state: &mut HashMap<u64, ProposalStatus>, id: u64, status: ProposalStatus) -> (result:
    Result<(), ContractError>)
    ensures
        match finalize_refusal(old(proposal_state)@, id) {
            Some(error) => {
                &&& result matches Err(e)
                &&& e.deep_view() == error
                &&& *final(proposal_state) == *old(proposal_state)
            },
            None => result is Ok && final(proposal_state)@ == old(proposal_state)@.insert(
                id,
                status,
            ),
        },
{
    let current = match proposal_state.get(&id) {
        None => {
            return Err(ContractError::ProposalNotFound { proposal_id: id });
        },
        Some(status) => *status,
    };
    match current {
        ProposalStatus::InProgress => {
            proposal_state.insert(id, status);
            Ok(())
        },
        _ => Err(ContractError::ProposalAlreadyFinalized { proposal_id: id, status: current }),
    }
}

/// The response that tells the governance body at `owner` how the proposal
/// `id` ended, and names the `action` that ended it.
pub open spec fn completion_response<M>(
    owner: Seq<char>,
    id: u64,
    status: ProposalStatus,
    action: Seq<char>,
) -> ResponseView<M> {
    ResponseView {
        messages: seq![
            fire_and_forget(
                OutMsgView::ProposalCompleted { contract_addr: owner, proposal_id: id, status },
            ),
        ],
        attributes: seq![
            AttributeView { key: "action"@, value: action },
            AttributeView { key: "proposal_id"@, value: decimal(id as nat) },
        ],
    }
}

/// The response to news of a heartbeat, which changes nothing.
pub open spec fn heartbeat_response<M>(action: Seq<char>, channel_id: Seq<char>) -> ResponseView<M> {
    ResponseView {
        messages: seq![],
        attributes: seq![
            AttributeView { key: "action"@, value: action },
            AttributeView { key: "channel_id"@, value: channel_id },
        ],
    }
}

fn report_completion<M>(owner: &String, id: u64, status: ProposalStatus, action: &str) -> (response:
    Response<M>)
    ensures
        response.deep_view() == completion_response::<M>(owner@, id, status, action@),
{
    let mut response = Response::new();
    response.add_message(
        OutMsg::ProposalCompleted { contract_addr: owner.clone(), proposal_id: id, status },
    );
    response.add_attribute(attr_text("action", action));
    response.add_attribute(attr("proposal_id", decimal_string(id)));
    assert(response.deep_view().messages =~= completion_response::<M>(
        owner@,
        id,
        status,
        action@,
    ).messages);
    assert(response.deep_view().attributes =~= completion_response::<M>(
        owner@,
        id,
        status,
        action@,
    ).attributes);
    response
}

fn report_heartbeat<M>(action: &str, channel_id: String) -> (response: Response<M>)
    ensures
        response.deep_view() == heartbeat_response::<M>(action@, channel_id@),
{
    let mut response = Response::new();
    response.add_attribute(attr_text("action", action));
    response.add_attribute(attr("channel_id", channel_id));
    assert(response.deep_view().attributes =~= heartbeat_response::<M>(
        action@,
        channel_id@,
    ).attributes);
    response
}

/// The status that an acknowledgement gives a proposal.
pub open spec fn acknowledged_status(ack: IbcAckResultView) -> ProposalStatus {
    match ack {
        IbcAckResultView::Success(_) => ProposalStatus::Executed,
        IbcAckResultView::Error(_) => ProposalStatus::Failed,
    }
}

/// The error text that an acknowledgement carries: empty for a success.
pub open spec fn acknowledged_error(ack: IbcAckResultView) -> Seq<char> {
    match ack {
        IbcAckResultView::Success(_) => Seq::<char>::empty(),
        IbcAckResultView::Error(reason) => reason,
    }
}

/// The store after the proposal `id` got its final status; `last_error` is
/// the error text to keep, where the news carries one.
pub open spec fn finalized(
    store: StoreView,
    id: u64,
    status: ProposalStatus,
    last_error: Option<Seq<char>>,
) -> StoreView {
    StoreView {
        proposal_state: store.proposal_state.insert(id, status),
        last_error: match last_error {
            Some(text) => Some(text),
            None => store.last_error,
        },
        ..store
    }
}

/// What the news of how the proposal `id` ended leads to: the proposal gets
/// its final status, the error text is kept where the news carries one, and
/// the governance body is told under the name of `action`. News of a
/// proposal that was never dispatched, or that ended before, is refused.
pub open spec fn settle_outcome<M>(
    store: StoreView,
    id: u64,
    status: ProposalStatus,
    last_error: Option<Seq<char>>,
    action: Seq<char>,
) -> Outcome<M> {
    match finalize_refusal(store.proposal_state, id) {
        Some(error) => Err(error),
        None => Ok(
            (
                finalized(store, id, status, last_error),
                completion_response(store.config.owner, id, status, action),
            ),
        ),
    }
}

/// What an acknowledgement leads to.
///
/// For a proposal that is `InProgress`, a success makes it `Executed` and
/// an error makes it `Failed`; the error text is kept (empty on success).
/// For a heartbeat nothing is stored. An acknowledgement or a packet that
/// could not be read is refused with the reader's reason.
pub open spec fn ack_outcome<M>(store: StoreView, msg: IbcPacketAckMsgView) -> Outcome<M> {
    match (msg.acknowledgement, msg.original_packet) {
        (DecodedView::Malformed(reason), _) => Err(ContractErrorView::Std(reason)),
        (DecodedView::Value(_), DecodedView::Malformed(reason)) => Err(
            ContractErrorView::Std(reason),
        ),
        (DecodedView::Value(_), DecodedView::Value(PacketKind::Heartbeat)) => Ok(
            (store, heartbeat_response("heartbeat_ack"@, msg.channel_id)),
        ),
        (DecodedView::Value(ack), DecodedView::Value(PacketKind::ExecuteProposal { id })) => {
            settle_outcome(
                store,
                id,
                acknowledged_status(ack),
                Some(acknowledged_error(ack)),
                "proposal_ack"@,
            )
        },
    }
}

/// Takes in the acknowledgement of a packet. Whenever the call fails,
/// nothing changes.
pub fn ibc_packet_ack<M>(store: &mut Store, msg: IbcPacketAckMsg) -> (result: Result<
    Response<M>,
    ContractError,
>)
    ensures
        meets(
            ack_outcome(old(store).deep_view(), msg.deep_view()),
            *old(store),
            *final(store),
            result,
        ),
{
    let ack = match msg.acknowledgement {
        Decoded::Malformed(reason) => {
            return Err(ContractError::Std(reason));
        },
        Decoded::Value(ack) => ack,
    };
    let kind = match msg.original_packet {
        Decoded::Malformed(reason) => {
            return Err(ContractError::Std(reason));
        },
        Decoded::Value(kind) => kind,
    };
    match kind {
        PacketKind::Heartbeat => Ok(report_heartbeat("heartbeat_ack", msg.channel_id)),
        PacketKind::ExecuteProposal { id } => {
            let (status, error_text) = match ack {
                IbcAckResult::Success(_) => (ProposalStatus::Executed, String::new()),
                IbcAckResult::Error(reason) => (ProposalStatus::Failed, reason),
            };
            match finalize(&mut store.proposal_state, id, status) {
                Err(error) => Err(error),
                Ok(()) => {
                    store.last_error = Some(error_text);
                    Ok(report_completion(&store.config.owner, id, status, "proposal_ack"))
                },
            }
        },
    }
}

/// What the news of a timeout leads to.
///
/// A proposal that is `InProgress` becomes `Failed`; the kept error text
/// stays as it is. For a heartbeat nothing is stored. A packet that could
/// not be read is refused with the reader's reason.
pub open spec fn timeout_outcome<M>(store: StoreView, msg: IbcPacketTimeoutMsgView) -> Outcome<M> {
    match msg.packet {
        DecodedView::Malformed(reason) => Err(ContractErrorView::Std(reason)),
        DecodedView::Value(PacketKind::Heartbeat) => Ok(
            (store, heartbeat_response("heartbeat_timeout"@, msg.channel_id)),
        ),
        DecodedView::Value(PacketKind::ExecuteProposal { id }) => settle_outcome(
            store,
            id,
            ProposalStatus::Failed,
            None,
            "proposal_timeout"@,
        ),
    }
}

/// Takes in the news that a packet timed out. Whenever the call fails,
/// nothing changes.
pub fn ibc_packet_timeout<M>(store: &mut Store, msg: IbcPacketTimeoutMsg) -> (result: Result<
    Response<M>,
    ContractError,
>)
    ensures
        meets(
            timeout_outcome(old(store).deep_view(), msg.deep_view()),
            *old(store),
            *final(store),
            result,
        ),
{
    let kind = match msg.packet {
        Decoded::Malformed(reason) => {
            return Err(ContractError::Std(reason));
        },
        Decoded::Value(kind) => kind,
    };
    match kind {
        PacketKind::Heartbeat => Ok(report_heartbeat("heartbeat_timeout", msg.channel_id)),
        PacketKind::ExecuteProposal { id } => {
            match finalize(&mut store.proposal_state, id, ProposalStatus::Failed) {
                Err(error) => Err(error),
                Ok(()) => Ok(
                    report_completion(
                        &store.config.owner,
                        id,
                        ProposalStatus::Failed,
                        "proposal_timeout",
                    ),
                ),
            }
        },
    }
}

} // verus!

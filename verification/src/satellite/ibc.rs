//! The satellite's side of the channel: the handshake, the acknowledgement
//! it returns, and what it does with a packet from the hub.

use crate::controller_package::{IbcProposal, IbcProposalView};
use crate::host::{
    attr, attr_text, AttributeView, ChannelHandshake, ChannelHandshakeView, Decoded, DecodedView,
    Env, IbcOrder, IbcReceiveResponse, IbcReceiveResponseView, Response, ResponseView,
};
use crate::satellite::batch::{execution_plan, plan_execution, running_order, sort_by_order};
use crate::satellite::error::{message_text, ContractError, ContractErrorView, Never};
use crate::satellite::state::{store_proposal, Store, StoreView};
use crate::satellite_package::{IbcAckResult, IbcAckResultView, SatelliteMsg, SatelliteMsgView};
use crate::text::reads_as;
use vstd::prelude::*;

verus! {

/// The protocol version that both ends of a channel must name.
pub const IBC_APP_VERSION: &'static str = "astroport-ibc-v1";

/// The JSON string literal, quotes and escapes included, that stands for `text`.
pub uninterp spec fn json_string(text: Seq<char>) -> Seq<u8>;

/// The base64 text, padding included, that stands for `bytes`.
pub uninterp spec fn base64_text(bytes: Seq<u8>) -> Seq<char>;

/// Calls `cosmwasm_std::to_json_vec` on a string, which writes the string
/// as a JSON string literal and cannot fail on one. The contract gives
/// the bytes a name and says no more of them.
#[verifier::external_body]
fn json_string_bytes(text: &str) -> (bytes: Vec<u8>)
    ensures
        bytes@ == json_string(text@),
{
    cosmwasm_std::to_json_vec(text).unwrap_or_default()
}

/// Calls `cosmwasm_std::Binary::to_base64`. The contract gives the text a
/// name and says no more of it.
#[verifier::external_body]
fn base64_string(bytes: &Vec<u8>) -> (text: String)
    ensures
        text@ == base64_text(bytes@),
{
    cosmwasm_std::Binary::from(bytes.as_slice()).to_base64()
}

/// The bytes `{"ok":`.
pub open spec fn success_prefix() -> Seq<u8> {
    seq![123u8, 34u8, 111u8, 107u8, 34u8, 58u8]
}

/// The bytes `{"error":`.
pub open spec fn error_prefix() -> Seq<u8> {
    seq![123u8, 34u8, 101u8, 114u8, 114u8, 111u8, 114u8, 34u8, 58u8]
}

/// The bytes that open an acknowledgement: those of a success where
/// `accepted` holds, those of an error where it does not.
pub open spec fn ack_prefix(accepted: bool) -> Seq<u8> {
    if accepted {
        success_prefix()
    } else {
        error_prefix()
    }
}

/// A value between the opening bytes of an acknowledgement and the
/// closing brace.
pub open spec fn framed(accepted: bool, value: Seq<u8>) -> Seq<u8> {
    ack_prefix(accepted) + value + seq![125u8]
}

/// An acknowledgement as it goes on the wire: a JSON object with the one
/// key `ok`, over the answer in base64, or `error`, over the reason.
pub open spec fn ack_bytes(ack: IbcAckResultView) -> Seq<u8> {
    match ack {
        IbcAckResultView::Success(data) => framed(true, json_string(base64_text(data))),
        IbcAckResultView::Error(reason) => framed(false, json_string(reason)),
    }
}

/// Puts a value that is encoded already into the frame of an
/// acknowledgement: behind `{"ok":` where `accepted` holds, behind
/// `{"error":` where it does not, and before the closing brace.
pub fn frame_ack(accepted: bool, value: Vec<u8>) -> (bytes: Vec<u8>)
    ensures
        bytes@ == framed(accepted, value@),
{
    let mut value = value;
    let ghost inner = value@;
    let mut bytes: Vec<u8> = Vec::new();
    bytes.push(123);
    bytes.push(34);
    if accepted {
        bytes.push(111);
        bytes.push(107);
    } else {
        bytes.push(101);
        bytes.push(114);
        bytes.push(114);
        bytes.push(111);
        bytes.push(114);
    }
    bytes.push(34);
    bytes.push(58);
    bytes.append(&mut value);
    bytes.push(125);
    assert(bytes@ =~= framed(accepted, inner));
    bytes
}

/// Puts an acknowledgement in the form in which it goes on the wire.
pub fn encode_ack(ack: &IbcAckResult) -> (bytes: Vec<u8>)
    ensures
        bytes@ == ack_bytes(ack.deep_view()),
{
    match ack {
        IbcAckResult::Success(data) => {
            let text = base64_string(data);
            frame_ack(true, json_string_bytes(text.as_str()))
        },
        IbcAckResult::Error(reason) => frame_ack(false, json_string_bytes(reason.as_str())),
    }
}

/// The answer that the satellite gives to every packet it accepts: the two letters `ok`.
pub open spec fn accepted() -> IbcAckResultView {
    IbcAckResultView::Success(seq![111u8, 107u8])
}

/// The acknowledgement of a packet that was accepted, as it goes on the wire.
pub fn ack_ok() -> (bytes: Vec<u8>)
    ensures
        bytes@ == ack_bytes(accepted()),
{
    let mut answer: Vec<u8> = Vec::new();
    answer.push(111);
    answer.push(107);
    assert(answer@ =~= seq![111u8, 107u8]);
    encode_ack(&IbcAckResult::Success(answer))
}

/// The acknowledgement of a packet that was refused with `error`, as it
/// goes on the wire.
pub fn ack_fail(error: &ContractError) -> (bytes: Vec<u8>)
    ensures
        bytes@ == ack_bytes(IbcAckResultView::Error(message_text(error.deep_view()))),
{
    encode_ack(&IbcAckResult::Error(error.message()))
}

/// Why a channel with these parameters may not be opened, if it may not.
pub open spec fn open_refusal(channel: ChannelHandshakeView) -> Option<ContractErrorView> {
    if channel.order != IbcOrder::Unordered {
        Some(ContractErrorView::InvalidOrdering)
    } else if channel.version != IBC_APP_VERSION@ {
        Some(ContractErrorView::InvalidVersion)
    } else if channel.counterparty_version is Some && channel.counterparty_version->0
        != IBC_APP_VERSION@ {
        Some(ContractErrorView::InvalidCounterpartyVersion)
    } else {
        None
    }
}

/// Vets the parameters of a channel that is about to be opened: it must be
/// unordered and both ends must name [`IBC_APP_VERSION`]. Returns the
/// version this side speaks. Nothing is stored.
pub fn ibc_channel_open(msg: &ChannelHandshake) -> (result: Result<String, ContractError>)
    ensures
        match open_refusal(msg.deep_view()) {
            Some(error) => result matches Err(e) && e.deep_view() == error,
            None => result matches Ok(version) && version@ == IBC_APP_VERSION@,
        },
{
    match msg.order {
        IbcOrder::Unordered => {},
        IbcOrder::Ordered => {
            return Err(ContractError::InvalidOrdering);
        },
    }
    if !reads_as(&msg.version, IBC_APP_VERSION) {
        return Err(ContractError::InvalidVersion);
    }
    if let Some(counter_version) = &msg.counterparty_version {
        if !reads_as(counter_version, IBC_APP_VERSION) {
            return Err(ContractError::InvalidCounterpartyVersion);
        }
    }
    Ok(String::from_str(IBC_APP_VERSION))
}

/// Why the channel that the handshake has opened is not taken as the
/// governance channel, if it is not: the other side names another version,
/// a governance channel exists already, or the other side is not the
/// configured controller.
pub open spec fn connect_refusal(store: StoreView, channel: ChannelHandshakeView) -> Option<
    ContractErrorView,
> {
    if channel.counterparty_version is Some && channel.counterparty_version->0
        != IBC_APP_VERSION@ {
        Some(ContractErrorView::InvalidCounterpartyVersion)
    } else if store.config.gov_channel is Some {
        Some(ContractErrorView::ChannelAlreadyEstablished { channel_id: store.config.gov_channel->0 })
    } else if channel.counterparty_port_id != store.config.main_controller_port {
        Some(
            ContractErrorView::InvalidSourcePort {
                invalid: channel.counterparty_port_id,
                valid: store.config.main_controller_port,
            },
        )
    } else {
        None
    }
}

/// The response to a channel that was taken as the governance channel.
pub open spec fn connect_response<M>(channel_id: Seq<char>) -> ResponseView<M> {
    ResponseView {
        messages: seq![],
        attributes: seq![
            AttributeView { key: "action"@, value: "ibc_connect"@ },
            AttributeView { key: "channel_id"@, value: channel_id },
        ],
    }
}

/// Takes the channel that the handshake has opened as the governance
/// channel and records it. While a governance channel is on record, every
/// further channel is refused and the record stays as it is.
pub fn ibc_channel_connect<M>(store: &mut Store, msg: &ChannelHandshake) -> (result: Result<
    Response<M>,
    ContractError,
>)
    ensures
        match connect_refusal(old(store).deep_view(), msg.deep_view()) {
            Some(error) => {
                &&& result matches Err(e)
                &&& e.deep_view() == error
                &&& *final(store) == *old(store)
            },
            None => {
                &&& result matches Ok(response)
                &&& response.deep_view() == connect_response::<M>(msg.channel_id@)
                &&& final(store).deep_view() == (StoreView {
                    config: crate::satellite::state::ConfigView {
                        gov_channel: Some(msg.channel_id@),
                        ..old(store).deep_view().config
                    },
                    ..old(store).deep_view()
                })
            },
        },
{
    if let Some(counter_version) = &msg.counterparty_version {
        if !reads_as(counter_version, IBC_APP_VERSION) {
            return Err(ContractError::InvalidCounterpartyVersion);
        }
    }
    if let Some(channel_id) = &store.config.gov_channel {
        return Err(ContractError::ChannelAlreadyEstablished { channel_id: channel_id.clone() });
    }
    if msg.counterparty_port_id != store.config.main_controller_port {
        return Err(
            ContractError::InvalidSourcePort {
                invalid: msg.counterparty_port_id.clone(),
                valid: store.config.main_controller_port.clone(),
            },
        );
    }
    store.config.gov_channel = Some(msg.channel_id.clone());
    let mut response = Response::new();
    response.add_attribute(attr_text("action", "ibc_connect"));
    response.add_attribute(attr("channel_id", msg.channel_id.clone()));
    assert(response.deep_view().attributes =~= connect_response::<M>(msg.channel_id@).attributes);
    Ok(response)
}

/// Refuses to close a channel, whoever asks. Nothing is stored.
pub fn ibc_channel_close<M>(msg: &ChannelHandshake) -> (result: Result<Response<M>, ContractError>)
    ensures
        result matches Err(e) && e.deep_view() == ContractErrorView::ChannelCloseNotAllowed,
{
    Err(ContractError::ChannelCloseNotAllowed)
}

/// A packet that arrived. Its bytes were tried as an envelope of the
/// current shape and as a proposal of the older, flat shape.
#[derive(Clone, Debug, PartialEq, Eq)]
pub struct IbcPacketReceiveMsg<M> {
    /// The channel on this side over which the packet came.
    pub dest_channel_id: String,
    /// The packet's content read as an envelope.
    pub current: Decoded<SatelliteMsg<M>>,
    /// The packet's content read as a flat proposal.
    pub legacy: Decoded<IbcProposal<M>>,
}

/// The mathematical value of an [`IbcPacketReceiveMsg`].
pub struct IbcPacketReceiveMsgView<M> {
    pub dest_channel_id: Seq<char>,
    pub current: DecodedView<SatelliteMsgView<M>>,
    pub legacy: DecodedView<IbcProposalView<M>>,
}

impl<M> DeepView for IbcPacketReceiveMsg<M> {
    type V = IbcPacketReceiveMsgView<M>;

    open spec fn deep_view(&self) -> IbcPacketReceiveMsgView<M> {
        IbcPacketReceiveMsgView {
            dest_channel_id: self.dest_channel_id@,
            current: self.current.deep_view(),
            legacy: self.legacy.deep_view(),
        }
    }
}

/// The envelope that a packet holds: what it reads as in the current
/// shape, else what it reads as in the flat shape, which is a proposal;
/// else the reason why it does not read as that either.
pub open spec fn envelope_of<M>(
    current: DecodedView<SatelliteMsgView<M>>,
    legacy: DecodedView<IbcProposalView<M>>,
) -> Result<SatelliteMsgView<M>, ContractErrorView> {
    match current {
        DecodedView::Value(envelope) => Ok(envelope),
        DecodedView::Malformed(_) => match legacy {
            DecodedView::Value(proposal) => Ok(
                SatelliteMsgView::ExecuteProposal { id: proposal.id, messages: proposal.messages },
            ),
            DecodedView::Malformed(reason) => Err(ContractErrorView::Std(reason)),
        },
    }
}

/// Picks the envelope out of the two readings of a packet.
pub fn select_envelope<M>(
    current: Decoded<SatelliteMsg<M>>,
    legacy: Decoded<IbcProposal<M>>,
) -> (result: Result<SatelliteMsg<M>, ContractError>)
    ensures
        match envelope_of(current.deep_view(), legacy.deep_view()) {
            Ok(envelope) => result matches Ok(e) && e.deep_view() == envelope,
            Err(error) => result matches Err(e) && e.deep_view() == error,
        },
{
    match current {
        Decoded::Value(envelope) => Ok(envelope),
        Decoded::Malformed(_) => match legacy {
            Decoded::Value(proposal) => Ok(
                SatelliteMsg::ExecuteProposal { id: proposal.id, messages: proposal.messages },
            ),
            Decoded::Malformed(reason) => Err(ContractError::Std(reason)),
        },
    }
}

/// Why a packet over `dest_channel_id` is refused before it is read, if
/// it is: no governance channel exists, or it came over another channel.
pub open spec fn channel_refusal(store: StoreView, dest_channel_id: Seq<char>) -> Option<
    ContractErrorView,
> {
    match store.config.gov_channel {
        None => Some(ContractErrorView::GovernanceChannelNotFound),
        Some(gov_channel) => if gov_channel != dest_channel_id {
            Some(
                ContractErrorView::InvalidGovernanceChannel {
                    invalid: dest_channel_id,
                    valid: gov_channel,
                },
            )
        } else {
            None
        },
    }
}

/// What accepting an envelope leads to.
///
/// The hub counts as heard from at `now`, whatever the envelope holds. A
/// heartbeat changes nothing else. A proposal without messages is recorded
/// as completed at once, at `height`, and the slot for an awaited callback
/// is not touched. A proposal with messages is not recorded: its messages
/// go out in running order, the last of them calling back, and the
/// proposal's id is put in the slot. The acknowledgement says `ok` in each
/// case: it stands for acceptance, not for completion.
pub open spec fn accept_outcome<M>(
    store: StoreView,
    now: u64,
    height: u64,
    envelope: SatelliteMsgView<M>,
) -> (StoreView, IbcReceiveResponseView<M>) {
    let heard = StoreView { latest_hub_signal_time: now, ..store };
    let quiet = IbcReceiveResponseView {
        acknowledgement: ack_bytes(accepted()),
        messages: seq![],
        attributes: seq![AttributeView { key: "action"@, value: "ibc_packet_receive"@ }],
    };
    match envelope {
        SatelliteMsgView::Heartbeat => (heard, quiet),
        SatelliteMsgView::ExecuteProposal { id, messages } => if messages.len() == 0 {
            (StoreView { results: store.results.insert(id, height), ..heard }, quiet)
        } else {
            (
                StoreView { reply_data: Some(id), ..heard },
                IbcReceiveResponseView {
                    messages: execution_plan(running_order(messages)),
                    ..quiet
                },
            )
        },
    }
}

/// What a packet leads to: it is refused where it did not come over the
/// governance channel or holds no envelope, and accepted otherwise.
pub open spec fn receive_outcome<M>(
    store: StoreView,
    now: u64,
    height: u64,
    msg: IbcPacketReceiveMsgView<M>,
) -> Result<(StoreView, IbcReceiveResponseView<M>), ContractErrorView> {
    match channel_refusal(store, msg.dest_channel_id) {
        Some(error) => Err(error),
        None => match envelope_of(msg.current, msg.legacy) {
            Err(error) => Err(error),
            Ok(envelope) => Ok(accept_outcome(store, now, height, envelope)),
        },
    }
}

/// Handles a packet from the hub, and fails where the packet is refused.
/// A refused packet changes nothing.
pub fn do_packet_receive<M>(store: &mut Store, env: &Env, msg: IbcPacketReceiveMsg<M>) -> (result:
    Result<IbcReceiveResponse<M>, ContractError>)
    ensures
        match receive_outcome(
            old(store).deep_view(),
            env.block.time,
            env.block.height,
            msg.deep_view(),
        ) {
            Ok((after, response)) => {
                &&& result matches Ok(r)
                &&& r.deep_view() == response
                &&& final(store).deep_view() == after
            },
            Err(error) => {
                &&& result matches Err(e)
                &&& e.deep_view() == error
                &&& *final(store) == *old(store)
            },
        },
{
    match &store.config.gov_channel {
        None => {
            return Err(ContractError::GovernanceChannelNotFound);
        },
        Some(gov_channel) => {
            if *gov_channel != msg.dest_channel_id {
                return Err(
                    ContractError::InvalidGovernanceChannel {
                        invalid: msg.dest_channel_id,
                        valid: gov_channel.clone(),
                    },
                );
            }
        },
    }
    let envelope = match select_envelope(msg.current, msg.legacy) {
        Err(error) => {
            return Err(error);
        },
        Ok(envelope) => envelope,
    };
    let mut attributes = Vec::new();
    attributes.push(attr_text("action", "ibc_packet_receive"));
    assert(attributes.deep_view() =~= seq![
        AttributeView { key: "action"@, value: "ibc_packet_receive"@ },
    ]);
    let mut response = IbcReceiveResponse {
        acknowledgement: ack_ok(),
        messages: Vec::new(),
        attributes,
    };
    assert(response.messages.deep_view() =~= Seq::empty());
    match envelope {
        SatelliteMsg::ExecuteProposal { id, messages } => {
            if messages.len() > 0 {
                let sorted = sort_by_order(messages);
                response.messages = plan_execution(sorted);
                store.reply_data = Some(id);
            } else {
                assert(messages.deep_view().len() == 0);
                store_proposal(store, env, id);
            }
        },
        SatelliteMsg::Heartbeat => {},
    }
    store.latest_hub_signal_time = env.block.time;
    Ok(response)
}

/// The response to a packet that was refused with `error`: the refusal
/// goes into the acknowledgement, and nothing else is asked of the host.
pub open spec fn refused<M>(error: ContractErrorView) -> IbcReceiveResponseView<M> {
    IbcReceiveResponseView {
        acknowledgement: ack_bytes(IbcAckResultView::Error(message_text(error))),
        messages: seq![],
        attributes: seq![AttributeView { key: "action"@, value: "ibc_packet_receive"@ }],
    }
}

/// Handles a packet from the hub. The call itself never fails: a packet
/// that is refused is answered with an acknowledgement that carries the
/// reason, and changes nothing.
pub fn ibc_packet_receive<M>(store: &mut Store, env: &Env, msg: IbcPacketReceiveMsg<M>) -> (result:
    Result<IbcReceiveResponse<M>, Never>)
    ensures
        result is Ok,
        match receive_outcome(
            old(store).deep_view(),
            env.block.time,
            env.block.height,
            msg.deep_view(),
        ) {
            Ok((after, response)) => {
                &&& result->Ok_0.deep_view() == response
                &&& final(store).deep_view() == after
            },
            Err(error) => {
                &&& result->Ok_0.deep_view() == refused::<M>(error)
                &&& *final(store) == *old(store)
            },
        },
{
    match do_packet_receive(store, env, msg) {
        Ok(response) => Ok(response),
        Err(error) => {
            let mut attributes = Vec::new();
            attributes.push(attr_text("action", "ibc_packet_receive"));
            let response = IbcReceiveResponse {
                acknowledgement: ack_fail(&error),
                messages: Vec::new(),
                attributes,
            };
            assert(response.messages.deep_view() =~= Seq::empty());
            assert(response.attributes.deep_view() =~= seq![
                AttributeView { key: "action"@, value: "ibc_packet_receive"@ },
            ]);
            Ok(response)
        },
    }
}

} // verus!

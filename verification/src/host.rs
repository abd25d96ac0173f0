//! Plain-value models of what the host chain hands to a contract and takes
//! back from it: block data, callers, coins, channel handshakes, responses.

use crate::governance::ProposalStatus;
use crate::satellite_package::{SatelliteMsg, SatelliteMsgView};
use vstd::prelude::*;

verus! {

/// An amount of one denomination.
#[derive(Debug, PartialEq, Eq)]
pub struct Coin {
    pub denom: String,
    pub amount: u128,
}

/// The mathematical value of a [`Coin`].
pub struct CoinView {
    pub denom: Seq<char>,
    pub amount: u128,
}

impl DeepView for Coin {
    type V = CoinView;

    open spec fn deep_view(&self) -> CoinView {
        CoinView { denom: self.denom@, amount: self.amount }
    }
}

impl Clone for Coin {
    fn clone(&self) -> (copy: Coin)
        ensures
            copy.deep_view() == self.deep_view(),
    {
        Coin { denom: self.denom.clone(), amount: self.amount }
    }
}

/// A key and a value that a response reports to the chain's event log.
#[derive(Clone, Debug, PartialEq, Eq)]
pub struct Attribute {
    pub key: String,
    pub value: String,
}

/// The mathematical value of an [`Attribute`].
pub struct AttributeView {
    pub key: Seq<char>,
    pub value: Seq<char>,
}

impl DeepView for Attribute {
    type V = AttributeView;

    open spec fn deep_view(&self) -> AttributeView {
        AttributeView { key: self.key@, value: self.value@ }
    }
}

/// An attribute made of a literal key and a value.
pub fn attr(key: &str, value: String) -> (attribute: Attribute)
    ensures
        attribute.deep_view() == (AttributeView { key: key@, value: value@ }),
{
    Attribute { key: String::from_str(key), value }
}

/// An attribute made of two literals.
pub fn attr_text(key: &str, value: &str) -> (attribute: Attribute)
    ensures
        attribute.deep_view() == (AttributeView { key: key@, value: value@ }),
{
    Attribute { key: String::from_str(key), value: String::from_str(value) }
}

/// The block in which a call runs. `time` counts nanoseconds since the epoch.
#[derive(Clone, Copy, Debug, PartialEq, Eq, Structural)]
pub struct BlockInfo {
    pub height: u64,
    pub time: u64,
}

/// Where and when a call runs.
#[derive(Clone, Debug, PartialEq, Eq)]
pub struct Env {
    pub block: BlockInfo,
    pub contract_address: String,
}

/// The mathematical value of an [`Env`].
pub struct EnvView {
    pub block: BlockInfo,
    pub contract_address: Seq<char>,
}

impl DeepView for Env {
    type V = EnvView;

    open spec fn deep_view(&self) -> EnvView {
        EnvView { block: self.block, contract_address: self.contract_address@ }
    }
}

/// Who calls, and what coins came with the call.
#[derive(Clone, Debug, PartialEq, Eq)]
pub struct MessageInfo {
    pub sender: String,
    pub funds: Vec<Coin>,
}

/// The mathematical value of a [`MessageInfo`].
pub struct MessageInfoView {
    pub sender: Seq<char>,
    pub funds: Seq<CoinView>,
}

impl DeepView for MessageInfo {
    type V = MessageInfoView;

    open spec fn deep_view(&self) -> MessageInfoView {
        MessageInfoView { sender: self.sender@, funds: self.funds.deep_view() }
    }
}

/// What the host said of an address it was asked to validate: `None` where
/// it accepted the address as written, else the reason it gave.
pub type AddrVerdict = Option<String>;

/// Delivery order of a channel.
#[derive(Clone, Copy, Debug, PartialEq, Eq, Structural)]
pub enum IbcOrder {
    Unordered,
    Ordered,
}

/// The parameters of a channel as one step of its handshake presents them.
#[derive(Clone, Debug, PartialEq, Eq)]
pub struct ChannelHandshake {
    /// The channel's identifier on this side.
    pub channel_id: String,
    /// The port that the other side speaks from.
    pub counterparty_port_id: String,
    pub order: IbcOrder,
    /// The protocol version this side was asked to speak.
    pub version: String,
    /// The protocol version the other side named, where the step carries one.
    pub counterparty_version: Option<String>,
}

/// The mathematical value of a [`ChannelHandshake`].
pub struct ChannelHandshakeView {
    pub channel_id: Seq<char>,
    pub counterparty_port_id: Seq<char>,
    pub order: IbcOrder,
    pub version: Seq<char>,
    pub counterparty_version: Option<Seq<char>>,
}

impl DeepView for ChannelHandshake {
    type V = ChannelHandshakeView;

    open spec fn deep_view(&self) -> ChannelHandshakeView {
        ChannelHandshakeView {
            channel_id: self.channel_id@,
            counterparty_port_id: self.counterparty_port_id@,
            order: self.order,
            version: self.version@,
            counterparty_version: self.counterparty_version.deep_view(),
        }
    }
}

/// What came of decoding bytes from the wire.
#[derive(Clone, Debug, PartialEq, Eq)]
pub enum Decoded<T> {
    /// The bytes held this value.
    Value(T),
    /// The bytes held no value of the expected shape, for the reason given.
    Malformed(String),
}

/// The mathematical value of a [`Decoded`].
pub enum DecodedView<V> {
    Value(V),
    Malformed(Seq<char>),
}

impl<T: DeepView> DeepView for Decoded<T> {
    type V = DecodedView<T::V>;

    open spec fn deep_view(&self) -> DecodedView<T::V> {
        match self {
            Decoded::Value(value) => DecodedView::Value(value.deep_view()),
            Decoded::Malformed(reason) => DecodedView::Malformed(reason@),
        }
    }
}

/// When the host calls back after a sub-message ran.
#[derive(Clone, Copy, Debug, PartialEq, Eq, Structural)]
pub enum ReplyOn {
    Always,
    Error,
    Success,
    Never,
}

/// The fees that a relayer is paid for carrying a packet, by stage.
#[derive(Clone, Debug, PartialEq, Eq)]
pub struct IbcFee {
    pub recv_fee: Vec<Coin>,
    pub ack_fee: Vec<Coin>,
    pub timeout_fee: Vec<Coin>,
}

/// The mathematical value of an [`IbcFee`].
pub struct IbcFeeView {
    pub recv_fee: Seq<CoinView>,
    pub ack_fee: Seq<CoinView>,
    pub timeout_fee: Seq<CoinView>,
}

impl DeepView for IbcFee {
    type V = IbcFeeView;

    open spec fn deep_view(&self) -> IbcFeeView {
        IbcFeeView {
            recv_fee: self.recv_fee.deep_view(),
            ack_fee: self.ack_fee.deep_view(),
            timeout_fee: self.timeout_fee.deep_view(),
        }
    }
}

/// A token transfer in the form that a chain with relayer fees asks for.
#[derive(Clone, Debug, PartialEq, Eq)]
pub struct FeeTransfer {
    pub source_port: String,
    pub source_channel: String,
    pub sender: String,
    pub receiver: String,
    pub token: Coin,
    /// Nanoseconds since the epoch after which the transfer is void.
    pub timeout_timestamp: u64,
    pub memo: String,
    pub fee: IbcFee,
}

/// The mathematical value of a [`FeeTransfer`].
pub struct FeeTransferView {
    pub source_port: Seq<char>,
    pub source_channel: Seq<char>,
    pub sender: Seq<char>,
    pub receiver: Seq<char>,
    pub token: CoinView,
    pub timeout_timestamp: u64,
    pub memo: Seq<char>,
    pub fee: IbcFeeView,
}

impl DeepView for FeeTransfer {
    type V = FeeTransferView;

    open spec fn deep_view(&self) -> FeeTransferView {
        FeeTransferView {
            source_port: self.source_port@,
            source_channel: self.source_channel@,
            sender: self.sender@,
            receiver: self.receiver@,
            token: self.token.deep_view(),
            timeout_timestamp: self.timeout_timestamp,
            memo: self.memo@,
            fee: self.fee.deep_view(),
        }
    }
}

/// A message that a contract of the relay asks the host to carry out. Times
/// count nanoseconds since the epoch.
#[derive(Clone, Debug, PartialEq, Eq)]
pub enum OutMsg<M> {
    /// Send `data` to the satellite behind `channel_id`; void after `timeout`.
    SendPacket { channel_id: String, data: SatelliteMsg<M>, timeout: u64 },
    /// Move `amount` to `to_address` on the chain behind `channel_id`.
    Transfer { channel_id: String, to_address: String, amount: Coin, timeout: u64 },
    /// Tell the governance body at `contract_addr` how a proposal ended.
    ProposalCompleted { contract_addr: String, proposal_id: u64, status: ProposalStatus },
    /// Call the satellite at `contract_addr`, which is the caller itself,
    /// with the message that ends a check of messages.
    CheckMessagesPassed { contract_addr: String },
    /// Make `admin` the admin of the contract at `contract_addr`.
    UpdateAdmin { contract_addr: String, admin: String },
    /// Move a token with relayer fees.
    FeeTransfer(FeeTransfer),
    /// A message of a proposal, handed on as it came.
    Proposal(M),
}

/// The mathematical value of an [`OutMsg`].
pub enum OutMsgView<M> {
    SendPacket { channel_id: Seq<char>, data: SatelliteMsgView<M>, timeout: u64 },
    Transfer { channel_id: Seq<char>, to_address: Seq<char>, amount: CoinView, timeout: u64 },
    ProposalCompleted { contract_addr: Seq<char>, proposal_id: u64, status: ProposalStatus },
    CheckMessagesPassed { contract_addr: Seq<char> },
    UpdateAdmin { contract_addr: Seq<char>, admin: Seq<char> },
    FeeTransfer(FeeTransferView),
    Proposal(M),
}

impl<M> DeepView for OutMsg<M> {
    type V = OutMsgView<M>;

    open spec fn deep_view(&self) -> OutMsgView<M> {
        match self {
            OutMsg::SendPacket { channel_id, data, timeout } => OutMsgView::SendPacket {
                channel_id: channel_id@,
                data: data.deep_view(),
                timeout: *timeout,
            },
            OutMsg::Transfer { channel_id, to_address, amount, timeout } => OutMsgView::Transfer {
                channel_id: channel_id@,
                to_address: to_address@,
                amount: amount.deep_view(),
                timeout: *timeout,
            },
            OutMsg::ProposalCompleted { contract_addr, proposal_id, status } => {
                OutMsgView::ProposalCompleted {
                    contract_addr: contract_addr@,
                    proposal_id: *proposal_id,
                    status: *status,
                }
            },
            OutMsg::CheckMessagesPassed { contract_addr } => OutMsgView::CheckMessagesPassed {
                contract_addr: contract_addr@,
            },
            OutMsg::UpdateAdmin { contract_addr, admin } => OutMsgView::UpdateAdmin {
                contract_addr: contract_addr@,
                admin: admin@,
            },
            OutMsg::FeeTransfer(transfer) => OutMsgView::FeeTransfer(transfer.deep_view()),
            OutMsg::Proposal(msg) => OutMsgView::Proposal(*msg),
        }
    }
}

/// A message together with the callback the sender wants for it.
#[derive(Clone, Debug, PartialEq, Eq)]
pub struct SubMsg<M> {
    /// Tells the callbacks of one contract apart; 0 where none is wanted.
    pub id: u64,
    pub msg: OutMsg<M>,
    pub reply_on: ReplyOn,
}

/// The mathematical value of a [`SubMsg`].
pub struct SubMsgView<M> {
    pub id: u64,
    pub msg: OutMsgView<M>,
    pub reply_on: ReplyOn,
}

impl<M> DeepView for SubMsg<M> {
    type V = SubMsgView<M>;

    open spec fn deep_view(&self) -> SubMsgView<M> {
        SubMsgView { id: self.id, msg: self.msg.deep_view(), reply_on: self.reply_on }
    }
}

/// The sub-message that asks for no callback.
pub open spec fn fire_and_forget<M>(msg: OutMsgView<M>) -> SubMsgView<M> {
    SubMsgView { id: 0, msg, reply_on: ReplyOn::Never }
}

impl<M> SubMsg<M> {
    /// Wraps a message so that no callback follows it.
    pub fn new(msg: OutMsg<M>) -> (sub: SubMsg<M>)
        ensures
            sub.deep_view() == fire_and_forget(msg.deep_view()),
    {
        SubMsg { id: 0, msg, reply_on: ReplyOn::Never }
    }
}

/// What a call hands back to the host: messages to run, in order, and
/// attributes for the event log.
#[derive(Clone, Debug, PartialEq, Eq)]
pub struct Response<M> {
    pub messages: Vec<SubMsg<M>>,
    pub attributes: Vec<Attribute>,
}

/// The mathematical value of a [`Response`].
pub struct ResponseView<M> {
    pub messages: Seq<SubMsgView<M>>,
    pub attributes: Seq<AttributeView>,
}

impl<M> DeepView for Response<M> {
    type V = ResponseView<M>;

    open spec fn deep_view(&self) -> ResponseView<M> {
        ResponseView {
            messages: self.messages.deep_view(),
            attributes: self.attributes.deep_view(),
        }
    }
}

impl<M> Response<M> {
    /// The response that asks for nothing and reports nothing.
    pub fn new() -> (response: Response<M>)
        ensures
            response.deep_view() == (ResponseView::<M> { messages: seq![], attributes: seq![] }),
    {
        let response = Response { messages: Vec::new(), attributes: Vec::new() };
        assert(response.messages.deep_view() =~= seq![]);
        assert(response.attributes.deep_view() =~= seq![]);
        response
    }

    /// Adds an attribute after those already there.
    pub fn add_attribute(&mut self, attribute: Attribute)
        ensures
            final(self).deep_view() == (ResponseView {
                messages: old(self).deep_view().messages,
                attributes: old(self).deep_view().attributes.push(attribute.deep_view()),
            }),
    {
        self.attributes.push(attribute);
        assert(self.attributes.deep_view() =~= old(self).attributes.deep_view().push(
            attribute.deep_view(),
        ));
    }

    /// Adds a sub-message after those already there.
    pub fn add_submessage(&mut self, sub: SubMsg<M>)
        ensures
            final(self).deep_view() == (ResponseView {
                messages: old(self).deep_view().messages.push(sub.deep_view()),
                attributes: old(self).deep_view().attributes,
            }),
    {
        self.messages.push(sub);
        assert(self.messages.deep_view() =~= old(self).messages.deep_view().push(
            sub.deep_view(),
        ));
    }

    /// Adds a message, with no callback, after those already there.
    pub fn add_message(&mut self, msg: OutMsg<M>)
        ensures
            final(self).deep_view() == (ResponseView {
                messages: old(self).deep_view().messages.push(fire_and_forget(msg.deep_view())),
                attributes: old(self).deep_view().attributes,
            }),
    {
        self.add_submessage(SubMsg::new(msg));
    }
}

/// What the handler of a received packet hands back: the acknowledgement
/// for the sender, messages to run, and attributes for the event log.
#[derive(Clone, Debug, PartialEq, Eq)]
pub struct IbcReceiveResponse<M> {
    pub acknowledgement: Vec<u8>,
    pub messages: Vec<SubMsg<M>>,
    pub attributes: Vec<Attribute>,
}

/// The mathematical value of an [`IbcReceiveResponse`].
pub struct IbcReceiveResponseView<M> {
    pub acknowledgement: Seq<u8>,
    pub messages: Seq<SubMsgView<M>>,
    pub attributes: Seq<AttributeView>,
}

impl<M> DeepView for IbcReceiveResponse<M> {
    type V = IbcReceiveResponseView<M>;

    open spec fn deep_view(&self) -> IbcReceiveResponseView<M> {
        IbcReceiveResponseView {
            acknowledgement: self.acknowledgement@,
            messages: self.messages.deep_view(),
            attributes: self.attributes.deep_view(),
        }
    }
}

} // verus!

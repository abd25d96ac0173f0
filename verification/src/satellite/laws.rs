//! What holds of the satellite over any run of calls.

use crate::clock::seconds_after;
use crate::governance::ProposalMessageView;
use crate::host::{
    fire_and_forget, ChannelHandshakeView, IbcOrder, OutMsgView, ReplyOn, ResponseView,
};
use crate::satellite::batch::{
    is_running_order, running_order, running_order_sorts_and_keeps_ties, running_places, RECEIVE_ID,
};
use crate::satellite::contract::{
    check_outcome, execute_outcome, reply_outcome, unchanged, vetting_outcome, HostAnswersView,
    Reply,
};
use crate::satellite::error::ContractErrorView;
use crate::satellite::ibc::{
    accept_outcome, channel_refusal, connect_refusal, open_refusal, receive_outcome,
    IbcPacketReceiveMsgView, IBC_APP_VERSION,
};
use crate::satellite::state::{
    escalation_outcome, patch_outcome, update_config_outcome, Outcome, StoreView,
};
use crate::satellite_package::{ExecuteMsgView, SatelliteMsgView, UpdateConfigMsgView};
use vstd::prelude::*;

verus! {

/// While a governance channel is on record, a further channel whose other
/// side names the relay's version, or none, is refused as established
/// already, with the channel on record named in the refusal.
pub proof fn second_channel_is_refused(store: StoreView, channel: ChannelHandshakeView)
    requires
        store.config.gov_channel is Some,
        channel.counterparty_version is Some ==> channel.counterparty_version->0
            == IBC_APP_VERSION@,
    ensures
        connect_refusal(store, channel) == Some(
            ContractErrorView::ChannelAlreadyEstablished {
                channel_id: store.config.gov_channel->0,
            },
        ),
{
}

/// A packet that comes while no governance channel exists, or over
/// another channel than the governance channel, is refused, whatever it
/// holds.
pub proof fn foreign_packet_is_refused<M>(
    store: StoreView,
    now: u64,
    height: u64,
    msg: IbcPacketReceiveMsgView<M>,
)
    requires
        store.config.gov_channel != Some(msg.dest_channel_id),
    ensures
        receive_outcome(store, now, height, msg) is Err,
        store.config.gov_channel is None ==> receive_outcome(store, now, height, msg)->Err_0
            == ContractErrorView::GovernanceChannelNotFound,
        store.config.gov_channel is Some ==> receive_outcome(store, now, height, msg)->Err_0
            == (ContractErrorView::InvalidGovernanceChannel {
            invalid: msg.dest_channel_id,
            valid: store.config.gov_channel->0,
        }),
        channel_refusal(store, msg.dest_channel_id) is Some,
{
}

/// A proposal without messages is completed when it is accepted: it is on
/// record at the height of the call, no message goes out, and the slot
/// for an awaited callback is as it was, so empty where it was empty.
pub proof fn empty_proposal_is_completed_at_once<M>(
    store: StoreView,
    now: u64,
    height: u64,
    id: u64,
)
    ensures
        ({
            let (after, response) = accept_outcome(
                store,
                now,
                height,
                SatelliteMsgView::<M>::ExecuteProposal { id, messages: seq![] },
            );
            &&& after.results.contains_key(id)
            &&& after.results[id] == height
            &&& after.reply_data == store.reply_data
            &&& response.messages.len() == 0
        }),
{
}

/// A proposal with messages is not completed when it is accepted: the
/// record of completed proposals is as it was, and the proposal's id
/// waits in the slot. Of the sub-messages that go out, one for each
/// message, only the last calls back, under the satellite's own number
/// and on success. That callback, and no callback under another number,
/// completes the proposal at the height at which it comes, and empties
/// the slot.
pub proof fn proposal_is_completed_by_its_callback<M>(
    store: StoreView,
    now: u64,
    height: u64,
    id: u64,
    messages: Seq<ProposalMessageView<M>>,
    callback_height: u64,
    other: Reply,
)
    requires
        messages.len() > 0,
        other.id != RECEIVE_ID,
    ensures
        ({
            let (after, response) = accept_outcome(
                store,
                now,
                height,
                SatelliteMsgView::ExecuteProposal { id, messages },
            );
            let done = reply_outcome::<M>(after, callback_height, Reply { id: RECEIVE_ID });
            &&& after.results == store.results
            &&& after.reply_data == Some(id)
            &&& response.messages.len() == messages.len()
            &&& forall|i: int|
                0 <= i < response.messages.len() - 1 ==> (#[trigger] response.messages[i]).reply_on
                    == ReplyOn::Never
            &&& response.messages.last().reply_on == ReplyOn::Success
            &&& response.messages.last().id == RECEIVE_ID
            &&& done is Ok
            &&& done->Ok_0.0.results == store.results.insert(id, callback_height)
            &&& done->Ok_0.0.reply_data is None
            &&& reply_outcome::<M>(after, callback_height, other) == Outcome::<M>::Err(
                ContractErrorView::InvalidReplyId,
            )
        }),
{
    running_order_sorts_and_keeps_ties(messages);
    assert(is_running_order(messages, running_order(messages), running_places(messages)));
}

/// Whatever an envelope that is accepted holds, the hub counts as heard
/// from at the time of the call, and the settings stay as they are.
pub proof fn accepted_packet_resets_the_clock<M>(
    store: StoreView,
    now: u64,
    height: u64,
    envelope: SatelliteMsgView<M>,
)
    ensures
        accept_outcome(store, now, height, envelope).0.latest_hub_signal_time == now,
        accept_outcome(store, now, height, envelope).0.config == store.config,
        !accept_outcome(store, now, height, envelope).0.is_outage(now),
{
    assert(crate::clock::seconds_after(now, store.config.max_signal_outage) >= now) by (nonlinear_arith)
        requires
            crate::clock::seconds_after(now, store.config.max_signal_outage) == now
                + store.config.max_signal_outage * 1_000_000_000,
            store.config.max_signal_outage >= 0,
    ;
}

/// The emergency owner's powers depend on the hub's silence at the time
/// of the call. While no more than the tolerated time has passed since
/// the hub was last heard from, an emergency owner who is not the owner
/// as well is refused as unauthorized, both with its patch of the settings
/// and with its bid for the admin role. Once more has passed, the bid
/// succeeds, and the patch is judged on its content alone.
pub proof fn emergency_owner_acts_only_in_an_outage<M>(
    store: StoreView,
    now: u64,
    contract: Seq<char>,
    params: UpdateConfigMsgView,
    addr_error: Option<Seq<char>>,
)
    ensures
        store.is_outage(now) <==> now > seconds_after(
            store.latest_hub_signal_time,
            store.config.max_signal_outage,
        ),
        !store.is_outage(now) && store.config.emergency_owner != store.config.owner ==> {
            &&& escalation_outcome::<M>(store, store.config.emergency_owner, now, contract)
                == Outcome::<M>::Err(ContractErrorView::Unauthorized)
            &&& update_config_outcome::<M>(
                store,
                store.config.emergency_owner,
                now,
                params,
                addr_error,
            ) == Outcome::<M>::Err(ContractErrorView::Unauthorized)
        },
        store.is_outage(now) ==> {
            &&& escalation_outcome::<M>(store, store.config.emergency_owner, now, contract) is Ok
            &&& update_config_outcome::<M>(
                store,
                store.config.emergency_owner,
                now,
                params,
                addr_error,
            ) is Ok <==> patch_outcome(store.config, params, addr_error) is Ok
            &&& patch_outcome(store.config, params, addr_error) matches Err(error)
                ==> update_config_outcome::<M>(
                store,
                store.config.emergency_owner,
                now,
                params,
                addr_error,
            ) == Outcome::<M>::Err(error)
        },
{
}

/// The owner hands the admin role to the emergency owner at any time,
/// outage or not: the outcome does not depend on the time of the call, it
/// leaves the store as it is, and it asks for the one message that makes
/// the emergency owner the admin of the satellite.
pub proof fn owner_escalates_at_any_time<M>(
    store: StoreView,
    now: u64,
    another_time: u64,
    contract: Seq<char>,
)
    ensures
        escalation_outcome::<M>(store, store.config.owner, now, contract) is Ok,
        escalation_outcome::<M>(store, store.config.owner, now, contract) == escalation_outcome::<
            M,
        >(store, store.config.owner, another_time, contract),
        ({
            let (after, response) = escalation_outcome::<M>(
                store,
                store.config.owner,
                now,
                contract,
            )->Ok_0;
            &&& after == store
            &&& response.attributes.len() == 0
            &&& response.messages == seq![
                fire_and_forget(
                    OutMsgView::<M>::UpdateAdmin {
                        contract_addr: contract,
                        admin: store.config.emergency_owner,
                    },
                ),
            ]
        }),
{
}

/// A check of messages is for the satellite itself: from any other
/// sender it is refused as unauthorized, whatever the messages are, and
/// the store stays as it is.
pub proof fn check_is_for_the_satellite_itself<M>(
    store: StoreView,
    now: u64,
    contract: Seq<char>,
    sender: Seq<char>,
    messages: Seq<ProposalMessageView<M>>,
    answers: HostAnswersView,
)
    requires
        sender != contract,
    ensures
        check_outcome(sender, contract, messages) == Err::<ResponseView<M>, ContractErrorView>(
            ContractErrorView::Unauthorized,
        ),
        execute_outcome(
            store,
            now,
            contract,
            sender,
            ExecuteMsgView::CheckMessages(messages),
            answers,
        ) == Outcome::<M>::Err(ContractErrorView::Unauthorized),
        execute_outcome(
            store,
            now,
            contract,
            contract,
            ExecuteMsgView::CheckMessages(messages),
            answers,
        ) == unchanged(store, vetting_outcome(contract, messages)),
{
}

/// A channel that is ordered, or that names another version than the
/// relay's, is not opened.
pub proof fn wrong_channel_is_not_opened(channel: ChannelHandshakeView)
    requires
        channel.order != IbcOrder::Unordered || channel.version != IBC_APP_VERSION@,
    ensures
        open_refusal(channel) is Some,
        channel.order != IbcOrder::Unordered ==> open_refusal(channel) == Some(
            ContractErrorView::InvalidOrdering,
        ),
        channel.order == IbcOrder::Unordered ==> open_refusal(channel) == Some(
            ContractErrorView::InvalidVersion,
        ),
{
}

/// The owner's patch of the settings is never refused for want of
/// authority, outage or not: it is judged on its content alone.
pub proof fn owner_configures_at_any_time<M>(
    store: StoreView,
    now: u64,
    params: UpdateConfigMsgView,
    addr_error: Option<Seq<char>>,
)
    ensures
        update_config_outcome::<M>(store, store.config.owner, now, params, addr_error) is Ok
            <==> patch_outcome(store.config, params, addr_error) is Ok,
        patch_outcome(store.config, params, addr_error) matches Ok(config)
            ==> update_config_outcome::<M>(
            store,
            store.config.owner,
            now,
            params,
            addr_error,
        )->Ok_0.0.config == config,
        patch_outcome(store.config, params, addr_error) matches Err(error)
            ==> update_config_outcome::<M>(store, store.config.owner, now, params, addr_error)
            == Outcome::<M>::Err(error),
{
}

/// Anyone who is neither the owner nor the emergency owner is refused,
/// outage or not.
pub proof fn strangers_are_refused<M>(
    store: StoreView,
    sender: Seq<char>,
    now: u64,
    contract: Seq<char>,
    params: UpdateConfigMsgView,
    addr_error: Option<Seq<char>>,
)
    requires
        sender != store.config.owner,
        sender != store.config.emergency_owner,
    ensures
        update_config_outcome::<M>(store, sender, now, params, addr_error) == Outcome::<M>::Err(
            ContractErrorView::Unauthorized,
        ),
        escalation_outcome::<M>(store, sender, now, contract) == Outcome::<M>::Err(
            ContractErrorView::Unauthorized,
        ),
{
}

} // verus!

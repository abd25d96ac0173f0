//! What holds of the controller's bookkeeping over any run of calls.

use crate::clock::seconds_after;
use crate::controller::contract::dispatch_outcome;
use crate::controller::error::ContractErrorView;
use crate::controller::ibc::{
    ack_outcome, finalize_refusal, open_refusal, settle_outcome, timeout_outcome,
    IbcPacketAckMsgView, IbcPacketTimeoutMsgView, PacketKind, IBC_APP_VERSION,
};
use crate::controller::state::{Outcome, StoreView};
use crate::governance::{ProposalMessageView, ProposalStatus};
use crate::host::{ChannelHandshakeView, DecodedView, IbcOrder};
use vstd::prelude::*;

verus! {

/// A proposal gets its final status once. After news of its end was taken
/// in, be it an acknowledgement or a timeout, the proposal has a final
/// status, and every further acknowledgement and every further timeout
/// for it is refused as finalized already, with the status it has.
pub proof fn final_status_is_reached_once<M>(
    store: StoreView,
    id: u64,
    status: ProposalStatus,
    last_error: Option<Seq<char>>,
    action: Seq<char>,
    later_ack: IbcPacketAckMsgView,
    later_timeout: IbcPacketTimeoutMsgView,
)
    requires
        status.is_terminal(),
        settle_outcome::<M>(store, id, status, last_error, action) is Ok,
        later_ack.acknowledgement is Value,
        later_ack.original_packet == DecodedView::Value(PacketKind::ExecuteProposal { id }),
        later_timeout.packet == DecodedView::Value(PacketKind::ExecuteProposal { id }),
    ensures
        ({
            let after = settle_outcome::<M>(store, id, status, last_error, action)->Ok_0.0;
            let refusal = ContractErrorView::ProposalAlreadyFinalized { proposal_id: id, status };
            &&& store.proposal_state[id] == ProposalStatus::InProgress
            &&& after.proposal_state[id] == status
            &&& ack_outcome::<M>(after, later_ack) == Outcome::<M>::Err(refusal)
            &&& timeout_outcome::<M>(after, later_timeout) == Outcome::<M>::Err(refusal)
        }),
{
}

/// Taking in news of one proposal leaves the status of every other
/// proposal as it was.
pub proof fn other_proposals_keep_their_status<M>(
    store: StoreView,
    id: u64,
    status: ProposalStatus,
    last_error: Option<Seq<char>>,
    action: Seq<char>,
    other: u64,
)
    requires
        other != id,
        settle_outcome::<M>(store, id, status, last_error, action) is Ok,
    ensures
        ({
            let after = settle_outcome::<M>(store, id, status, last_error, action)->Ok_0.0;
            &&& after.proposal_state.contains_key(other) == store.proposal_state.contains_key(other)
            &&& store.proposal_state.contains_key(other) ==> after.proposal_state[other]
                == store.proposal_state[other]
        }),
{
}

/// A proposal id is dispatched once. The owner's dispatch of an id that is
/// on record, in progress or ended, is refused as existing already; the
/// owner's dispatch of a fresh id, at a time from which the timeout can be
/// counted, succeeds and records the proposal as in progress.
pub proof fn dispatch_records_each_id_once<M>(
    store: StoreView,
    now: u64,
    channel_id: Seq<char>,
    id: u64,
    messages: Seq<ProposalMessageView<M>>,
)
    ensures
        store.proposal_state.contains_key(id) ==> dispatch_outcome(
            store,
            now,
            store.config.owner,
            channel_id,
            id,
            messages,
        ) == Outcome::<M>::Err(ContractErrorView::ProposalAlreadyExists { proposal_id: id }),
        !store.proposal_state.contains_key(id) && seconds_after(now, store.config.timeout)
            <= u64::MAX ==> {
            let outcome = dispatch_outcome(
                store,
                now,
                store.config.owner,
                channel_id,
                id,
                messages,
            );
            &&& outcome is Ok
            &&& outcome->Ok_0.0.proposal_state.contains_key(id)
            &&& outcome->Ok_0.0.proposal_state[id] == ProposalStatus::InProgress
        },
{
}

/// News of a proposal that was never dispatched is refused as not found,
/// whether it is an acknowledgement or a timeout. (That a refused call
/// leaves the store as it was is part of what every call promises.)
pub proof fn unknown_proposal_is_not_found<M>(
    store: StoreView,
    id: u64,
    ack: IbcPacketAckMsgView,
    timeout: IbcPacketTimeoutMsgView,
)
    requires
        !store.proposal_state.contains_key(id),
        ack.acknowledgement is Value,
        ack.original_packet == DecodedView::Value(PacketKind::ExecuteProposal { id }),
        timeout.packet == DecodedView::Value(PacketKind::ExecuteProposal { id }),
    ensures
        ack_outcome::<M>(store, ack) == Outcome::<M>::Err(
            ContractErrorView::ProposalNotFound { proposal_id: id },
        ),
        timeout_outcome::<M>(store, timeout) == Outcome::<M>::Err(
            ContractErrorView::ProposalNotFound { proposal_id: id },
        ),
        finalize_refusal(store.proposal_state, id) is Some,
{
}

/// A channel that is ordered, or that names another version than the
/// relay's, is not opened.
pub proof fn wrong_channel_is_not_opened(channel: ChannelHandshakeView)
    requires
        channel.order != IbcOrder::Unordered || channel.version != IBC_APP_VERSION@,
    ensures
        open_refusal(channel) is Some,
        channel.order != IbcOrder::Unordered ==> open_refusal(channel) == Some(
            ContractErrorView::InvalidOrdering,
        ),
        channel.order == IbcOrder::Unordered ==> open_refusal(channel) == Some(
            ContractErrorView::InvalidVersion,
        ),
{
}

} // verus!

//! The controller's entry points: set-up, the calls it takes, its queries
//! and its migration.

use crate::clock::{checked_plus_seconds, seconds_after};
use crate::controller::error::{ContractError, ContractErrorView};
use crate::controller::state::{meets, Config, ConfigView, Outcome, Store, StoreView};
use crate::controller_package::{
    ExecuteMsg, ExecuteMsgView, InstantiateMsg, InstantiateMsgView, MigrateMsg, QueryMsg,
};
use crate::governance::{ProposalMessage, ProposalMessageView, ProposalStatus};
use crate::host::{
    attr, attr_text, fire_and_forget, AddrVerdict, AttributeView, Env, MessageInfo, OutMsg,
    OutMsgView, Response, ResponseView, SubMsgView,
};
use crate::limits::timeout_limits;
use crate::ownership::{
    claim_outcome, claim_ownership, drop_ownership_proposal, propose_new_owner, propose_outcome,
    step_response,
};
use crate::satellite_package::{SatelliteMsg, SatelliteMsgView};
use crate::text::{decimal, decimal_string, reads_as};
use crate::version::{migration_attributes, report_migration, ContractVersion, ContractVersionView};
use std::collections::HashMap;
use vstd::prelude::*;

verus! {

broadcast use vstd::std_specs::hash::group_hash_axioms;

/// The name under which the controller records itself.
pub const CONTRACT_NAME: &'static str = "ibc-controller";

/// The version under which the controller records itself.
pub const CONTRACT_VERSION: &'static str = "1.0.0";

/// The record the controller keeps of its own code.
pub open spec fn own_version() -> ContractVersionView {
    ContractVersionView { contract: CONTRACT_NAME@, version: CONTRACT_VERSION@ }
}

/// The store of a controller that was just set up.
pub open spec fn fresh_store(owner: Seq<char>, timeout: u64) -> StoreView {
    StoreView {
        config: ConfigView { owner, timeout },
        proposal_state: Map::empty(),
        last_error: None,
        ownership_proposal: None,
        contract_version: own_version(),
    }
}

/// The response that names an action and does nothing else.
pub open spec fn action_response<M>(action: Seq<char>) -> ResponseView<M> {
    ResponseView {
        messages: seq![],
        attributes: seq![AttributeView { key: "action"@, value: action }],
    }
}

/// What setting the controller up leads to: a store that keeps to the
/// policy bounds, or the reason for the refusal.
pub open spec fn instantiate_outcome<M>(
    msg: InstantiateMsgView,
    owner_error: Option<Seq<char>>,
) -> Outcome<M> {
    if !timeout_limits().contains(msg.timeout) {
        Err(ContractErrorView::TimeoutLimitsError)
    } else if owner_error is Some {
        Err(ContractErrorView::Std(owner_error->0))
    } else {
        Ok((fresh_store(msg.owner, msg.timeout), action_response("instantiate"@)))
    }
}

/// Sets the controller up. The timeout must keep to the policy bounds and
/// the host must have accepted the owner's address, which `owner_error` tells.
pub fn instantiate<M>(
    env: &Env,
    info: &MessageInfo,
    msg: InstantiateMsg,
    owner_error: AddrVerdict,
) -> (result: Result<(Store, Response<M>), ContractError>)
    ensures
        match instantiate_outcome::<M>(msg.deep_view(), owner_error.deep_view()) {
            Ok((fresh, welcome)) => {
                &&& result matches Ok((store, response))
                &&& store.deep_view() == fresh
                &&& response.deep_view() == welcome
            },
            Err(error) => result matches Err(e) && e.deep_view() == error,
        },
{
    if !timeout_limits().contains(msg.timeout) {
        return Err(ContractError::TimeoutLimitsError);
    }
    if let Some(reason) = owner_error {
        return Err(ContractError::Std(reason));
    }
    let store = Store {
        config: Config { owner: msg.owner, timeout: msg.timeout },
        proposal_state: HashMap::new(),
        last_error: None,
        ownership_proposal: None,
        contract_version: ContractVersion::new(CONTRACT_NAME, CONTRACT_VERSION),
    };
    let mut response = Response::new();
    response.add_attribute(attr_text("action", "instantiate"));
    assert(response.deep_view().attributes =~= action_response::<M>("instantiate"@).attributes);
    Ok((store, response))
}

/// The response to a dispatch: the packet for the satellite, and where it goes.
pub open spec fn dispatch_response<M>(
    channel_id: Seq<char>,
    proposal_id: u64,
    messages: Seq<ProposalMessageView<M>>,
    timeout: u64,
) -> ResponseView<M> {
    ResponseView {
        messages: seq![
            fire_and_forget(
                OutMsgView::SendPacket {
                    channel_id,
                    data: SatelliteMsgView::ExecuteProposal { id: proposal_id, messages },
                    timeout,
                },
            ),
        ],
        attributes: seq![
            AttributeView { key: "action"@, value: "ibc_execute"@ },
            AttributeView { key: "channel"@, value: channel_id },
        ],
    }
}

/// What a dispatch leads to. Only the owner may dispatch, and each proposal
/// id once, whatever became of it. The packet times out the configured
/// number of seconds after `now`, and the proposal is recorded `InProgress`.
pub open spec fn dispatch_outcome<M>(
    store: StoreView,
    now: u64,
    sender: Seq<char>,
    channel_id: Seq<char>,
    proposal_id: u64,
    messages: Seq<ProposalMessageView<M>>,
) -> Outcome<M> {
    if sender != store.config.owner {
        Err(ContractErrorView::Unauthorized)
    } else if store.proposal_state.contains_key(proposal_id) {
        Err(ContractErrorView::ProposalAlreadyExists { proposal_id })
    } else if seconds_after(now, store.config.timeout) > u64::MAX {
        Err(ContractErrorView::TimeoutOverflow)
    } else {
        Ok(
            (
                StoreView {
                    proposal_state: store.proposal_state.insert(
                        proposal_id,
                        ProposalStatus::InProgress,
                    ),
                    ..store
                },
                dispatch_response(
                    channel_id,
                    proposal_id,
                    messages,
                    seconds_after(now, store.config.timeout) as u64,
                ),
            ),
        )
    }
}

/// Sends the proposal `proposal_id` to the satellite behind `channel_id`.
pub fn ibc_execute_proposal<M>(
    store: &mut Store,
    env: &Env,
    info: &MessageInfo,
    channel_id: String,
    proposal_id: u64,
    messages: Vec<ProposalMessage<M>>,
) -> (result: Result<Response<M>, ContractError>)
    ensures
        meets(
            dispatch_outcome(
                old(store).deep_view(),
                env.block.time,
                info.sender@,
                channel_id@,
                proposal_id,
                messages.deep_view(),
            ),
            *old(store),
            *final(store),
            result,
        ),
{
    if store.config.owner != info.sender {
        return Err(ContractError::Unauthorized);
    }
    if store.proposal_state.contains_key(&proposal_id) {
        return Err(ContractError::ProposalAlreadyExists { proposal_id });
    }
    let timeout = match checked_plus_seconds(env.block.time, store.config.timeout) {
        None => {
            return Err(ContractError::TimeoutOverflow);
        },
        Some(timeout) => timeout,
    };
    let mut response = Response::new();
    response.add_message(
        OutMsg::SendPacket {
            channel_id: channel_id.clone(),
            data: SatelliteMsg::ExecuteProposal { id: proposal_id, messages },
            timeout,
        },
    );
    response.add_attribute(attr_text("action", "ibc_execute"));
    response.add_attribute(attr("channel", channel_id));
    store.proposal_state.insert(proposal_id, ProposalStatus::InProgress);
    proof {
        let expected = dispatch_response(channel_id@, proposal_id, messages.deep_view(), timeout);
        assert(response.deep_view().messages =~= expected.messages);
        assert(response.deep_view().attributes =~= expected.attributes);
    }
    Ok(response)
}

/// What a change of the timeout leads to. Only the owner may change it,
/// and only within the policy bounds.
pub open spec fn update_timeout_outcome<M>(
    store: StoreView,
    sender: Seq<char>,
    new_timeout: u64,
) -> Outcome<M> {
    if sender != store.config.owner {
        Err(ContractErrorView::Unauthorized)
    } else if !timeout_limits().contains(new_timeout) {
        Err(ContractErrorView::TimeoutLimitsError)
    } else {
        Ok(
            (
                StoreView {
                    config: ConfigView { timeout: new_timeout, ..store.config },
                    ..store
                },
                ResponseView {
                    messages: seq![],
                    attributes: seq![
                        AttributeView { key: "action"@, value: "update_timeout"@ },
                        AttributeView { key: "timeout"@, value: decimal(new_timeout as nat) },
                    ],
                },
            ),
        )
    }
}

/// Sets the packet timeout.
pub fn update_timeout<M>(store: &mut Store, info: &MessageInfo, new_timeout: u64) -> (result:
    Result<Response<M>, ContractError>)
    ensures
        meets(
            update_timeout_outcome(old(store).deep_view(), info.sender@, new_timeout),
            *old(store),
            *final(store),
            result,
        ),
{
    if store.config.owner != info.sender {
        return Err(ContractError::Unauthorized);
    }
    if !timeout_limits().contains(new_timeout) {
        return Err(ContractError::TimeoutLimitsError);
    }
    store.config.timeout = new_timeout;
    let mut response = Response::new();
    response.add_attribute(attr_text("action", "update_timeout"));
    response.add_attribute(attr("timeout", decimal_string(new_timeout)));
    proof {
        let expected = update_timeout_outcome::<M>(
            old(store).deep_view(),
            info.sender@,
            new_timeout,
        )->Ok_0.1;
        assert(response.deep_view().attributes =~= expected.attributes);
    }
    Ok(response)
}

/// The heartbeat packets for `channels`, one for each, in their order.
pub open spec fn heartbeat_packets<M>(channels: Seq<Seq<char>>, timeout: u64) -> Seq<SubMsgView<M>> {
    Seq::new(
        channels.len(),
        |i: int|
            fire_and_forget(
                OutMsgView::SendPacket {
                    channel_id: channels[i],
                    data: SatelliteMsgView::Heartbeat,
                    timeout,
                },
            ),
    )
}

/// The attributes that report heartbeats for `channels`.
pub open spec fn heartbeat_attributes(channels: Seq<Seq<char>>) -> Seq<AttributeView> {
    seq![AttributeView { key: "action"@, value: "send_heartbeat"@ }] + Seq::new(
        channels.len(),
        |i: int| AttributeView { key: "channel"@, value: channels[i] },
    )
}

/// What sending heartbeats leads to. Anyone may send them; nothing is
/// stored. Each packet times out the configured number of seconds after `now`.
pub open spec fn heartbeat_outcome<M>(store: StoreView, now: u64, channels: Seq<Seq<char>>) -> Outcome<
    M,
> {
    if channels.len() > 0 && seconds_after(now, store.config.timeout) > u64::MAX {
        Err(ContractErrorView::TimeoutOverflow)
    } else {
        Ok(
            (
                store,
                ResponseView {
                    messages: heartbeat_packets(
                        channels,
                        seconds_after(now, store.config.timeout) as u64,
                    ),
                    attributes: heartbeat_attributes(channels),
                },
            ),
        )
    }
}

/// Sends a heartbeat over each of the channels.
pub fn send_heartbeat<M>(store: &Store, env: &Env, channels: Vec<String>) -> (result: Result<
    Response<M>,
    ContractError,
>)
    ensures
        match heartbeat_outcome::<M>(store.deep_view(), env.block.time, channels.deep_view()) {
            Ok((_, response)) => result matches Ok(r) && r.deep_view() == response,
            Err(error) => result matches Err(e) && e.deep_view() == error,
        },
{
    let mut response = Response::new();
    response.add_attribute(attr_text("action", "send_heartbeat"));
    if channels.len() == 0 {
        proof {
            let expected = heartbeat_outcome::<M>(
                store.deep_view(),
                env.block.time,
                channels.deep_view(),
            )->Ok_0.1;
            assert(response.deep_view().messages =~= expected.messages);
            assert(response.deep_view().attributes =~= expected.attributes);
        }
        return Ok(response);
    }
    let timeout = match checked_plus_seconds(env.block.time, store.config.timeout) {
        None => {
            return Err(ContractError::TimeoutOverflow);
        },
        Some(timeout) => timeout,
    };
    let ghost wanted = channels.deep_view();
    let mut i: usize = 0;
    while i < channels.len()
        invariant
            i <= channels.len(),
            wanted == channels.deep_view(),
            response.deep_view().messages == heartbeat_packets::<M>(wanted, timeout).subrange(
                0,
                i as int,
            ),
            response.deep_view().attributes == heartbeat_attributes(wanted).subrange(0, i + 1),
        decreases channels.len() - i,
    {
        let channel = channels[i].clone();
        response.add_message(
            OutMsg::SendPacket {
                channel_id: channel.clone(),
                data: SatelliteMsg::Heartbeat,
                timeout,
            },
        );
        response.add_attribute(attr("channel", channel));
        i = i + 1;
        proof {
            assert(response.deep_view().messages =~= heartbeat_packets::<M>(
                wanted,
                timeout,
            ).subrange(0, i as int));
            assert(response.deep_view().attributes =~= heartbeat_attributes(wanted).subrange(
                0,
                i + 1,
            ));
        }
    }
    proof {
        assert(response.deep_view().messages =~= heartbeat_packets::<M>(wanted, timeout));
        assert(response.deep_view().attributes =~= heartbeat_attributes(wanted));
    }
    Ok(response)
}

/// What a call leads to, by the message it brings. `new_owner_error` is the
/// host's verdict on the address that `ProposeNewOwner` names, and counts
/// for that message only.
pub open spec fn execute_outcome<M>(
    store: StoreView,
    now: u64,
    sender: Seq<char>,
    msg: ExecuteMsgView<M>,
    new_owner_error: Option<Seq<char>>,
) -> Outcome<M> {
    match msg {
        ExecuteMsgView::IbcExecuteProposal { channel_id, proposal_id, messages } => {
            dispatch_outcome(store, now, sender, channel_id, proposal_id, messages)
        },
        ExecuteMsgView::UpdateTimeout { new_timeout } => update_timeout_outcome(
            store,
            sender,
            new_timeout,
        ),
        ExecuteMsgView::ProposeNewOwner { owner, expires_in } => match propose_outcome(
            sender,
            store.config.owner,
            owner,
            new_owner_error,
            expires_in,
            now,
        ) {
            Ok(proposal) => Ok(
                (
                    StoreView { ownership_proposal: Some(proposal), ..store },
                    step_response("propose_new_owner"@, Some(owner)),
                ),
            ),
            Err(error) => Err(ContractErrorView::Ownership(error)),
        },
        ExecuteMsgView::DropOwnershipProposal => if sender == store.config.owner {
            Ok(
                (
                    StoreView { ownership_proposal: None, ..store },
                    step_response("drop_ownership_proposal"@, None),
                ),
            )
        } else {
            Err(ContractErrorView::Ownership(crate::ownership::OwnershipErrorView::Unauthorized))
        },
        ExecuteMsgView::ClaimOwnership => match claim_outcome(
            store.ownership_proposal,
            sender,
            now,
        ) {
            Ok(new_owner) => Ok(
                (
                    StoreView {
                        config: ConfigView { owner: new_owner, ..store.config },
                        ownership_proposal: None,
                        ..store
                    },
                    step_response("claim_ownership"@, Some(new_owner)),
                ),
            ),
            Err(error) => Err(ContractErrorView::Ownership(error)),
        },
        ExecuteMsgView::SendHeartbeat { channels } => heartbeat_outcome(store, now, channels),
    }
}

/// Carries out a call. Whenever the call fails, the store is left as it was.
pub fn execute<M>(
    store: &mut Store,
    env: &Env,
    info: &MessageInfo,
    msg: ExecuteMsg<M>,
    new_owner_error: AddrVerdict,
) -> (result: Result<Response<M>, ContractError>)
    ensures
        meets(
            execute_outcome(
                old(store).deep_view(),
                env.block.time,
                info.sender@,
                msg.deep_view(),
                new_owner_error.deep_view(),
            ),
            *old(store),
            *final(store),
            result,
        ),
{
    match msg {
        ExecuteMsg::IbcExecuteProposal { channel_id, proposal_id, messages } => {
            ibc_execute_proposal(store, env, info, channel_id, proposal_id, messages)
        },
        ExecuteMsg::UpdateTimeout { new_timeout } => update_timeout(store, info, new_timeout),
        ExecuteMsg::ProposeNewOwner { owner, expires_in } => {
            match propose_new_owner(
                &mut store.ownership_proposal,
                info,
                env,
                owner,
                new_owner_error,
                expires_in,
                &store.config.owner,
            ) {
                Ok(response) => Ok(response),
                Err(error) => Err(ContractError::Ownership(error)),
            }
        },
        ExecuteMsg::DropOwnershipProposal => {
            match drop_ownership_proposal(&mut store.ownership_proposal, info, &store.config.owner) {
                Ok(response) => Ok(response),
                Err(error) => Err(ContractError::Ownership(error)),
            }
        },
        ExecuteMsg::ClaimOwnership => {
            match claim_ownership(
                &mut store.ownership_proposal,
                &mut store.config.owner,
                info,
                env,
            ) {
                Ok(response) => Ok(response),
                Err(error) => Err(ContractError::Ownership(error)),
            }
        },
        ExecuteMsg::SendHeartbeat { channels } => send_heartbeat(store, env, channels),
    }
}

/// The answer to a query.
#[derive(Clone, Debug, PartialEq, Eq)]
pub enum QueryResponse {
    /// The status of the proposal asked about.
    ProposalState(ProposalStatus),
    /// The error text of the latest acknowledgement of a proposal.
    LastError(String),
}

/// The mathematical value of a [`QueryResponse`].
pub enum QueryResponseView {
    ProposalState(ProposalStatus),
    LastError(Seq<char>),
}

impl DeepView for QueryResponse {
    type V = QueryResponseView;

    open spec fn deep_view(&self) -> QueryResponseView {
        match self {
            QueryResponse::ProposalState(status) => QueryResponseView::ProposalState(*status),
            QueryResponse::LastError(text) => QueryResponseView::LastError(text@),
        }
    }
}

/// The answer that the store holds to a query, or what is missing.
pub open spec fn query_outcome(store: StoreView, msg: QueryMsg) -> Result<
    QueryResponseView,
    ContractErrorView,
> {
    match msg {
        QueryMsg::ProposalState { id } => if store.proposal_state.contains_key(id) {
            Ok(QueryResponseView::ProposalState(store.proposal_state[id]))
        } else {
            Err(ContractErrorView::NotFound { kind: "proposal_state"@ })
        },
        QueryMsg::LastError => match store.last_error {
            Some(text) => Ok(QueryResponseView::LastError(text)),
            None => Err(ContractErrorView::NotFound { kind: "last_error"@ }),
        },
    }
}

/// Answers a query from the store.
pub fn query(store: &Store, msg: QueryMsg) -> (result: Result<QueryResponse, ContractError>)
    ensures
        match query_outcome(store.deep_view(), msg) {
            Ok(answer) => result matches Ok(r) && r.deep_view() == answer,
            Err(error) => result matches Err(e) && e.deep_view() == error,
        },
{
    match msg {
        QueryMsg::ProposalState { id } => match store.proposal_state.get(&id) {
            Some(status) => Ok(QueryResponse::ProposalState(*status)),
            None => Err(ContractError::NotFound { kind: String::from_str("proposal_state") }),
        },
        QueryMsg::LastError => match &store.last_error {
            Some(text) => Ok(QueryResponse::LastError(text.clone())),
            None => Err(ContractError::NotFound { kind: String::from_str("last_error") }),
        },
    }
}

/// Whether this code can take over from the code that `stored` names.
pub open spec fn can_migrate_from(stored: ContractVersionView) -> bool {
    stored.contract == "ibc-controller"@ && stored.version == "0.3.0"@
}

/// What a migration leads to: the store records this code as its own, and
/// the response names the old and the new record.
pub open spec fn migrate_outcome<M>(store: StoreView) -> Outcome<M> {
    if can_migrate_from(store.contract_version) {
        Ok(
            (
                StoreView { contract_version: own_version(), ..store },
                ResponseView {
                    messages: seq![],
                    attributes: migration_attributes(store.contract_version, own_version()),
                },
            ),
        )
    } else {
        Err(ContractErrorView::MigrationError)
    }
}

/// Takes the store over from the one version of the controller that this
/// code can follow.
pub fn migrate<M>(store: &mut Store, msg: MigrateMsg) -> (result: Result<
    Response<M>,
    ContractError,
>)
    ensures
        meets(migrate_outcome(old(store).deep_view()), *old(store), *final(store), result),
{
    if !reads_as(&store.contract_version.contract, "ibc-controller") {
        return Err(ContractError::MigrationError);
    }
    if !reads_as(&store.contract_version.version, "0.3.0") {
        return Err(ContractError::MigrationError);
    }
    let current = ContractVersion::new(CONTRACT_NAME, CONTRACT_VERSION);
    let attributes = report_migration(&store.contract_version, &current);
    store.contract_version = current;
    let response = Response { messages: Vec::new(), attributes };
    assert(response.deep_view().messages =~= Seq::empty());
    Ok(response)
}

} // verus!

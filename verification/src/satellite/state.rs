//! What the satellite keeps between calls, and the rules by which its
//! settings change.

use crate::clock::{elapsed_more_than, has_elapsed_more_than};
use crate::host::{
    attr_text, fire_and_forget, AddrVerdict, AttributeView, Env, MessageInfo, OutMsg, OutMsgView,
    Response, ResponseView,
};
use crate::limits::{signal_outage_limits, timeout_limits};
use crate::ownership::{OwnershipProposal, OwnershipProposalView};
use crate::satellite::error::{ContractError, ContractErrorView};
use crate::satellite_package::{
    InstantiateMsg, InstantiateMsgView, UpdateConfigMsg, UpdateConfigMsgView,
};
use crate::version::{ContractVersion, ContractVersionView};
use std::collections::HashMap;
use vstd::prelude::*;

verus! {

/// The satellite's settings.
#[derive(Clone, Debug, PartialEq, Eq)]
pub struct Config {
    /// The address that may change the settings at any time.
    pub owner: String,
    /// Seconds of silence after which the hub counts as lost.
    pub max_signal_outage: u64,
    /// The address that may step in once the hub is lost.
    pub emergency_owner: String,
    /// The denomination of the token the satellite forwards to the hub.
    pub astro_denom: String,
    /// The port that the controller on the hub speaks from.
    pub main_controller_port: String,
    /// The address on the hub that receives the token.
    pub main_maker: String,
    /// The one channel over which proposals arrive, once it exists.
    pub gov_channel: Option<String>,
    /// The channel over which the token travels.
    pub transfer_channel: String,
    /// Seconds after which a sent packet times out.
    pub timeout: u64,
}

/// The mathematical value of a [`Config`].
pub struct ConfigView {
    pub owner: Seq<char>,
    pub max_signal_outage: u64,
    pub emergency_owner: Seq<char>,
    pub astro_denom: Seq<char>,
    pub main_controller_port: Seq<char>,
    pub main_maker: Seq<char>,
    pub gov_channel: Option<Seq<char>>,
    pub transfer_channel: Seq<char>,
    pub timeout: u64,
}

impl DeepView for Config {
    type V = ConfigView;

    open spec fn deep_view(&self) -> ConfigView {
        ConfigView {
            owner: self.owner@,
            max_signal_outage: self.max_signal_outage,
            emergency_owner: self.emergency_owner@,
            astro_denom: self.astro_denom@,
            main_controller_port: self.main_controller_port@,
            main_maker: self.main_maker@,
            gov_channel: self.gov_channel.deep_view(),
            transfer_channel: self.transfer_channel@,
            timeout: self.timeout,
        }
    }
}

/// The port from which the controller at `controller` speaks.
pub open spec fn controller_port(controller: Seq<char>) -> Seq<char> {
    "wasm."@ + controller
}

/// The port from which the controller at `controller` speaks.
pub fn controller_port_of(controller: &String) -> (port: String)
    ensures
        port@ == controller_port(controller@),
{
    let mut port = String::from_str("wasm.");
    port.append(controller.as_str());
    port
}

/// The value of a setting after a patch: the patch's where it has one.
pub open spec fn patched<T>(current: T, patch: Option<T>) -> T {
    match patch {
        Some(value) => value,
        None => current,
    }
}

/// The settings after a patch, or why the patch is refused.
///
/// A patch may not both name a governance channel and ask to accept a new
/// one; asking to accept a new one forgets the channel. A timeout and an
/// outage must keep to the policy bounds. `emergency_owner_error` is the
/// host's verdict on the emergency owner that the patch names, if any.
pub open spec fn patch_outcome(
    config: ConfigView,
    params: UpdateConfigMsgView,
    emergency_owner_error: Option<Seq<char>>,
) -> Result<ConfigView, ContractErrorView> {
    if params.gov_channel is Some && params.accept_new_connections == Some(true) {
        Err(ContractErrorView::UpdateChannelError)
    } else if params.timeout is Some && !timeout_limits().contains(params.timeout->0) {
        Err(ContractErrorView::TimeoutLimitsError)
    } else if params.max_signal_outage is Some && !signal_outage_limits().contains(
        params.max_signal_outage->0,
    ) {
        Err(ContractErrorView::SignalOutageLimitsError)
    } else if params.emergency_owner is Some && emergency_owner_error is Some {
        Err(ContractErrorView::Std(emergency_owner_error->0))
    } else {
        Ok(
            ConfigView {
                owner: config.owner,
                max_signal_outage: patched(config.max_signal_outage, params.max_signal_outage),
                emergency_owner: patched(config.emergency_owner, params.emergency_owner),
                astro_denom: patched(config.astro_denom, params.astro_denom),
                main_controller_port: match params.main_controller_addr {
                    Some(controller) => controller_port(controller),
                    None => config.main_controller_port,
                },
                main_maker: patched(config.main_maker, params.main_maker),
                gov_channel: if params.gov_channel is Some {
                    params.gov_channel
                } else if params.accept_new_connections == Some(true) {
                    None
                } else {
                    config.gov_channel
                },
                transfer_channel: patched(config.transfer_channel, params.transfer_channel),
                timeout: patched(config.timeout, params.timeout),
            },
        )
    }
}

impl ConfigView {
    /// The settings keep to the policy bounds.
    pub open spec fn wf(self) -> bool {
        timeout_limits().contains(self.timeout) && signal_outage_limits().contains(
            self.max_signal_outage,
        )
    }
}

impl Config {
    /// Applies a patch to the settings. A refused patch changes nothing.
    pub fn update(&mut self, params: UpdateConfigMsg, emergency_owner_error: AddrVerdict) -> (result:
        Result<(), ContractError>)
        ensures
            match patch_outcome(
                old(self).deep_view(),
                params.deep_view(),
                emergency_owner_error.deep_view(),
            ) {
                Ok(config) => result is Ok && final(self).deep_view() == config,
                Err(error) => {
                    &&& result matches Err(e)
                    &&& e.deep_view() == error
                    &&& *final(self) == *old(self)
                },
            },
            old(self).deep_view().wf() ==> final(self).deep_view().wf(),
    {
        let accepts_new = match params.accept_new_connections {
            Some(accept) => accept,
            None => false,
        };
        if params.gov_channel.is_some() && accepts_new {
            return Err(ContractError::UpdateChannelError);
        }
        if let Some(timeout) = params.timeout {
            if !timeout_limits().contains(timeout) {
                return Err(ContractError::TimeoutLimitsError);
            }
        }
        if let Some(max_signal_outage) = params.max_signal_outage {
            if !signal_outage_limits().contains(max_signal_outage) {
                return Err(ContractError::SignalOutageLimitsError);
            }
        }
        if params.emergency_owner.is_some() {
            if let Some(reason) = emergency_owner_error {
                return Err(ContractError::Std(reason));
            }
        }
        if let Some(astro_denom) = params.astro_denom {
            self.astro_denom = astro_denom;
        }
        if let Some(gov_channel) = params.gov_channel {
            self.gov_channel = Some(gov_channel);
        } else if accepts_new {
            self.gov_channel = None;
        }
        if let Some(controller) = params.main_controller_addr {
            self.main_controller_port = controller_port_of(&controller);
        }
        if let Some(main_maker) = params.main_maker {
            self.main_maker = main_maker;
        }
        if let Some(transfer_channel) = params.transfer_channel {
            self.transfer_channel = transfer_channel;
        }
        if let Some(timeout) = params.timeout {
            self.timeout = timeout;
        }
        if let Some(max_signal_outage) = params.max_signal_outage {
            self.max_signal_outage = max_signal_outage;
        }
        if let Some(emergency_owner) = params.emergency_owner {
            self.emergency_owner = emergency_owner;
        }
        Ok(())
    }
}

/// Everything the satellite keeps between calls. Times count nanoseconds
/// since the epoch.
#[derive(Clone, Debug, PartialEq, Eq)]
pub struct Store {
    pub config: Config,
    /// The block height at which each completed proposal was completed, by
    /// the proposal's id.
    pub results: HashMap<u64, u64>,
    /// The proposal whose last message is being awaited, if any.
    pub reply_data: Option<u64>,
    /// The pending change of owner, if there is one.
    pub ownership_proposal: Option<OwnershipProposal>,
    /// When the hub was last heard from.
    pub latest_hub_signal_time: u64,
    pub contract_version: ContractVersion,
}

/// The mathematical value of a [`Store`].
pub struct StoreView {
    pub config: ConfigView,
    pub results: Map<u64, u64>,
    pub reply_data: Option<u64>,
    pub ownership_proposal: Option<OwnershipProposalView>,
    pub latest_hub_signal_time: u64,
    pub contract_version: ContractVersionView,
}

impl DeepView for Store {
    type V = StoreView;

    open spec fn deep_view(&self) -> StoreView {
        StoreView {
            config: self.config.deep_view(),
            results: self.results@,
            reply_data: self.reply_data,
            ownership_proposal: self.ownership_proposal.deep_view(),
            latest_hub_signal_time: self.latest_hub_signal_time,
            contract_version: self.contract_version.deep_view(),
        }
    }
}

impl StoreView {
    /// The hub has been silent for longer than the settings tolerate.
    pub open spec fn is_outage(self, now: u64) -> bool {
        elapsed_more_than(self.latest_hub_signal_time, self.config.max_signal_outage, now)
    }

    /// `sender` may change the settings at `now`: the owner always, the
    /// emergency owner during an outage.
    pub open spec fn may_configure(self, sender: Seq<char>, now: u64) -> bool {
        sender == self.config.owner || (self.is_outage(now) && sender
            == self.config.emergency_owner)
    }

    /// `sender` may hand the admin role to the emergency owner at `now`:
    /// the owner always, the emergency owner during an outage.
    pub open spec fn may_escalate(self, sender: Seq<char>, now: u64) -> bool {
        sender == self.config.owner || (self.is_outage(now) && sender
            == self.config.emergency_owner)
    }
}

impl Store {
    /// Whether the hub has been silent for longer than the settings tolerate.
    pub fn is_outage(&self, now: u64) -> (outage: bool)
        ensures
            outage == self.deep_view().is_outage(now),
    {
        has_elapsed_more_than(self.latest_hub_signal_time, self.config.max_signal_outage, now)
    }
}

/// What a call on the satellite leads to: the store it leaves and the
/// response it gives, or the error it fails with.
pub type Outcome<M> = Result<(StoreView, ResponseView<M>), ContractErrorView>;

/// A call that started from `before` ended in `after` with `result` as
/// `outcome` says: on success the store and the response are those given,
/// on failure the error is the one given and the store is untouched.
pub open spec fn meets<M>(
    outcome: Outcome<M>,
    before: Store,
    after: Store,
    result: Result<Response<M>, ContractError>,
) -> bool {
    match outcome {
        Ok((store, response)) => {
            &&& result matches Ok(r)
            &&& r.deep_view() == response
            &&& after.deep_view() == store
        },
        Err(error) => {
            &&& result matches Err(e)
            &&& e.deep_view() == error
            &&& after == before
        },
    }
}

/// The store of a satellite that is set up at `now`: no governance channel
/// yet, nothing completed, and the hub counted as heard from just now.
pub open spec fn fresh_store(msg: InstantiateMsgView, now: u64, version: ContractVersionView) -> StoreView {
    StoreView {
        config: ConfigView {
            owner: msg.owner,
            max_signal_outage: msg.max_signal_outage,
            emergency_owner: msg.emergency_owner,
            astro_denom: msg.astro_denom,
            main_controller_port: controller_port(msg.main_controller),
            main_maker: msg.main_maker,
            gov_channel: None,
            transfer_channel: msg.transfer_channel,
            timeout: msg.timeout,
        },
        results: Map::empty(),
        reply_data: None,
        ownership_proposal: None,
        latest_hub_signal_time: now,
        contract_version: version,
    }
}

/// What setting the satellite up leads to. The timeout and the outage must
/// keep to the policy bounds, and the host must have accepted both
/// addresses, which the two verdicts tell.
pub open spec fn instantiate_outcome(
    msg: InstantiateMsgView,
    now: u64,
    version: ContractVersionView,
    owner_error: Option<Seq<char>>,
    emergency_owner_error: Option<Seq<char>>,
) -> Result<StoreView, ContractErrorView> {
    if !timeout_limits().contains(msg.timeout) {
        Err(ContractErrorView::TimeoutLimitsError)
    } else if !signal_outage_limits().contains(msg.max_signal_outage) {
        Err(ContractErrorView::SignalOutageLimitsError)
    } else if owner_error is Some {
        Err(ContractErrorView::Std(owner_error->0))
    } else if emergency_owner_error is Some {
        Err(ContractErrorView::Std(emergency_owner_error->0))
    } else {
        Ok(fresh_store(msg, now, version))
    }
}

/// Builds the store of a new satellite.
pub fn instantiate_state(
    env: &Env,
    msg: InstantiateMsg,
    version: ContractVersion,
    owner_error: AddrVerdict,
    emergency_owner_error: AddrVerdict,
) -> (result: Result<Store, ContractError>)
    ensures
        match instantiate_outcome(
            msg.deep_view(),
            env.block.time,
            version.deep_view(),
            owner_error.deep_view(),
            emergency_owner_error.deep_view(),
        ) {
            Ok(fresh) => result matches Ok(store) && store.deep_view() == fresh
                && store.deep_view().config.wf(),
            Err(error) => result matches Err(e) && e.deep_view() == error,
        },
{
    if !timeout_limits().contains(msg.timeout) {
        return Err(ContractError::TimeoutLimitsError);
    }
    if !signal_outage_limits().contains(msg.max_signal_outage) {
        return Err(ContractError::SignalOutageLimitsError);
    }
    if let Some(reason) = owner_error {
        return Err(ContractError::Std(reason));
    }
    if let Some(reason) = emergency_owner_error {
        return Err(ContractError::Std(reason));
    }
    Ok(
        Store {
            config: Config {
                owner: msg.owner,
                max_signal_outage: msg.max_signal_outage,
                emergency_owner: msg.emergency_owner,
                astro_denom: msg.astro_denom,
                main_controller_port: controller_port_of(&msg.main_controller),
                main_maker: msg.main_maker,
                gov_channel: None,
                transfer_channel: msg.transfer_channel,
                timeout: msg.timeout,
            },
            results: HashMap::new(),
            reply_data: None,
            ownership_proposal: None,
            latest_hub_signal_time: env.block.time,
            contract_version: version,
        },
    )
}

/// The response that names an action and does nothing else.
pub open spec fn action_response<M>(action: Seq<char>) -> ResponseView<M> {
    ResponseView {
        messages: seq![],
        attributes: seq![AttributeView { key: "action"@, value: action }],
    }
}

/// What a patch of the settings leads to. The owner may patch at any time;
/// the emergency owner only while the hub has been silent for longer than
/// the settings tolerate, which is judged anew at every call.
pub open spec fn update_config_outcome<M>(
    store: StoreView,
    sender: Seq<char>,
    now: u64,
    params: UpdateConfigMsgView,
    emergency_owner_error: Option<Seq<char>>,
) -> Outcome<M> {
    if !store.may_configure(sender, now) {
        Err(ContractErrorView::Unauthorized)
    } else {
        match patch_outcome(store.config, params, emergency_owner_error) {
            Ok(config) => Ok((StoreView { config, ..store }, action_response("update_config"@))),
            Err(error) => Err(error),
        }
    }
}

/// Patches the settings on behalf of the caller.
pub fn update_config<M>(
    store: &mut Store,
    info: &MessageInfo,
    env: &Env,
    params: UpdateConfigMsg,
    emergency_owner_error: AddrVerdict,
) -> (result: Result<Response<M>, ContractError>)
    ensures
        meets(
            update_config_outcome(
                old(store).deep_view(),
                info.sender@,
                env.block.time,
                params.deep_view(),
                emergency_owner_error.deep_view(),
            ),
            *old(store),
            *final(store),
            result,
        ),
        old(store).deep_view().config.wf() ==> final(store).deep_view().config.wf(),
{
    let allowed = info.sender == store.config.owner || (store.is_outage(env.block.time)
        && info.sender == store.config.emergency_owner);
    if !allowed {
        return Err(ContractError::Unauthorized);
    }
    match store.config.update(params, emergency_owner_error) {
        Err(error) => Err(error),
        Ok(()) => {
            let mut response = Response::new();
            response.add_attribute(attr_text("action", "update_config"));
            assert(response.deep_view().attributes =~= action_response::<M>(
                "update_config"@,
            ).attributes);
            Ok(response)
        },
    }
}

/// What a bid to hand the admin role to the emergency owner leads to.
/// From the owner at any time, and from the emergency owner during an
/// outage, it gives the one message that makes the emergency owner the
/// admin of the satellite at `contract`; from anyone else, and from the
/// emergency owner while the hub is heard from, a refusal. Nothing is
/// stored either way.
pub open spec fn escalation_outcome<M>(
    store: StoreView,
    sender: Seq<char>,
    now: u64,
    contract: Seq<char>,
) -> Outcome<M> {
    if store.may_escalate(sender, now) {
        Ok(
            (
                store,
                ResponseView {
                    messages: seq![
                        fire_and_forget(
                            OutMsgView::UpdateAdmin {
                                contract_addr: contract,
                                admin: store.config.emergency_owner,
                            },
                        ),
                    ],
                    attributes: seq![],
                },
            ),
        )
    } else {
        Err(ContractErrorView::Unauthorized)
    }
}

/// Makes the emergency owner the admin of the satellite, at the owner's
/// word or, once the hub is lost, at its own.
pub fn set_emergency_owner_as_admin<M>(store: &Store, env: &Env, info: &MessageInfo) -> (result:
    Result<Response<M>, ContractError>)
    ensures
        match escalation_outcome::<M>(
            store.deep_view(),
            info.sender@,
            env.block.time,
            env.contract_address@,
        ) {
            Ok((_, response)) => result matches Ok(r) && r.deep_view() == response,
            Err(error) => result matches Err(e) && e.deep_view() == error,
        },
{
    let allowed = info.sender == store.config.owner || (store.is_outage(env.block.time)
        && info.sender == store.config.emergency_owner);
    if allowed {
        let mut response = Response::new();
        response.add_message(
            OutMsg::UpdateAdmin {
                contract_addr: env.contract_address.clone(),
                admin: store.config.emergency_owner.clone(),
            },
        );
        proof {
            let expected = escalation_outcome::<M>(
                store.deep_view(),
                info.sender@,
                env.block.time,
                env.contract_address@,
            )->Ok_0.1;
            assert(response.deep_view().messages =~= expected.messages);
            assert(response.deep_view().attributes =~= expected.attributes);
        }
        Ok(response)
    } else {
        Err(ContractError::Unauthorized)
    }
}

/// Records that the proposal `proposal_id` was completed in this block.
pub fn store_proposal(store: &mut Store, env: &Env, proposal_id: u64)
    ensures
        final(store).deep_view() == (StoreView {
            results: old(store).deep_view().results.insert(proposal_id, env.block.height),
            ..old(store).deep_view()
        }),
{
    broadcast use vstd::std_specs::hash::group_hash_axioms;

    store.results.insert(proposal_id, env.block.height);
}

} // verus!

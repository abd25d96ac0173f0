//! The entry points of the satellite on a chain with relayer fees. It
//! keeps the settings of the first satellite and forwards the token that
//! the caller brings, with the smallest fee the chain accepts.

use crate::astro_ibc::satellite::{
    ExecuteMsg, ExecuteMsgView, InstantiateMsg, InstantiateMsgView, UpdateConfigMsg,
    UpdateConfigMsgView,
};
use crate::clock::{checked_plus_seconds, seconds_after};
use crate::host::{
    attr_text, fire_and_forget, AddrVerdict, AttributeView, Coin, CoinView, Env, FeeTransfer,
    FeeTransferView, IbcFee, IbcFeeView, MessageInfo, MessageInfoView, OutMsg, OutMsgView,
    Response, ResponseView,
};
use crate::limits::timeout_limits;
use crate::ownership::{
    claim_outcome, claim_ownership, drop_ownership_proposal, propose_new_owner, propose_outcome,
    step_response, OwnershipErrorView, OwnershipProposal, OwnershipProposalView,
};
use crate::payment::{must_pay, payment_due};
use crate::satellite::contract::{vet_and_relay, vetting_outcome};
use crate::satellite::error::{ContractError, ContractErrorView};
use crate::satellite::migration::{ConfigV020, ConfigV020View};
use crate::satellite::state::{controller_port, controller_port_of, patched};
use crate::text::reads_as;
use crate::version::{migration_attributes, report_migration, ContractVersion, ContractVersionView};
use vstd::prelude::*;

verus! {

/// The name under which this satellite records itself.
pub const CONTRACT_NAME: &'static str = "astro-satellite-neutron";

/// The version under which this satellite records itself.
pub const CONTRACT_VERSION: &'static str = "1.0.0";

/// The one denomination in which this satellite pays relayer fees.
pub const FEE_DENOM: &'static str = "untrn";

/// The port through which tokens leave.
pub const TRANSFER_PORT: &'static str = "transfer";

/// Everything this satellite keeps between calls.
#[derive(Clone, Debug, PartialEq, Eq)]
pub struct Store {
    pub config: ConfigV020,
    /// The pending change of owner, if there is one.
    pub ownership_proposal: Option<OwnershipProposal>,
    pub contract_version: ContractVersion,
}

/// The mathematical value of a [`Store`].
pub struct StoreView {
    pub config: ConfigV020View,
    pub ownership_proposal: Option<OwnershipProposalView>,
    pub contract_version: ContractVersionView,
}

impl DeepView for Store {
    type V = StoreView;

    open spec fn deep_view(&self) -> StoreView {
        StoreView {
            config: self.config.deep_view(),
            ownership_proposal: self.ownership_proposal.deep_view(),
            contract_version: self.contract_version.deep_view(),
        }
    }
}

/// What a call leads to: the store it leaves and the response it gives, or
/// the error it fails with.
pub type Outcome<M> = Result<(StoreView, ResponseView<M>), ContractErrorView>;

/// A call that started from `before` ended in `after` with `result` as
/// `outcome` says: on success the store and the response are those given,
/// on failure the error is the one given and the store is untouched.
pub open spec fn meets<M>(
    outcome: Outcome<M>,
    before: Store,
    after: Store,
    result: Result<Response<M>, ContractError>,
) -> bool {
    match outcome {
        Ok((store, response)) => {
            &&& result matches Ok(r)
            &&& r.deep_view() == response
            &&& after.deep_view() == store
        },
        Err(error) => {
            &&& result matches Err(e)
            &&& e.deep_view() == error
            &&& after == before
        },
    }
}

/// An outcome that leaves the store as it is.
pub open spec fn unchanged<M>(
    store: StoreView,
    response: Result<ResponseView<M>, ContractErrorView>,
) -> Outcome<M> {
    match response {
        Ok(response) => Ok((store, response)),
        Err(error) => Err(error),
    }
}

/// The record this satellite keeps of its own code.
pub open spec fn own_version() -> ContractVersionView {
    ContractVersionView { contract: CONTRACT_NAME@, version: CONTRACT_VERSION@ }
}

/// The settings of a satellite that was just set up: no governance
/// channel yet.
pub open spec fn fresh_config(msg: InstantiateMsgView) -> ConfigV020View {
    ConfigV020View {
        owner: msg.owner,
        astro_denom: msg.astro_denom,
        main_controller_port: controller_port(msg.main_controller),
        main_maker: msg.main_maker,
        gov_channel: None,
        transfer_channel: msg.transfer_channel,
        timeout: msg.timeout,
    }
}

/// What setting the satellite up leads to. The timeout must keep to the
/// policy bounds and the host must have accepted the owner's address.
pub open spec fn instantiate_outcome<M>(
    msg: InstantiateMsgView,
    owner_error: Option<Seq<char>>,
) -> Outcome<M> {
    if !timeout_limits().contains(msg.timeout) {
        Err(ContractErrorView::TimeoutLimitsError)
    } else if owner_error is Some {
        Err(ContractErrorView::Std(owner_error->0))
    } else {
        Ok(
            (
                StoreView {
                    config: fresh_config(msg),
                    ownership_proposal: None,
                    contract_version: own_version(),
                },
                ResponseView { messages: seq![], attributes: seq![] },
            ),
        )
    }
}

/// Sets the satellite up; `owner_error` is the host's verdict on the
/// owner's address. The response is empty.
pub fn instantiate<M>(
    env: &Env,
    info: &MessageInfo,
    msg: InstantiateMsg,
    owner_error: AddrVerdict,
) -> (result: Result<(Store, Response<M>), ContractError>)
    ensures
        match instantiate_outcome::<M>(msg.deep_view(), owner_error.deep_view()) {
            Ok((fresh, welcome)) => {
                &&& result matches Ok((store, response))
                &&& store.deep_view() == fresh
                &&& response.deep_view() == welcome
            },
            Err(error) => result matches Err(e) && e.deep_view() == error,
        },
{
    if !timeout_limits().contains(msg.timeout) {
        return Err(ContractError::TimeoutLimitsError);
    }
    if let Some(reason) = owner_error {
        return Err(ContractError::Std(reason));
    }
    let store = Store {
        config: ConfigV020 {
            owner: msg.owner,
            astro_denom: msg.astro_denom,
            main_controller_port: controller_port_of(&msg.main_controller),
            main_maker: msg.main_maker,
            gov_channel: None,
            transfer_channel: msg.transfer_channel,
            timeout: msg.timeout,
        },
        ownership_proposal: None,
        contract_version: ContractVersion::new(CONTRACT_NAME, CONTRACT_VERSION),
    };
    Ok((store, Response::new()))
}

/// Whether a coin is of the denomination in which fees are paid.
pub open spec fn pays_fee(coin: CoinView) -> bool {
    coin.denom == FEE_DENOM@
}

/// The coins of `coins` that are of the fee denomination, in their order.
pub open spec fn fee_coins(coins: Seq<CoinView>) -> Seq<CoinView> {
    coins.filter(|coin: CoinView| pays_fee(coin))
}

fn keep_fee_coins(coins: &Vec<Coin>) -> (kept: Vec<Coin>)
    ensures
        kept.deep_view() == fee_coins(coins.deep_view()),
{
    let ghost all = coins.deep_view();
    let mut kept: Vec<Coin> = Vec::new();
    let mut i: usize = 0;
    proof {
        reveal(Seq::filter);
        assert(all.subrange(0, 0) =~= Seq::<CoinView>::empty());
    }
    while i < coins.len()
        invariant
            i <= coins.len(),
            all == coins.deep_view(),
            kept.deep_view() == fee_coins(all.subrange(0, i as int)),
        decreases coins.len() - i,
    {
        let ghost before = kept.deep_view();
        let ghost seen = all.subrange(0, i as int);
        proof {
            reveal(Seq::filter);
            let next = all.subrange(0, i + 1);
            assert(next.drop_last() =~= seen);
            assert(next.last() == all[i as int]);
        }
        if reads_as(&coins[i].denom, FEE_DENOM) {
            let coin = coins[i].clone();
            kept.push(coin);
            assert(kept.deep_view() =~= before.push(all[i as int]));
        }
        i = i + 1;
    }
    assert(all.subrange(0, i as int) =~= all);
    kept
}

/// The smallest fee the satellite pays, given the smallest fee the chain
/// accepts: what the chain asks for receipt, and of what it asks for the
/// acknowledgement and for a timeout only the coins of the fee denomination.
pub open spec fn smallest_fee(fee: IbcFeeView) -> IbcFeeView {
    IbcFeeView {
        recv_fee: fee.recv_fee,
        ack_fee: fee_coins(fee.ack_fee),
        timeout_fee: fee_coins(fee.timeout_fee),
    }
}

/// Cuts the chain's smallest fee down to the fee denomination.
pub fn min_ntrn_ibc_fee(fee: IbcFee) -> (cut: IbcFee)
    ensures
        cut.deep_view() == smallest_fee(fee.deep_view()),
{
    let ack_fee = keep_fee_coins(&fee.ack_fee);
    let timeout_fee = keep_fee_coins(&fee.timeout_fee);
    IbcFee { recv_fee: fee.recv_fee, ack_fee, timeout_fee }
}

/// What forwarding the caller's token leads to. The caller must bring
/// exactly one coin, of the token's denomination and not of amount zero.
/// That amount goes from the satellite at `contract` to the maker on the
/// hub, with the fee cut down to the fee denomination, and is void the
/// configured number of seconds after `now`.
pub open spec fn transfer_outcome<M>(
    config: ConfigV020View,
    now: u64,
    contract: Seq<char>,
    funds: Seq<CoinView>,
    min_fee: IbcFeeView,
) -> Result<ResponseView<M>, ContractErrorView> {
    match payment_due(funds, config.astro_denom) {
        Err(error) => Err(ContractErrorView::PaymentError(error)),
        Ok(amount) => if seconds_after(now, config.timeout) > u64::MAX {
            Err(ContractErrorView::TimeoutOverflow)
        } else {
            Ok(
                ResponseView {
                    messages: seq![
                        fire_and_forget(
                            OutMsgView::FeeTransfer(
                                FeeTransferView {
                                    source_port: TRANSFER_PORT@,
                                    source_channel: config.transfer_channel,
                                    sender: contract,
                                    receiver: config.main_maker,
                                    token: CoinView { denom: config.astro_denom, amount },
                                    timeout_timestamp: seconds_after(now, config.timeout) as u64,
                                    memo: Seq::<char>::empty(),
                                    fee: smallest_fee(min_fee),
                                },
                            ),
                        ),
                    ],
                    attributes: seq![AttributeView { key: "action"@, value: "transfer_astro"@ }],
                },
            )
        },
    }
}

/// Forwards the token that came with the call to the hub. `min_fee` is
/// the smallest fee the chain accepts, as the host reports it.
pub fn transfer_astro<M>(store: &Store, env: &Env, info: &MessageInfo, min_fee: IbcFee) -> (result:
    Result<Response<M>, ContractError>)
    ensures
        match transfer_outcome::<M>(
            store.config.deep_view(),
            env.block.time,
            env.contract_address@,
            info.deep_view().funds,
            min_fee.deep_view(),
        ) {
            Ok(response) => result matches Ok(r) && r.deep_view() == response,
            Err(error) => result matches Err(e) && e.deep_view() == error,
        },
{
    let amount = match must_pay(info, store.config.astro_denom.as_str()) {
        Err(error) => {
            return Err(ContractError::PaymentError(error));
        },
        Ok(amount) => amount,
    };
    let fee = min_ntrn_ibc_fee(min_fee);
    let timeout_timestamp = match checked_plus_seconds(env.block.time, store.config.timeout) {
        None => {
            return Err(ContractError::TimeoutOverflow);
        },
        Some(timeout) => timeout,
    };
    let mut response = Response::new();
    response.add_message(
        OutMsg::FeeTransfer(
            FeeTransfer {
                source_port: String::from_str(TRANSFER_PORT),
                source_channel: store.config.transfer_channel.clone(),
                sender: env.contract_address.clone(),
                receiver: store.config.main_maker.clone(),
                token: Coin { denom: store.config.astro_denom.clone(), amount },
                timeout_timestamp,
                memo: String::new(),
                fee,
            },
        ),
    );
    response.add_attribute(attr_text("action", "transfer_astro"));
    proof {
        let expected = transfer_outcome::<M>(
            store.config.deep_view(),
            env.block.time,
            env.contract_address@,
            info.deep_view().funds,
            min_fee.deep_view(),
        )->Ok_0;
        assert(response.deep_view().messages =~= expected.messages);
        assert(response.deep_view().attributes =~= expected.attributes);
    }
    Ok(response)
}

/// The settings after a patch, or why the patch is refused: a timeout
/// must keep to the policy bounds.
pub open spec fn patch_outcome(config: ConfigV020View, params: UpdateConfigMsgView) -> Result<
    ConfigV020View,
    ContractErrorView,
> {
    if params.timeout is Some && !timeout_limits().contains(params.timeout->0) {
        Err(ContractErrorView::TimeoutLimitsError)
    } else {
        Ok(
            ConfigV020View {
                owner: config.owner,
                astro_denom: patched(config.astro_denom, params.astro_denom),
                main_controller_port: patched(
                    config.main_controller_port,
                    params.main_controller_port,
                ),
                main_maker: patched(config.main_maker, params.main_maker),
                gov_channel: if params.gov_channel is Some {
                    params.gov_channel
                } else {
                    config.gov_channel
                },
                transfer_channel: patched(config.transfer_channel, params.transfer_channel),
                timeout: patched(config.timeout, params.timeout),
            },
        )
    }
}

/// What a patch of the settings leads to. Only the owner may patch.
pub open spec fn update_config_outcome<M>(
    store: StoreView,
    sender: Seq<char>,
    params: UpdateConfigMsgView,
) -> Outcome<M> {
    if sender != store.config.owner {
        Err(ContractErrorView::Unauthorized)
    } else {
        match patch_outcome(store.config, params) {
            Ok(config) => Ok(
                (
                    StoreView { config, ..store },
                    ResponseView {
                        messages: seq![],
                        attributes: seq![AttributeView { key: "action"@, value: "update_config"@ }],
                    },
                ),
            ),
            Err(error) => Err(error),
        }
    }
}

/// Patches the settings. A refused patch changes nothing.
pub fn update_config<M>(store: &mut Store, info: &MessageInfo, params: UpdateConfigMsg) -> (result:
    Result<Response<M>, ContractError>)
    ensures
        meets(
            update_config_outcome(old(store).deep_view(), info.sender@, params.deep_view()),
            *old(store),
            *final(store),
            result,
        ),
{
    if store.config.owner != info.sender {
        return Err(ContractError::Unauthorized);
    }
    if let Some(timeout) = params.timeout {
        if !timeout_limits().contains(timeout) {
            return Err(ContractError::TimeoutLimitsError);
        }
        store.config.timeout = timeout;
    }
    if let Some(astro_denom) = params.astro_denom {
        store.config.astro_denom = astro_denom;
    }
    if let Some(gov_channel) = params.gov_channel {
        store.config.gov_channel = Some(gov_channel);
    }
    if let Some(port) = params.main_controller_port {
        store.config.main_controller_port = port;
    }
    if let Some(main_maker) = params.main_maker {
        store.config.main_maker = main_maker;
    }
    if let Some(transfer_channel) = params.transfer_channel {
        store.config.transfer_channel = transfer_channel;
    }
    let mut response = Response::new();
    response.add_attribute(attr_text("action", "update_config"));
    assert(response.deep_view().attributes =~= seq![
        AttributeView { key: "action"@, value: "update_config"@ },
    ]);
    Ok(response)
}

/// What a call leads to, by the message it brings. `min_fee` is the
/// smallest fee the chain accepts, which counts for `TransferAstro`;
/// `new_owner_error` is the host's verdict on the address that
/// `ProposeNewOwner` names.
pub open spec fn execute_outcome<M>(
    store: StoreView,
    now: u64,
    contract: Seq<char>,
    info: MessageInfoView,
    msg: ExecuteMsgView<M>,
    min_fee: IbcFeeView,
    new_owner_error: Option<Seq<char>>,
) -> Outcome<M> {
    match msg {
        ExecuteMsgView::TransferAstro => unchanged(
            store,
            transfer_outcome(store.config, now, contract, info.funds, min_fee),
        ),
        ExecuteMsgView::UpdateConfig(params) => update_config_outcome(store, info.sender, params),
        ExecuteMsgView::CheckMessages(messages) => unchanged(
            store,
            vetting_outcome(contract, messages),
        ),
        ExecuteMsgView::CheckMessagesPassed => Err(ContractErrorView::MessagesCheckPassed),
        ExecuteMsgView::ProposeNewOwner { owner, expires_in } => match propose_outcome(
            info.sender,
            store.config.owner,
            owner,
            new_owner_error,
            expires_in,
            now,
        ) {
            Ok(proposal) => Ok(
                (
                    StoreView { ownership_proposal: Some(proposal), ..store },
                    step_response("propose_new_owner"@, Some(owner)),
                ),
            ),
            Err(error) => Err(ContractErrorView::Ownership(error)),
        },
        ExecuteMsgView::DropOwnershipProposal => if info.sender == store.config.owner {
            Ok(
                (
                    StoreView { ownership_proposal: None, ..store },
                    step_response("drop_ownership_proposal"@, None),
                ),
            )
        } else {
            Err(ContractErrorView::Ownership(OwnershipErrorView::Unauthorized))
        },
        ExecuteMsgView::ClaimOwnership => match claim_outcome(
            store.ownership_proposal,
            info.sender,
            now,
        ) {
            Ok(new_owner) => Ok(
                (
                    StoreView {
                        config: ConfigV020View { owner: new_owner, ..store.config },
                        ownership_proposal: None,
                        ..store
                    },
                    step_response("claim_ownership"@, Some(new_owner)),
                ),
            ),
            Err(error) => Err(ContractErrorView::Ownership(error)),
        },
    }
}

/// Carries out a call. Whenever the call fails, the store is left as it was.
pub fn execute<M>(
    store: &mut Store,
    env: &Env,
    info: &MessageInfo,
    msg: ExecuteMsg<M>,
    min_fee: IbcFee,
    new_owner_error: AddrVerdict,
) -> (result: Result<Response<M>, ContractError>)
    ensures
        meets(
            execute_outcome(
                old(store).deep_view(),
                env.block.time,
                env.contract_address@,
                info.deep_view(),
                msg.deep_view(),
                min_fee.deep_view(),
                new_owner_error.deep_view(),
            ),
            *old(store),
            *final(store),
            result,
        ),
{
    match msg {
        ExecuteMsg::TransferAstro => transfer_astro(store, env, info, min_fee),
        ExecuteMsg::UpdateConfig(params) => update_config(store, info, params),
        ExecuteMsg::CheckMessages(messages) => vet_and_relay(env, messages),
        ExecuteMsg::CheckMessagesPassed => Err(ContractError::MessagesCheckPassed),
        ExecuteMsg::ProposeNewOwner { owner, expires_in } => {
            match propose_new_owner(
                &mut store.ownership_proposal,
                info,
                env,
                owner,
                new_owner_error,
                expires_in,
                &store.config.owner,
            ) {
                Ok(response) => Ok(response),
                Err(error) => Err(ContractError::Ownership(error)),
            }
        },
        ExecuteMsg::DropOwnershipProposal => {
            match drop_ownership_proposal(&mut store.ownership_proposal, info, &store.config.owner) {
                Ok(response) => Ok(response),
                Err(error) => Err(ContractError::Ownership(error)),
            }
        },
        ExecuteMsg::ClaimOwnership => {
            match claim_ownership(
                &mut store.ownership_proposal,
                &mut store.config.owner,
                info,
                env,
            ) {
                Ok(response) => Ok(response),
                Err(error) => Err(ContractError::Ownership(error)),
            }
        },
    }
}

/// Answers the chain's privileged call about a transfer, which asks for
/// nothing: the response is empty.
pub fn sudo<M>() -> (result: Result<Response<M>, ContractError>)
    ensures
        result matches Ok(response) && response.deep_view() == (ResponseView::<M> {
            messages: seq![],
            attributes: seq![],
        }),
{
    Ok(Response::new())
}

/// Whether this code can take over from the code that `stored` names.
pub open spec fn can_migrate_from(stored: ContractVersionView) -> bool {
    stored.contract == "astro-satellite"@ && stored.version == "0.2.0"@
}

/// What a migration leads to: the store records this code as its own, and
/// the response names the old and the new record.
pub open spec fn migrate_outcome<M>(store: StoreView) -> Outcome<M> {
    if can_migrate_from(store.contract_version) {
        Ok(
            (
                StoreView { contract_version: own_version(), ..store },
                ResponseView {
                    messages: seq![],
                    attributes: migration_attributes(store.contract_version, own_version()),
                },
            ),
        )
    } else {
        Err(ContractErrorView::MigrationError)
    }
}

/// Takes the store over from the one version of the satellite that this
/// code can follow.
pub fn migrate<M>(store: &mut Store) -> (result: Result<Response<M>, ContractError>)
    ensures
        meets(migrate_outcome(old(store).deep_view()), *old(store), *final(store), result),
{
    if !reads_as(&store.contract_version.contract, "astro-satellite") {
        return Err(ContractError::MigrationError);
    }
    if !reads_as(&store.contract_version.version, "0.2.0") {
        return Err(ContractError::MigrationError);
    }
    let current = ContractVersion::new(CONTRACT_NAME, CONTRACT_VERSION);
    let attributes = report_migration(&store.contract_version, &current);
    store.contract_version = current;
    let response = Response { messages: Vec::new(), attributes };
    assert(response.deep_view().messages =~= Seq::empty());
    Ok(response)
}

} // verus!

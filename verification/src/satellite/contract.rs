//! The satellite's entry points: set-up, the calls it takes, the callback
//! that completes a proposal, its query and its migration.

use crate::clock::{checked_plus_seconds, seconds_after};
use crate::governance::{MsgKind, MsgKindView, ProposalMessage, ProposalMessageView};
use crate::host::{
    attr_text, fire_and_forget, AddrVerdict, AttributeView, Coin, CoinView, Env, MessageInfo,
    OutMsg, OutMsgView, Response, ResponseView, SubMsgView,
};
use crate::ownership::{
    claim_outcome, claim_ownership, drop_ownership_proposal, propose_new_owner, propose_outcome,
    step_response, OwnershipErrorView,
};
use crate::satellite::batch::RECEIVE_ID;
use crate::satellite::error::{ContractError, ContractErrorView};
use crate::satellite::state::{
    escalation_outcome, instantiate_outcome, instantiate_state, meets,
    set_emergency_owner_as_admin, update_config, update_config_outcome, ConfigView, Outcome,
    Store, StoreView,
};
use crate::satellite_package::{ExecuteMsg, ExecuteMsgView, InstantiateMsg, QueryMsg};
use crate::text::{contains, occurs_in, reads_as};
use crate::version::{migration_attributes, report_migration, ContractVersion, ContractVersionView};
use vstd::prelude::*;

verus! {

broadcast use vstd::std_specs::hash::group_hash_axioms;

/// The name under which the satellite records itself.
pub const CONTRACT_NAME: &'static str = "astro-satellite";

/// The version under which the satellite records itself.
pub const CONTRACT_VERSION: &'static str = "1.2.1";

/// The record the satellite keeps of its own code.
pub open spec fn own_version() -> ContractVersionView {
    ContractVersionView { contract: CONTRACT_NAME@, version: CONTRACT_VERSION@ }
}

/// Sets the satellite up. The response is empty.
pub fn instantiate<M>(
    env: &Env,
    info: &MessageInfo,
    msg: InstantiateMsg,
    owner_error: AddrVerdict,
    emergency_owner_error: AddrVerdict,
) -> (result: Result<(Store, Response<M>), ContractError>)
    ensures
        match instantiate_outcome(
            msg.deep_view(),
            env.block.time,
            own_version(),
            owner_error.deep_view(),
            emergency_owner_error.deep_view(),
        ) {
            Ok(fresh) => {
                &&& result matches Ok((store, response))
                &&& store.deep_view() == fresh
                &&& store.deep_view().config.wf()
                &&& response.deep_view() == (ResponseView::<M> {
                    messages: seq![],
                    attributes: seq![],
                })
            },
            Err(error) => result matches Err(e) && e.deep_view() == error,
        },
{
    let version = ContractVersion::new(CONTRACT_NAME, CONTRACT_VERSION);
    match instantiate_state(env, msg, version, owner_error, emergency_owner_error) {
        Ok(store) => Ok((store, Response::new())),
        Err(error) => Err(error),
    }
}

/// The news that a sub-message which had asked for a callback succeeded.
#[derive(Clone, Copy, Debug, PartialEq, Eq, Structural)]
pub struct Reply {
    /// The number under which the sub-message had asked.
    pub id: u64,
}

/// What a callback leads to. The proposal in the slot is recorded as
/// completed at `height` and the slot is emptied. A callback that finds
/// the slot empty, or that comes under another number than
/// [`RECEIVE_ID`], is refused.
pub open spec fn reply_outcome<M>(store: StoreView, height: u64, reply: Reply) -> Outcome<M> {
    match store.reply_data {
        None => Err(ContractErrorView::NotFound { kind: "reply_data"@ }),
        Some(proposal_id) => if reply.id != RECEIVE_ID {
            Err(ContractErrorView::InvalidReplyId)
        } else {
            Ok(
                (
                    StoreView {
                        results: store.results.insert(proposal_id, height),
                        reply_data: None,
                        ..store
                    },
                    ResponseView { messages: seq![], attributes: seq![] },
                ),
            )
        },
    }
}

/// Takes the callback of a proposal's last message: the proposal is
/// completed.
pub fn reply<M>(store: &mut Store, env: &Env, msg: Reply) -> (result: Result<
    Response<M>,
    ContractError,
>)
    ensures
        meets(
            reply_outcome(old(store).deep_view(), env.block.height, msg),
            *old(store),
            *final(store),
            result,
        ),
{
    let proposal_id = match store.reply_data {
        None => {
            return Err(ContractError::NotFound { kind: String::from_str("reply_data") });
        },
        Some(proposal_id) => proposal_id,
    };
    if msg.id != RECEIVE_ID {
        return Err(ContractError::InvalidReplyId);
    }
    store.results.insert(proposal_id, env.block.height);
    store.reply_data = None;
    Ok(Response::new())
}

/// What forwarding the satellite's balance leads to. Anyone may ask for
/// it; nothing is stored. The whole balance goes to the maker on the hub,
/// and the transfer times out the configured number of seconds after `now`.
pub open spec fn transfer_outcome<M>(store: StoreView, now: u64, astro_balance: u128) -> Outcome<M> {
    if astro_balance == 0 {
        Err(ContractErrorView::NoAstroBalance)
    } else if seconds_after(now, store.config.timeout) > u64::MAX {
        Err(ContractErrorView::TimeoutOverflow)
    } else {
        Ok(
            (
                store,
                ResponseView {
                    messages: seq![
                        fire_and_forget(
                            OutMsgView::Transfer {
                                channel_id: store.config.transfer_channel,
                                to_address: store.config.main_maker,
                                amount: CoinView {
                                    denom: store.config.astro_denom,
                                    amount: astro_balance,
                                },
                                timeout: seconds_after(now, store.config.timeout) as u64,
                            },
                        ),
                    ],
                    attributes: seq![AttributeView { key: "action"@, value: "transfer_astro"@ }],
                },
            ),
        )
    }
}

/// Forwards the satellite's balance of the token, which the host reports
/// as `astro_balance`, to the hub.
pub fn transfer_astro<M>(store: &Store, env: &Env, astro_balance: u128) -> (result: Result<
    Response<M>,
    ContractError,
>)
    ensures
        match transfer_outcome::<M>(store.deep_view(), env.block.time, astro_balance) {
            Ok((_, response)) => result matches Ok(r) && r.deep_view() == response,
            Err(error) => result matches Err(e) && e.deep_view() == error,
        },
{
    if astro_balance == 0 {
        return Err(ContractError::NoAstroBalance);
    }
    let timeout = match checked_plus_seconds(env.block.time, store.config.timeout) {
        None => {
            return Err(ContractError::TimeoutOverflow);
        },
        Some(timeout) => timeout,
    };
    let mut response = Response::new();
    response.add_message(
        OutMsg::Transfer {
            channel_id: store.config.transfer_channel.clone(),
            to_address: store.config.main_maker.clone(),
            amount: Coin { denom: store.config.astro_denom.clone(), amount: astro_balance },
            timeout,
        },
    );
    response.add_attribute(attr_text("action", "transfer_astro"));
    proof {
        let expected = transfer_outcome::<M>(
            store.deep_view(),
            env.block.time,
            astro_balance,
        )->Ok_0.1;
        assert(response.deep_view().messages =~= expected.messages);
        assert(response.deep_view().attributes =~= expected.attributes);
    }
    Ok(response)
}

/// The word that marks a message as a grant of authorization.
pub const GRANT_MARK: &'static str = "MsgGrant";

/// Why a message of this kind may not be checked by the satellite at
/// `contract`, if it may not: the host refused the address it aims at, it
/// would migrate the satellite or change its admin, or it is a grant.
pub open spec fn vet(kind: MsgKindView, contract: Seq<char>) -> Option<ContractErrorView> {
    match kind {
        MsgKindView::WasmAdmin { contract_addr, addr_error } => match addr_error {
            Some(reason) => Some(ContractErrorView::Std(reason)),
            None => if contract_addr == contract {
                Some(ContractErrorView::SelfAdminMessage)
            } else {
                None
            },
        },
        MsgKindView::Stargate { type_url } => if occurs_in(type_url, GRANT_MARK@) {
            Some(ContractErrorView::GrantMessage)
        } else {
            None
        },
        MsgKindView::Other => None,
    }
}

/// Why the messages from position `from` on may not be checked: the
/// objection to the first of them that meets one.
pub open spec fn first_refusal<M>(
    messages: Seq<ProposalMessageView<M>>,
    contract: Seq<char>,
    from: int,
) -> Option<ContractErrorView>
    decreases messages.len() - from,
{
    if from < 0 || from >= messages.len() {
        None
    } else {
        match vet(messages[from].kind, contract) {
            Some(error) => Some(error),
            None => first_refusal(messages, contract, from + 1),
        }
    }
}

/// The messages of a proposal as sub-messages without callbacks, in order.
pub open spec fn relayed<M>(messages: Seq<ProposalMessageView<M>>) -> Seq<SubMsgView<M>> {
    Seq::new(messages.len(), |i: int| fire_and_forget(OutMsgView::Proposal(messages[i].msg)))
}

/// What vetting messages for a check leads to. Where no message meets an
/// objection, the messages go out in order, followed by the call on the
/// satellite at `contract` that makes the whole check fail in the end.
pub open spec fn vetting_outcome<M>(
    contract: Seq<char>,
    messages: Seq<ProposalMessageView<M>>,
) -> Result<ResponseView<M>, ContractErrorView> {
    match first_refusal(messages, contract, 0) {
        Some(error) => Err(error),
        None => Ok(
            ResponseView {
                messages: relayed(messages).push(
                    fire_and_forget(OutMsgView::CheckMessagesPassed { contract_addr: contract }),
                ),
                attributes: seq![AttributeView { key: "action"@, value: "check_messages"@ }],
            },
        ),
    }
}

/// What a check of messages leads to. Only the satellite itself, which
/// stands at `contract`, may ask for one: any other sender is refused
/// before a message is looked at. From the satellite the messages are
/// vetted and sent off as `vetting_outcome` says.
pub open spec fn check_outcome<M>(
    sender: Seq<char>,
    contract: Seq<char>,
    messages: Seq<ProposalMessageView<M>>,
) -> Result<ResponseView<M>, ContractErrorView> {
    if sender != contract {
        Err(ContractErrorView::Unauthorized)
    } else {
        vetting_outcome(contract, messages)
    }
}

fn vet_message(kind: &MsgKind, contract: &String) -> (refusal: Option<ContractError>)
    ensures
        refusal.deep_view() == vet(kind.deep_view(), contract@),
{
    match kind {
        MsgKind::WasmAdmin { contract_addr, addr_error } => match addr_error {
            Some(reason) => Some(ContractError::Std(reason.clone())),
            None => if *contract_addr == *contract {
                Some(ContractError::SelfAdminMessage)
            } else {
                None
            },
        },
        MsgKind::Stargate { type_url } => if contains(type_url.as_str(), GRANT_MARK) {
            Some(ContractError::GrantMessage)
        } else {
            None
        },
        MsgKind::Other => None,
    }
}

fn relay<M>(messages: Vec<ProposalMessage<M>>) -> (response: Response<M>)
    ensures
        response.deep_view() == (ResponseView {
            messages: relayed(messages.deep_view()),
            attributes: seq![],
        }),
{
    let ghost input = messages.deep_view();
    let mut rest = messages;
    let mut response = Response::new();
    let ghost mut done: int = 0;
    while rest.len() > 0
        invariant
            0 <= done,
            done + rest.len() == input.len(),
            rest.deep_view() == input.subrange(done, input.len() as int),
            response.deep_view().messages == relayed(input).subrange(0, done),
            response.deep_view().attributes == Seq::<AttributeView>::empty(),
        decreases rest.len(),
    {
        let ghost rest_before = rest.deep_view();
        let ghost rest_items = rest@;
        let item = rest.remove(0);
        assert(item.deep_view() == input[done]) by {
            assert(rest_before[0] == input[done]);
        }
        assert(rest.deep_view() =~= input.subrange(done + 1, input.len() as int)) by {
            assert forall|k: int| 0 <= k < rest.len() implies rest.deep_view()[k] == input[done + 1
                + k] by {
                assert(rest@[k] == rest_items[k + 1]);
                assert(rest_before[k + 1] == input[done + k + 1]);
            }
        }
        response.add_message(OutMsg::Proposal(item.msg));
        assert(response.deep_view().messages =~= relayed(input).subrange(0, done + 1));
        proof {
            done = done + 1;
        }
    }
    assert(relayed(input).subrange(0, input.len() as int) =~= relayed(input));
    response
}

/// Vets the messages of a proposal and sends them off, followed by a call
/// that fails, so that the host runs them and then drops what they did.
/// Who asks is not looked at.
pub fn vet_and_relay<M>(env: &Env, messages: Vec<ProposalMessage<M>>) -> (result: Result<
    Response<M>,
    ContractError,
>)
    ensures
        match vetting_outcome(env.contract_address@, messages.deep_view()) {
            Ok(response) => result matches Ok(r) && r.deep_view() == response,
            Err(error) => result matches Err(e) && e.deep_view() == error,
        },
{
    let ghost input = messages.deep_view();
    let mut i: usize = messages.len();
    let mut refusal: Option<ContractError> = None;
    while i > 0
        invariant
            i <= messages.len(),
            input == messages.deep_view(),
            refusal.deep_view() == first_refusal(input, env.contract_address@, i as int),
        decreases i,
    {
        i = i - 1;
        match vet_message(&messages[i].kind, &env.contract_address) {
            Some(error) => {
                refusal = Some(error);
            },
            None => {},
        }
    }
    match refusal {
        Some(error) => Err(error),
        None => {
            let mut response = relay(messages);
            response.add_message(
                OutMsg::CheckMessagesPassed { contract_addr: env.contract_address.clone() },
            );
            response.add_attribute(attr_text("action", "check_messages"));
            proof {
                let expected = vetting_outcome(env.contract_address@, input)->Ok_0;
                assert(response.deep_view().messages =~= expected.messages);
                assert(response.deep_view().attributes =~= expected.attributes);
            }
            Ok(response)
        },
    }
}

/// Checks that the messages of a proposal can run, on behalf of the
/// satellite itself and of nobody else.
pub fn check_messages<M>(info: &MessageInfo, env: &Env, messages: Vec<ProposalMessage<M>>) -> (result:
    Result<Response<M>, ContractError>)
    ensures
        match check_outcome(info.sender@, env.contract_address@, messages.deep_view()) {
            Ok(response) => result matches Ok(r) && r.deep_view() == response,
            Err(error) => result matches Err(e) && e.deep_view() == error,
        },
{
    if info.sender != env.contract_address {
        return Err(ContractError::Unauthorized);
    }
    vet_and_relay(env, messages)
}

/// What running messages on behalf of the admin leads to. `admin` is the
/// admin of the satellite as the host reports it. Only the admin may ask,
/// and not where the satellite is its own admin.
pub open spec fn multisig_outcome<M>(
    admin: Option<Seq<char>>,
    sender: Seq<char>,
    contract: Seq<char>,
    messages: Seq<ProposalMessageView<M>>,
) -> Result<ResponseView<M>, ContractErrorView> {
    match admin {
        None => Err(ContractErrorView::Unauthorized),
        Some(admin) => if admin != sender || admin == contract {
            Err(ContractErrorView::Unauthorized)
        } else {
            Ok(ResponseView { messages: relayed(messages), attributes: seq![] })
        },
    }
}

/// Runs messages on behalf of the satellite's admin.
pub fn exec_from_multisig<M>(
    admin: &Option<String>,
    info: &MessageInfo,
    env: &Env,
    messages: Vec<ProposalMessage<M>>,
) -> (result: Result<Response<M>, ContractError>)
    ensures
        match multisig_outcome(
            admin.deep_view(),
            info.sender@,
            env.contract_address@,
            messages.deep_view(),
        ) {
            Ok(response) => result matches Ok(r) && r.deep_view() == response,
            Err(error) => result matches Err(e) && e.deep_view() == error,
        },
{
    match admin {
        None => Err(ContractError::Unauthorized),
        Some(admin) => {
            if *admin != info.sender || *admin == env.contract_address {
                Err(ContractError::Unauthorized)
            } else {
                Ok(relay(messages))
            }
        },
    }
}

/// What the host answered to the questions that a call depends on. Each
/// answer counts for the one message that asks for it.
#[derive(Clone, Debug, PartialEq, Eq)]
pub struct HostAnswers {
    /// The satellite's balance of the token it forwards, for `TransferAstro`.
    pub astro_balance: u128,
    /// The satellite's admin, for `ExecuteFromMultisig`.
    pub admin: Option<String>,
    /// The verdict on the address that `UpdateConfig` or `ProposeNewOwner` names.
    pub addr_error: AddrVerdict,
}

/// The mathematical value of [`HostAnswers`].
pub struct HostAnswersView {
    pub astro_balance: u128,
    pub admin: Option<Seq<char>>,
    pub addr_error: Option<Seq<char>>,
}

impl DeepView for HostAnswers {
    type V = HostAnswersView;

    open spec fn deep_view(&self) -> HostAnswersView {
        HostAnswersView {
            astro_balance: self.astro_balance,
            admin: self.admin.deep_view(),
            addr_error: self.addr_error.deep_view(),
        }
    }
}

/// An outcome that leaves the store as it is.
pub open spec fn unchanged<M>(
    store: StoreView,
    response: Result<ResponseView<M>, ContractErrorView>,
) -> Outcome<M> {
    match response {
        Ok(response) => Ok((store, response)),
        Err(error) => Err(error),
    }
}

/// What a call leads to, by the message it brings.
pub open spec fn execute_outcome<M>(
    store: StoreView,
    now: u64,
    contract: Seq<char>,
    sender: Seq<char>,
    msg: ExecuteMsgView<M>,
    answers: HostAnswersView,
) -> Outcome<M> {
    match msg {
        ExecuteMsgView::TransferAstro => transfer_outcome(store, now, answers.astro_balance),
        ExecuteMsgView::UpdateConfig(params) => update_config_outcome(
            store,
            sender,
            now,
            params,
            answers.addr_error,
        ),
        ExecuteMsgView::CheckMessages(messages) => unchanged(
            store,
            check_outcome(sender, contract, messages),
        ),
        ExecuteMsgView::ExecuteFromMultisig(messages) => unchanged(
            store,
            multisig_outcome(answers.admin, sender, contract, messages),
        ),
        ExecuteMsgView::CheckMessagesPassed => Err(ContractErrorView::MessagesCheckPassed),
        ExecuteMsgView::ProposeNewOwner { owner, expires_in } => match propose_outcome(
            sender,
            store.config.owner,
            owner,
            answers.addr_error,
            expires_in,
            now,
        ) {
            Ok(proposal) => Ok(
                (
                    StoreView { ownership_proposal: Some(proposal), ..store },
                    step_response("propose_new_owner"@, Some(owner)),
                ),
            ),
            Err(error) => Err(ContractErrorView::Ownership(error)),
        },
        ExecuteMsgView::DropOwnershipProposal => if sender == store.config.owner {
            Ok(
                (
                    StoreView { ownership_proposal: None, ..store },
                    step_response("drop_ownership_proposal"@, None),
                ),
            )
        } else {
            Err(ContractErrorView::Ownership(OwnershipErrorView::Unauthorized))
        },
        ExecuteMsgView::ClaimOwnership => match claim_outcome(
            store.ownership_proposal,
            sender,
            now,
        ) {
            Ok(new_owner) => Ok(
                (
                    StoreView {
                        config: ConfigView { owner: new_owner, ..store.config },
                        ownership_proposal: None,
                        ..store
                    },
                    step_response("claim_ownership"@, Some(new_owner)),
                ),
            ),
            Err(error) => Err(ContractErrorView::Ownership(error)),
        },
        ExecuteMsgView::SetEmergencyOwnerAsAdmin => escalation_outcome(
            store,
            sender,
            now,
            contract,
        ),
    }
}

/// Carries out a call. Whenever the call fails, the store is left as it was.
pub fn execute<M>(
    store: &mut Store,
    env: &Env,
    info: &MessageInfo,
    msg: ExecuteMsg<M>,
    answers: HostAnswers,
) -> (result: Result<Response<M>, ContractError>)
    ensures
        meets(
            execute_outcome(
                old(store).deep_view(),
                env.block.time,
                env.contract_address@,
                info.sender@,
                msg.deep_view(),
                answers.deep_view(),
            ),
            *old(store),
            *final(store),
            result,
        ),
{
    match msg {
        ExecuteMsg::TransferAstro => transfer_astro(store, env, answers.astro_balance),
        ExecuteMsg::UpdateConfig(params) => update_config(
            store,
            info,
            env,
            params,
            answers.addr_error,
        ),
        ExecuteMsg::CheckMessages(messages) => check_messages(info, env, messages),
        ExecuteMsg::ExecuteFromMultisig(messages) => exec_from_multisig(
            &answers.admin,
            info,
            env,
            messages,
        ),
        ExecuteMsg::CheckMessagesPassed => Err(ContractError::MessagesCheckPassed),
        ExecuteMsg::ProposeNewOwner { owner, expires_in } => {
            match propose_new_owner(
                &mut store.ownership_proposal,
                info,
                env,
                owner,
                answers.addr_error,
                expires_in,
                &store.config.owner,
            ) {
                Ok(response) => Ok(response),
                Err(error) => Err(ContractError::Ownership(error)),
            }
        },
        ExecuteMsg::DropOwnershipProposal => {
            match drop_ownership_proposal(&mut store.ownership_proposal, info, &store.config.owner) {
                Ok(response) => Ok(response),
                Err(error) => Err(ContractError::Ownership(error)),
            }
        },
        ExecuteMsg::ClaimOwnership => {
            match claim_ownership(
                &mut store.ownership_proposal,
                &mut store.config.owner,
                info,
                env,
            ) {
                Ok(response) => Ok(response),
                Err(error) => Err(ContractError::Ownership(error)),
            }
        },
        ExecuteMsg::SetEmergencyOwnerAsAdmin => set_emergency_owner_as_admin(store, env, info),
    }
}

/// The height at which the proposal asked about was completed, or what is missing.
pub open spec fn query_outcome(store: StoreView, msg: QueryMsg) -> Result<u64, ContractErrorView> {
    match msg {
        QueryMsg::ProposalState { id } => if store.results.contains_key(id) {
            Ok(store.results[id])
        } else {
            Err(ContractErrorView::NotFound { kind: "results"@ })
        },
    }
}

/// Answers a query from the store.
pub fn query(store: &Store, msg: QueryMsg) -> (result: Result<u64, ContractError>)
    ensures
        match query_outcome(store.deep_view(), msg) {
            Ok(height) => result == Ok::<u64, ContractError>(height),
            Err(error) => result matches Err(e) && e.deep_view() == error,
        },
{
    match msg {
        QueryMsg::ProposalState { id } => match store.results.get(&id) {
            Some(height) => Ok(*height),
            None => Err(ContractError::NotFound { kind: String::from_str("results") }),
        },
    }
}

/// Whether this code can take over from the code that `stored` names.
pub open spec fn can_migrate_from(stored: ContractVersionView) -> bool {
    stored.contract == "astro-satellite"@ && (stored.version == "1.1.0-hubmove"@ || stored.version
        == "1.2.0"@)
}

/// What a migration leads to: the store records this code as its own, and
/// the response names the old and the new record.
pub open spec fn migrate_outcome<M>(store: StoreView) -> Outcome<M> {
    if can_migrate_from(store.contract_version) {
        Ok(
            (
                StoreView { contract_version: own_version(), ..store },
                ResponseView {
                    messages: seq![],
                    attributes: migration_attributes(store.contract_version, own_version()),
                },
            ),
        )
    } else {
        Err(ContractErrorView::MigrationError)
    }
}

/// Takes the store over from one of the versions of the satellite that
/// this code can follow.
pub fn migrate<M>(store: &mut Store) -> (result: Result<Response<M>, ContractError>)
    ensures
        meets(migrate_outcome(old(store).deep_view()), *old(store), *final(store), result),
{
    if !reads_as(&store.contract_version.contract, "astro-satellite") {
        return Err(ContractError::MigrationError);
    }
    if !reads_as(&store.contract_version.version, "1.1.0-hubmove") && !reads_as(
        &store.contract_version.version,
        "1.2.0",
    ) {
        return Err(ContractError::MigrationError);
    }
    let current = ContractVersion::new(CONTRACT_NAME, CONTRACT_VERSION);
    let attributes = report_migration(&store.contract_version, &current);
    store.contract_version = current;
    let response = Response { messages: Vec::new(), attributes };
    assert(response.deep_view().messages =~= Seq::empty());
    Ok(response)
}

} // verus!

use astro_gov_relay::controller_package::IbcProposal;
use astro_gov_relay::governance::{MsgKind, ProposalMessage};
use astro_gov_relay::host::{
    attr, BlockInfo, ChannelHandshake, Coin, Decoded, Env, IbcOrder, IbcReceiveResponse,
    MessageInfo, OutMsg, ReplyOn, Response, SubMsg,
};
use astro_gov_relay::limits::{signal_outage_limits, timeout_limits};
use astro_gov_relay::satellite::batch::{plan_execution, sort_by_order, RECEIVE_ID};
use astro_gov_relay::satellite::contract::{
    check_messages, exec_from_multisig, execute, instantiate, migrate, query, reply,
    vet_and_relay, HostAnswers, Reply, CONTRACT_NAME, CONTRACT_VERSION,
};
use astro_gov_relay::satellite::error::ContractError;
use astro_gov_relay::satellite::ibc::{
    ack_fail, ack_ok, do_packet_receive, encode_ack, frame_ack, ibc_channel_close,
    ibc_channel_connect, ibc_channel_open, ibc_packet_receive, select_envelope,
    IbcPacketReceiveMsg, IBC_APP_VERSION,
};
use astro_gov_relay::satellite::migration::{migrate_to_v100, ConfigV020, MigrateMsg};
use astro_gov_relay::satellite::state::{store_proposal, Store};
use astro_gov_relay::satellite_package::{
    ExecuteMsg, IbcAckResult, InstantiateMsg, QueryMsg, SatelliteMsg, UpdateConfigMsg,
};
use astro_gov_relay::version::ContractVersion;
use cosmwasm_std::{from_json, CosmosMsg, Empty, StdAck, Timestamp};

const OWNER: &str = "owner";
const CONTROLLER: &str = "controller";
const GOV_CHANNEL: &str = "channel-20";
const SATELLITE: &str = "cosmos2contract";
const START: u64 = 1_571_797_419_879_305_533;

fn mock_env() -> Env {
    Env { block: BlockInfo { height: 12_345, time: START }, contract_address: SATELLITE.to_string() }
}

fn mock_info(sender: &str) -> MessageInfo {
    MessageInfo { sender: sender.to_string(), funds: vec![] }
}

fn mock_all(sender: &str) -> (Env, MessageInfo) {
    (mock_env(), mock_info(sender))
}

fn no_answers() -> HostAnswers {
    HostAnswers { astro_balance: 0, admin: None, addr_error: None }
}

fn instantiate_msg(owner: &str, emergency_owner: &str, timeout: u64) -> InstantiateMsg {
    InstantiateMsg {
        owner: owner.to_string(),
        astro_denom: "none".to_string(),
        transfer_channel: "none".to_string(),
        main_controller: "none".to_string(),
        main_maker: "none".to_string(),
        timeout,
        max_signal_outage: 1209600,
        emergency_owner: emergency_owner.to_string(),
    }
}

fn init_contract(env: &Env, info: &MessageInfo) -> Store {
    let unit = |timeout: u64| InstantiateMsg {
        owner: OWNER.to_string(),
        astro_denom: "".to_string(),
        transfer_channel: "".to_string(),
        main_controller: CONTROLLER.to_string(),
        main_maker: "".to_string(),
        timeout,
        max_signal_outage: 1209600,
        emergency_owner: OWNER.to_string(),
    };
    let err = instantiate::<CosmosMsg>(env, info, unit(0), None, None).unwrap_err();
    assert_eq!(ContractError::TimeoutLimitsError, err);

    let (store, _) = instantiate::<CosmosMsg>(env, info, unit(60), None, None).unwrap();
    store
}

fn no_patch() -> UpdateConfigMsg {
    UpdateConfigMsg {
        astro_denom: None,
        gov_channel: None,
        main_controller_addr: None,
        main_maker: None,
        transfer_channel: None,
        accept_new_connections: None,
        timeout: None,
        max_signal_outage: None,
        emergency_owner: None,
    }
}

fn mock_ibc_channel_connect_ack(
    my_channel_id: &str,
    order: IbcOrder,
    version: &str,
    their_port: &str,
) -> ChannelHandshake {
    ChannelHandshake {
        channel_id: my_channel_id.to_string(),
        counterparty_port_id: their_port.to_string(),
        order,
        version: version.to_string(),
        counterparty_version: Some(version.to_string()),
    }
}

fn unreadable(channel_id: &str) -> IbcPacketReceiveMsg<CosmosMsg> {
    IbcPacketReceiveMsg {
        dest_channel_id: channel_id.to_string(),
        current: Decoded::Malformed("Error parsing into type SatelliteMsg".to_string()),
        legacy: Decoded::Malformed("Error parsing into type IbcProposal".to_string()),
    }
}

fn plain(msg: CosmosMsg) -> ProposalMessage<CosmosMsg> {
    ProposalMessage { order: None, kind: MsgKind::Other, msg }
}

fn noop(text: &str) -> CosmosMsg {
    CosmosMsg::Stargate { type_url: text.to_string(), value: Default::default() }
}

fn numbered(order: Option<u64>, text: &str) -> ProposalMessage<CosmosMsg> {
    ProposalMessage { order, kind: MsgKind::Other, msg: noop(text) }
}

fn set_gov_channel(store: &mut Store, env: &Env, info: &MessageInfo) {
    execute::<CosmosMsg>(
        store,
        env,
        info,
        ExecuteMsg::UpdateConfig(UpdateConfigMsg {
            gov_channel: Some(GOV_CHANNEL.to_string()),
            ..no_patch()
        }),
        no_answers(),
    )
    .unwrap();
}

#[test]
fn channel_open() {
    let (env, info) = mock_all(OWNER);
    let mut store = init_contract(&env, &info);

    // Trying to establish channel with wrong remote controller address
    let connect_msg = mock_ibc_channel_connect_ack(
        "channel-0",
        IbcOrder::Unordered,
        IBC_APP_VERSION,
        "wasm.wrong_controller_addr",
    );
    let err = ibc_channel_connect::<CosmosMsg>(&mut store, &connect_msg).unwrap_err();
    assert_eq!(
        err,
        ContractError::InvalidSourcePort {
            invalid: "wasm.wrong_controller_addr".to_string(),
            valid: format!("wasm.{}", CONTROLLER),
        }
    );

    // Correct parameters
    let connect_msg = mock_ibc_channel_connect_ack(
        GOV_CHANNEL,
        IbcOrder::Unordered,
        IBC_APP_VERSION,
        &format!("wasm.{}", CONTROLLER),
    );
    ibc_channel_connect::<CosmosMsg>(&mut store, &connect_msg).unwrap();

    // Setup governance channel
    set_gov_channel(&mut store, &env, &info);

    // Once gov channel was set up new channels can not be established
    let connect_msg = mock_ibc_channel_connect_ack(
        "channel-21",
        IbcOrder::Unordered,
        IBC_APP_VERSION,
        &format!("wasm.{}", CONTROLLER),
    );
    let err = ibc_channel_connect::<CosmosMsg>(&mut store, &connect_msg).unwrap_err();
    assert_eq!(err, ContractError::ChannelAlreadyEstablished { channel_id: GOV_CHANNEL.to_string() })
}

#[test]
fn packet_receive() {
    let (env, info) = mock_all(OWNER);
    let mut store = init_contract(&env, &info);

    // Governance channel was not set yet
    let msg = unreadable("random_channel");
    // However, we will never receive error here, but encoded error message in .acknowledgement field
    let resp = ibc_packet_receive(&mut store, &env, msg).unwrap();
    let ack: StdAck = from_json(resp.acknowledgement).unwrap();
    assert_eq!(ack, StdAck::Error("Governance is not established yet".to_string()));

    // Setup governance channel
    set_gov_channel(&mut store, &env, &info);

    // Trying to send messages via wrong channel
    let msg = unreadable("channel-5");
    let resp = ibc_packet_receive(&mut store, &env, msg).unwrap();
    let ack: StdAck = from_json(resp.acknowledgement).unwrap();
    assert_eq!(
        ack,
        StdAck::Error(format!("Invalid governance channel: channel-5. Should be {}", GOV_CHANNEL))
    );

    let ibc_proposal = IbcProposal {
        id: 1,
        messages: vec![
            // pass any valid CosmosMsg message.
            // The meaning of this msg doesn't matter as this is just a unit test
            plain(CosmosMsg::Custom(Empty {})),
        ],
    };
    // Send messages via governance channel
    let msg = IbcPacketReceiveMsg {
        dest_channel_id: GOV_CHANNEL.to_string(),
        current: Decoded::Malformed("unknown variant `id`".to_string()),
        legacy: Decoded::Value(ibc_proposal),
    };
    let resp = ibc_packet_receive(&mut store, &env, msg).unwrap();
    assert_eq!(resp.messages.last().unwrap().reply_on, ReplyOn::Success);
    assert_eq!(resp.acknowledgement, br#"{"ok":"b2s="}"#.to_vec());
    assert_eq!(resp.acknowledgement, ack_ok());
}

#[test]
fn test_check_messages() {
    let owner = OWNER;
    let (env, info) = mock_all(owner);

    let err = instantiate::<CosmosMsg>(&env, &info, instantiate_msg(owner, owner, 0), None, None)
        .unwrap_err();
    assert_eq!(
        format!(
            "Timeout must be within limits ({} <= timeout <= {})",
            timeout_limits().start(),
            timeout_limits().end()
        ),
        err.message()
    );

    let (mut store, _) =
        instantiate::<CosmosMsg>(&env, &info, instantiate_msg(owner, owner, 60), None, None)
            .unwrap();

    let messages: Vec<_> = (0..5).into_iter().map(|_| plain(CosmosMsg::Custom(Empty {}))).collect();

    // a check is for the satellite itself: the owner is refused
    let before = store.clone();
    let err = execute(
        &mut store,
        &env,
        &info,
        ExecuteMsg::CheckMessages(messages.clone()),
        no_answers(),
    )
    .unwrap_err();
    assert_eq!(ContractError::Unauthorized, err);
    assert_eq!(store, before);

    // the host runs what the check asks for, and the last of it fails the whole call
    let resp = execute(
        &mut store,
        &env,
        &mock_info(SATELLITE),
        ExecuteMsg::CheckMessages(messages),
        no_answers(),
    )
    .unwrap();
    assert_eq!(resp.messages.len(), 6);
    let mut outcome = Ok(());
    for sub in resp.messages {
        match sub.msg {
            OutMsg::Proposal(_) => {}
            OutMsg::CheckMessagesPassed { contract_addr } => {
                assert_eq!(contract_addr, SATELLITE);
                outcome = execute::<CosmosMsg>(
                    &mut store,
                    &env,
                    &mock_info(&contract_addr),
                    ExecuteMsg::CheckMessagesPassed,
                    no_answers(),
                )
                .map(|_| ());
            }
            _ => panic!("Unexpected message"),
        }
    }
    let err = outcome.unwrap_err();
    assert_eq!(ContractError::MessagesCheckPassed, err);
    assert_eq!(store, before);
}

#[test]
fn test_execute_multisig() {
    let owner = OWNER;
    let (env, info) = mock_all(owner);
    let (mut store, _) =
        instantiate::<CosmosMsg>(&env, &info, instantiate_msg(owner, owner, 60), None, None)
            .unwrap();
    let admin = HostAnswers { astro_balance: 0, admin: Some(owner.to_string()), addr_error: None };

    let messages: Vec<_> = (0..5).into_iter().map(|_| plain(CosmosMsg::Custom(Empty {}))).collect();

    let random = mock_info("random");
    let err = execute(
        &mut store,
        &env,
        &random,
        ExecuteMsg::ExecuteFromMultisig(messages.clone()),
        admin.clone(),
    )
    .unwrap_err();
    assert_eq!(ContractError::Unauthorized, err);

    let resp =
        execute(&mut store, &env, &info, ExecuteMsg::ExecuteFromMultisig(messages), admin).unwrap();
    assert_eq!(resp.messages.len(), 5);
}

#[test]
fn test_check_update_configs() {
    let owner = OWNER;
    let (env, info) = mock_all(owner);
    let (mut store, _) =
        instantiate::<CosmosMsg>(&env, &info, instantiate_msg(owner, owner, 60), None, None)
            .unwrap();

    execute::<CosmosMsg>(
        &mut store,
        &env,
        &info,
        ExecuteMsg::UpdateConfig(UpdateConfigMsg {
            main_controller_addr: Some("controller_addr_test".to_string()),
            ..no_patch()
        }),
        no_answers(),
    )
    .unwrap();

    assert_eq!("wasm.controller_addr_test", store.config.main_controller_port);

    let err = execute::<CosmosMsg>(
        &mut store,
        &env,
        &info,
        ExecuteMsg::UpdateConfig(UpdateConfigMsg {
            gov_channel: Some("controller_addr_test".to_string()),
            accept_new_connections: Some(true),
            ..no_patch()
        }),
        no_answers(),
    )
    .unwrap_err();
    assert_eq!("The gov_channel and the accept_new_connections settings cannot be specified at the same time", err.message());

    execute::<CosmosMsg>(
        &mut store,
        &env,
        &info,
        ExecuteMsg::UpdateConfig(UpdateConfigMsg {
            gov_channel: Some("controller_addr_test".to_string()),
            accept_new_connections: Some(false),
            ..no_patch()
        }),
        no_answers(),
    )
    .unwrap();
}

fn update_emergency_owner(
    store: &mut Store,
    env: &Env,
    sender: &str,
    emergency_owner: &str,
) -> Result<Response<CosmosMsg>, ContractError> {
    execute(
        store,
        env,
        &mock_info(sender),
        ExecuteMsg::UpdateConfig(UpdateConfigMsg {
            emergency_owner: Some(emergency_owner.to_string()),
            ..no_patch()
        }),
        no_answers(),
    )
}

fn update_admin(
    store: &mut Store,
    env: &Env,
    sender: &str,
) -> Result<Response<CosmosMsg>, ContractError> {
    execute(store, env, &mock_info(sender), ExecuteMsg::SetEmergencyOwnerAsAdmin, no_answers())
}

fn admin_handover(emergency_owner: &str) -> SubMsg<CosmosMsg> {
    SubMsg {
        id: 0,
        msg: OutMsg::UpdateAdmin {
            contract_addr: SATELLITE.to_string(),
            admin: emergency_owner.to_string(),
        },
        reply_on: ReplyOn::Never,
    }
}

fn assert_unauthorized(result: Result<Response<CosmosMsg>, ContractError>) {
    assert_eq!(result.unwrap_err(), ContractError::Unauthorized)
}

#[test]
fn check_ownership_capabilities() {
    let astroport = "astroport";
    let emergency_owner = "emergency_owner";
    let another_user = "another_user";

    let mut env = mock_env();
    let (mut store, _) = instantiate::<CosmosMsg>(
        &env,
        &mock_info(astroport),
        InstantiateMsg {
            owner: astroport.to_string(),
            timeout: timeout_limits().start(),
            emergency_owner: emergency_owner.to_string(),
            max_signal_outage: signal_outage_limits().start(),
            main_maker: "maker".to_string(),
            astro_denom: "astro".to_string(),
            main_controller: "controller".to_string(),
            transfer_channel: "channel".to_string(),
        },
        None,
        None,
    )
    .unwrap();

    // Setting the same emergency owner just to check the capability
    update_emergency_owner(&mut store, &env, astroport, emergency_owner).unwrap();

    // The owner may hand the admin role to the emergency owner at any time
    let resp = update_admin(&mut store, &env, astroport).unwrap();
    assert_eq!(resp.messages, vec![admin_handover(emergency_owner)]);

    // The emergency owner may not change any parameters nor contract admin until max signal outage
    // is reached
    assert_unauthorized(update_emergency_owner(&mut store, &env, emergency_owner, emergency_owner));
    assert_unauthorized(update_admin(&mut store, &env, emergency_owner));

    // No one else, of course, may change anything
    assert_unauthorized(update_emergency_owner(&mut store, &env, another_user, another_user));
    assert_unauthorized(update_admin(&mut store, &env, another_user));

    // Let's check the same when signal outage is reached
    env.block.time =
        Timestamp::from_nanos(env.block.time).plus_seconds(signal_outage_limits().start() + 1).nanos();
    env.block.height += 1;

    // The main owner still can change everything
    update_emergency_owner(&mut store, &env, astroport, emergency_owner).unwrap();

    // Again, the owner may hand the admin role over, outage or not
    let resp = update_admin(&mut store, &env, astroport).unwrap();
    assert_eq!(resp.messages, vec![admin_handover(emergency_owner)]);

    // The emergency owner may change many parameters or contract admin now
    update_emergency_owner(&mut store, &env, emergency_owner, emergency_owner).unwrap();
    let resp = update_admin(&mut store, &env, emergency_owner).unwrap();
    assert_eq!(resp.messages, vec![admin_handover(emergency_owner)]);
    assert!(resp.attributes.is_empty());

    // Again, no one else, of course, may change anything
    assert_unauthorized(update_emergency_owner(&mut store, &env, another_user, another_user));
    assert_unauthorized(update_admin(&mut store, &env, another_user));
}

#[test]
fn outage_begins_after_the_tolerated_silence_and_not_at_it() {
    let mut env = mock_env();
    let (mut store, _) = instantiate::<CosmosMsg>(
        &env,
        &mock_info(OWNER),
        instantiate_msg(OWNER, "rescue", 60),
        None,
        None,
    )
    .unwrap();
    let edge = START + 1_209_600 * 1_000_000_000;
    assert!(!store.is_outage(START));
    assert!(!store.is_outage(edge));
    assert!(store.is_outage(edge + 1));

    env.block.time = edge;
    assert_unauthorized(update_admin(&mut store, &env, "rescue"));
    assert_unauthorized(update_emergency_owner(&mut store, &env, "rescue", "rescue"));
    let before = store.clone();
    let resp = update_admin(&mut store, &env, OWNER).unwrap();
    assert_eq!(resp.messages, vec![admin_handover("rescue")]);
    assert_eq!(store, before);
    env.block.time = edge + 1;
    update_admin(&mut store, &env, "rescue").unwrap();
    update_emergency_owner(&mut store, &env, "rescue", "rescue2").unwrap();
    assert_eq!(store.config.emergency_owner, "rescue2");

    // a heartbeat ends the outage
    set_gov_channel(&mut store, &env, &mock_info(OWNER));
    let resp = ibc_packet_receive::<CosmosMsg>(
        &mut store,
        &env,
        IbcPacketReceiveMsg {
            dest_channel_id: GOV_CHANNEL.to_string(),
            current: Decoded::Value(SatelliteMsg::Heartbeat),
            legacy: Decoded::Malformed("missing field `id`".to_string()),
        },
    )
    .unwrap();
    assert_eq!(resp.acknowledgement, br#"{"ok":"b2s="}"#.to_vec());
    assert!(resp.messages.is_empty());
    assert_eq!(store.latest_hub_signal_time, edge + 1);
    assert!(!store.is_outage(edge + 1));
    assert_unauthorized(update_admin(&mut store, &env, "rescue2"));
    // a silence too long to count is no outage
    store.latest_hub_signal_time = u64::MAX;
    assert!(!store.is_outage(u64::MAX));
}

#[test]
fn instantiate_holds_both_settings_to_their_bounds() {
    let (env, info) = mock_all(OWNER);
    let mut msg = instantiate_msg(OWNER, OWNER, 60);
    msg.max_signal_outage = 1_209_599;
    let err = instantiate::<CosmosMsg>(&env, &info, msg, None, None).unwrap_err();
    assert_eq!(err, ContractError::SignalOutageLimitsError);
    assert_eq!(
        err.message(),
        "Signal outage must be within limits (1209600 <= outage <= 5184000)"
    );
    let mut msg = instantiate_msg(OWNER, OWNER, 43_201);
    msg.max_signal_outage = 0;
    let err = instantiate::<CosmosMsg>(&env, &info, msg, None, None).unwrap_err();
    assert_eq!(err, ContractError::TimeoutLimitsError);

    let err = instantiate::<CosmosMsg>(
        &env,
        &info,
        instantiate_msg(OWNER, OWNER, 60),
        Some("bad owner".to_string()),
        Some("bad rescue".to_string()),
    )
    .unwrap_err();
    assert_eq!(err, ContractError::Std("bad owner".to_string()));
    let err = instantiate::<CosmosMsg>(
        &env,
        &info,
        instantiate_msg(OWNER, OWNER, 60),
        None,
        Some("bad rescue".to_string()),
    )
    .unwrap_err();
    assert_eq!(err, ContractError::Std("bad rescue".to_string()));

    let mut msg = instantiate_msg(OWNER, "rescue", 43_200);
    msg.max_signal_outage = 5_184_000;
    msg.main_controller = "hub".to_string();
    let (store, resp) = instantiate::<CosmosMsg>(&env, &info, msg, None, None).unwrap();
    assert_eq!(store.config.main_controller_port, "wasm.hub");
    assert_eq!(store.config.gov_channel, None);
    assert_eq!(store.config.emergency_owner, "rescue");
    assert_eq!(store.latest_hub_signal_time, START);
    assert_eq!(store.reply_data, None);
    assert!(store.results.is_empty());
    assert_eq!(store.contract_version, ContractVersion::new(CONTRACT_NAME, CONTRACT_VERSION));
    assert!(resp.messages.is_empty() && resp.attributes.is_empty());
}

#[test]
fn patch_changes_what_it_names_and_nothing_else() {
    let (env, info) = mock_all(OWNER);
    let mut store = init_contract(&env, &info);
    let before = store.config.clone();
    execute::<CosmosMsg>(
        &mut store,
        &env,
        &info,
        ExecuteMsg::UpdateConfig(no_patch()),
        no_answers(),
    )
    .unwrap();
    assert_eq!(store.config, before);

    let resp = execute::<CosmosMsg>(
        &mut store,
        &env,
        &info,
        ExecuteMsg::UpdateConfig(UpdateConfigMsg {
            astro_denom: Some("ibc/astro".to_string()),
            gov_channel: Some("channel-7".to_string()),
            main_controller_addr: Some("hub".to_string()),
            main_maker: Some("maker".to_string()),
            transfer_channel: Some("channel-1".to_string()),
            accept_new_connections: None,
            timeout: Some(120),
            max_signal_outage: Some(2_000_000),
            emergency_owner: Some("rescue".to_string()),
        }),
        no_answers(),
    )
    .unwrap();
    assert_eq!(resp.attributes, vec![attr("action", "update_config".to_string())]);
    assert_eq!(store.config.owner, OWNER);
    assert_eq!(store.config.astro_denom, "ibc/astro");
    assert_eq!(store.config.gov_channel, Some("channel-7".to_string()));
    assert_eq!(store.config.main_controller_port, "wasm.hub");
    assert_eq!(store.config.main_maker, "maker");
    assert_eq!(store.config.transfer_channel, "channel-1");
    assert_eq!(store.config.timeout, 120);
    assert_eq!(store.config.max_signal_outage, 2_000_000);
    assert_eq!(store.config.emergency_owner, "rescue");

    // accepting new connections forgets the channel
    execute::<CosmosMsg>(
        &mut store,
        &env,
        &info,
        ExecuteMsg::UpdateConfig(UpdateConfigMsg {
            accept_new_connections: Some(true),
            ..no_patch()
        }),
        no_answers(),
    )
    .unwrap();
    assert_eq!(store.config.gov_channel, None);

    // a refused patch changes nothing, whatever else it names
    let before = store.clone();
    for (patch, error) in [
        (
            UpdateConfigMsg {
                astro_denom: Some("x".to_string()),
                timeout: Some(59),
                ..no_patch()
            },
            ContractError::TimeoutLimitsError,
        ),
        (
            UpdateConfigMsg {
                astro_denom: Some("x".to_string()),
                max_signal_outage: Some(5_184_001),
                ..no_patch()
            },
            ContractError::SignalOutageLimitsError,
        ),
        (
            UpdateConfigMsg {
                gov_channel: Some("c".to_string()),
                accept_new_connections: Some(true),
                timeout: Some(1),
                ..no_patch()
            },
            ContractError::UpdateChannelError,
        ),
    ] {
        let err = execute::<CosmosMsg>(
            &mut store,
            &env,
            &info,
            ExecuteMsg::UpdateConfig(patch),
            no_answers(),
        )
        .unwrap_err();
        assert_eq!(err, error);
        assert_eq!(store, before);
    }
    let err = execute::<CosmosMsg>(
        &mut store,
        &env,
        &info,
        ExecuteMsg::UpdateConfig(UpdateConfigMsg {
            emergency_owner: Some("!".to_string()),
            ..no_patch()
        }),
        HostAnswers { astro_balance: 0, admin: None, addr_error: Some("bad".to_string()) },
    )
    .unwrap_err();
    assert_eq!(err, ContractError::Std("bad".to_string()));
    assert_eq!(store, before);
}

#[test]
fn connect_records_the_channel_and_refuses_a_second() {
    let (env, info) = mock_all(OWNER);
    let mut store = init_contract(&env, &info);
    let first = mock_ibc_channel_connect_ack(
        "channel-3",
        IbcOrder::Unordered,
        IBC_APP_VERSION,
        "wasm.controller",
    );
    let resp = ibc_channel_connect::<CosmosMsg>(&mut store, &first).unwrap();
    assert_eq!(
        resp.attributes,
        vec![
            attr("action", "ibc_connect".to_string()),
            attr("channel_id", "channel-3".to_string())
        ]
    );
    assert_eq!(store.config.gov_channel, Some("channel-3".to_string()));

    let before = store.clone();
    let second = mock_ibc_channel_connect_ack(
        "channel-4",
        IbcOrder::Unordered,
        IBC_APP_VERSION,
        "wasm.controller",
    );
    let err = ibc_channel_connect::<CosmosMsg>(&mut store, &second).unwrap_err();
    assert_eq!(err, ContractError::ChannelAlreadyEstablished { channel_id: "channel-3".to_string() });
    assert_eq!(err.message(), "Channel already established: channel-3");
    assert_eq!(store, before);

    // the other side's version is judged first
    let mut wrong = second.clone();
    wrong.counterparty_version = Some("ics20-1".to_string());
    let err = ibc_channel_connect::<CosmosMsg>(&mut store, &wrong).unwrap_err();
    assert_eq!(err, ContractError::InvalidCounterpartyVersion);
    assert_eq!(store, before);
}

#[test]
fn satellite_handshake_wants_an_unordered_channel_of_the_right_version() {
    let good =
        mock_ibc_channel_connect_ack("channel-0", IbcOrder::Unordered, IBC_APP_VERSION, "p");
    assert_eq!(ibc_channel_open(&good).unwrap(), "astroport-ibc-v1");
    let ordered =
        mock_ibc_channel_connect_ack("channel-0", IbcOrder::Ordered, IBC_APP_VERSION, "p");
    assert_eq!(ibc_channel_open(&ordered).unwrap_err(), ContractError::InvalidOrdering);
    let versioned = mock_ibc_channel_connect_ack("channel-0", IbcOrder::Unordered, "v2", "p");
    assert_eq!(ibc_channel_open(&versioned).unwrap_err(), ContractError::InvalidVersion);
    let mut theirs = good.clone();
    theirs.counterparty_version = Some("v2".to_string());
    assert_eq!(ibc_channel_open(&theirs).unwrap_err(), ContractError::InvalidCounterpartyVersion);
    let err = ibc_channel_close::<CosmosMsg>(&good).unwrap_err();
    assert_eq!(err, ContractError::ChannelCloseNotAllowed);
    assert_eq!(err.message(), "Closing channel is not allowed");
    let err = ibc_channel_connect::<CosmosMsg>(&mut init_contract(&mock_env(), &mock_info(OWNER)), &{
        let mut other = good.clone();
        other.counterparty_port_id = "wasm.other".to_string();
        other
    })
    .unwrap_err();
    assert_eq!(err.message(), "Invalid source port wasm.other. Should be : wasm.controller");
}

#[test]
fn refused_packet_is_answered_and_changes_nothing() {
    let (env, info) = mock_all(OWNER);
    let mut store = init_contract(&env, &info);
    let before = store.clone();
    let err = do_packet_receive(&mut store, &env, unreadable("channel-1")).unwrap_err();
    assert_eq!(err, ContractError::GovernanceChannelNotFound);
    let resp = ibc_packet_receive(&mut store, &env, unreadable("channel-1")).unwrap();
    assert_eq!(
        resp,
        IbcReceiveResponse {
            acknowledgement: br#"{"error":"Governance is not established yet"}"#.to_vec(),
            messages: vec![],
            attributes: vec![attr("action", "ibc_packet_receive".to_string())],
        }
    );
    assert_eq!(store, before);

    set_gov_channel(&mut store, &env, &info);
    let before = store.clone();
    let err = do_packet_receive(&mut store, &env, unreadable("channel-1")).unwrap_err();
    assert_eq!(
        err,
        ContractError::InvalidGovernanceChannel {
            invalid: "channel-1".to_string(),
            valid: GOV_CHANNEL.to_string()
        }
    );
    // over the right channel, but unreadable: the second reader's reason is given
    let resp = ibc_packet_receive(&mut store, &env, unreadable(GOV_CHANNEL)).unwrap();
    let ack: StdAck = from_json(resp.acknowledgement).unwrap();
    assert_eq!(ack, StdAck::Error("Error parsing into type IbcProposal".to_string()));
    assert!(resp.messages.is_empty());
    assert_eq!(store, before);
}

#[test]
fn empty_proposal_is_completed_at_once() {
    let (mut env, info) = mock_all(OWNER);
    let mut store = init_contract(&env, &info);
    set_gov_channel(&mut store, &env, &info);
    env.block.height = 777;
    env.block.time = START + 5;
    let resp = ibc_packet_receive::<CosmosMsg>(
        &mut store,
        &env,
        IbcPacketReceiveMsg {
            dest_channel_id: GOV_CHANNEL.to_string(),
            current: Decoded::Value(SatelliteMsg::ExecuteProposal { id: 9, messages: vec![] }),
            legacy: Decoded::Malformed("unused".to_string()),
        },
    )
    .unwrap();
    assert!(resp.messages.is_empty());
    assert_eq!(resp.acknowledgement, ack_ok());
    assert_eq!(store.reply_data, None);
    assert_eq!(store.results.get(&9), Some(&777));
    assert_eq!(query(&store, QueryMsg::ProposalState { id: 9 }).unwrap(), 777);
    assert_eq!(store.latest_hub_signal_time, START + 5);
    let err = query(&store, QueryMsg::ProposalState { id: 10 }).unwrap_err();
    assert_eq!(err.message(), "results not found");
}

#[test]
fn proposal_is_completed_by_the_callback_of_its_last_message() {
    let (mut env, info) = mock_all(OWNER);
    let mut store = init_contract(&env, &info);
    set_gov_channel(&mut store, &env, &info);

    // no callback is awaited yet
    let err = reply::<CosmosMsg>(&mut store, &env, Reply { id: RECEIVE_ID }).unwrap_err();
    assert_eq!(err, ContractError::NotFound { kind: "reply_data".to_string() });

    let resp = ibc_packet_receive(
        &mut store,
        &env,
        IbcPacketReceiveMsg {
            dest_channel_id: GOV_CHANNEL.to_string(),
            current: Decoded::Value(SatelliteMsg::ExecuteProposal {
                id: 4,
                messages: vec![plain(noop("a")), plain(noop("b")), plain(noop("c"))],
            }),
            legacy: Decoded::Malformed("unused".to_string()),
        },
    )
    .unwrap();
    assert_eq!(
        resp.messages,
        vec![
            SubMsg { id: 0, msg: OutMsg::Proposal(noop("a")), reply_on: ReplyOn::Never },
            SubMsg { id: 0, msg: OutMsg::Proposal(noop("b")), reply_on: ReplyOn::Never },
            SubMsg { id: 1, msg: OutMsg::Proposal(noop("c")), reply_on: ReplyOn::Success },
        ]
    );
    assert_eq!(resp.acknowledgement, ack_ok());
    assert_eq!(store.reply_data, Some(4));
    assert!(store.results.is_empty());
    assert!(query(&store, QueryMsg::ProposalState { id: 4 }).is_err());

    // a callback under another number completes nothing
    let before = store.clone();
    let err = reply::<CosmosMsg>(&mut store, &env, Reply { id: 2 }).unwrap_err();
    assert_eq!(err, ContractError::InvalidReplyId);
    assert_eq!(err.message(), "Invalid reply id");
    assert_eq!(store, before);

    env.block.height = 12_346;
    let resp = reply::<CosmosMsg>(&mut store, &env, Reply { id: RECEIVE_ID }).unwrap();
    assert!(resp.messages.is_empty() && resp.attributes.is_empty());
    assert_eq!(store.results.get(&4), Some(&12_346));
    assert_eq!(store.reply_data, None);

    // the slot is used up
    let err = reply::<CosmosMsg>(&mut store, &env, Reply { id: RECEIVE_ID }).unwrap_err();
    assert_eq!(err.message(), "reply_data not found");
}

#[test]
fn numbered_messages_run_in_order_of_their_numbers() {
    let sorted = sort_by_order(vec![
        numbered(Some(3), "c1"),
        numbered(Some(1), "a1"),
        numbered(None, "n1"),
        numbered(Some(3), "c2"),
        numbered(Some(2), "b1"),
        numbered(Some(1), "a2"),
        numbered(None, "n2"),
        numbered(Some(0), "z"),
    ]);
    let names: Vec<CosmosMsg> = sorted.into_iter().map(|m| m.msg).collect();
    assert_eq!(
        names,
        vec![
            noop("n1"),
            noop("n2"),
            noop("z"),
            noop("a1"),
            noop("a2"),
            noop("b1"),
            noop("c1"),
            noop("c2")
        ]
    );
    // without numbers the order of arrival stands
    let sorted = sort_by_order(vec![numbered(None, "x"), numbered(None, "y"), numbered(None, "w")]);
    let names: Vec<CosmosMsg> = sorted.into_iter().map(|m| m.msg).collect();
    assert_eq!(names, vec![noop("x"), noop("y"), noop("w")]);
    assert!(sort_by_order::<CosmosMsg>(vec![]).is_empty());
    assert!(plan_execution::<CosmosMsg>(vec![]).is_empty());
    assert_eq!(
        plan_execution(vec![numbered(Some(5), "only")]),
        vec![SubMsg { id: RECEIVE_ID, msg: OutMsg::Proposal(noop("only")), reply_on: ReplyOn::Success }]
    );

    // the callback sits on the message that runs last, not on the one that came last
    let (env, info) = mock_all(OWNER);
    let mut store = init_contract(&env, &info);
    set_gov_channel(&mut store, &env, &info);
    let resp = ibc_packet_receive(
        &mut store,
        &env,
        IbcPacketReceiveMsg {
            dest_channel_id: GOV_CHANNEL.to_string(),
            current: Decoded::Value(SatelliteMsg::ExecuteProposal {
                id: 4,
                messages: vec![numbered(Some(2), "second"), numbered(Some(1), "first")],
            }),
            legacy: Decoded::Malformed("unused".to_string()),
        },
    )
    .unwrap();
    assert_eq!(
        resp.messages,
        vec![
            SubMsg { id: 0, msg: OutMsg::Proposal(noop("first")), reply_on: ReplyOn::Never },
            SubMsg { id: 1, msg: OutMsg::Proposal(noop("second")), reply_on: ReplyOn::Success },
        ]
    );
}

#[test]
fn envelope_is_read_in_the_current_shape_first() {
    let current: SatelliteMsg<CosmosMsg> =
        SatelliteMsg::ExecuteProposal { id: 1, messages: vec![plain(noop("new"))] };
    let legacy: IbcProposal<CosmosMsg> = IbcProposal { id: 2, messages: vec![plain(noop("old"))] };
    assert_eq!(
        select_envelope(Decoded::Value(current.clone()), Decoded::Value(legacy.clone())).unwrap(),
        current
    );
    assert_eq!(
        select_envelope(Decoded::Malformed("no".to_string()), Decoded::Value(legacy)).unwrap(),
        SatelliteMsg::ExecuteProposal { id: 2, messages: vec![plain(noop("old"))] }
    );
    assert_eq!(
        select_envelope::<CosmosMsg>(
            Decoded::Malformed("first".to_string()),
            Decoded::Malformed("second".to_string())
        )
        .unwrap_err(),
        ContractError::Std("second".to_string())
    );
    assert_eq!(
        select_envelope::<CosmosMsg>(
            Decoded::Value(SatelliteMsg::Heartbeat),
            Decoded::Malformed("second".to_string())
        )
        .unwrap(),
        SatelliteMsg::Heartbeat
    );
}

#[test]
fn frame_goes_round_a_value_as_it_is() {
    assert_eq!(frame_ack(true, br#""b2s=""#.to_vec()), br#"{"ok":"b2s="}"#.to_vec());
    assert_eq!(frame_ack(false, br#""no""#.to_vec()), br#"{"error":"no"}"#.to_vec());
    assert_eq!(frame_ack(true, vec![]), br#"{"ok":}"#.to_vec());
    assert_eq!(frame_ack(false, vec![0, 255]), [b"{\"error\":".as_slice(), &[0, 255], b"}"].concat());
}

#[test]
fn acknowledgements_are_json_objects_with_one_key() {
    assert_eq!(ack_ok(), br#"{"ok":"b2s="}"#.to_vec());
    assert_eq!(encode_ack(&IbcAckResult::Success(vec![])), br#"{"ok":""}"#.to_vec());
    assert_eq!(
        encode_ack(&IbcAckResult::Success(vec![0xff, 0x00, 0x10])),
        br#"{"ok":"/wAQ"}"#.to_vec()
    );
    assert_eq!(
        ack_fail(&ContractError::Unauthorized),
        br#"{"error":"Unauthorized"}"#.to_vec()
    );
    // what the text holds is escaped as the wire format asks
    let bytes = ack_fail(&ContractError::Std("say \"no\"\n\\ é".to_string()));
    assert_eq!(bytes, "{\"error\":\"say \\\"no\\\"\\n\\\\ é\"}".as_bytes().to_vec());
    let ack: StdAck = from_json(bytes).unwrap();
    assert_eq!(ack, StdAck::Error("say \"no\"\n\\ é".to_string()));
}

#[test]
fn check_refuses_messages_that_reach_for_the_satellite() {
    let env = mock_env();
    let itself = mock_info(SATELLITE);
    let admin_of = |addr: &str, addr_error: Option<&str>| ProposalMessage {
        order: None,
        kind: MsgKind::WasmAdmin {
            contract_addr: addr.to_string(),
            addr_error: addr_error.map(|e| e.to_string()),
        },
        msg: noop("admin"),
    };
    let stargate = |type_url: &str| ProposalMessage {
        order: None,
        kind: MsgKind::Stargate { type_url: type_url.to_string() },
        msg: noop(type_url),
    };

    let err = check_messages(&itself, &env, vec![plain(noop("a")), admin_of(SATELLITE, None)]).unwrap_err();
    assert_eq!(err, ContractError::SelfAdminMessage);
    assert_eq!(
        err.message(),
        "Can't check messages with a migration or update admin message of the contract itself"
    );
    let err = check_messages(&itself, &env, vec![admin_of("x", Some("too short"))]).unwrap_err();
    assert_eq!(err, ContractError::Std("too short".to_string()));
    let err =
        check_messages(&itself, &env, vec![stargate("/cosmos.authz.v1beta1.MsgGrant")]).unwrap_err();
    assert_eq!(err, ContractError::GrantMessage);
    assert_eq!(err.message(), "Can't check messages with a MsgGrant message");
    let err = check_messages(&itself, &env, vec![stargate("MsgGrant")]).unwrap_err();
    assert_eq!(err, ContractError::GrantMessage);
    let err = check_messages(&itself, &env, vec![stargate("xMsgGrantAllowance")]).unwrap_err();
    assert_eq!(err, ContractError::GrantMessage);
    // the first message that meets an objection decides
    let err = check_messages(
        &itself,
        &env,
        vec![stargate("/x.MsgGrant"), admin_of(SATELLITE, None), admin_of("x", Some("bad"))],
    )
    .unwrap_err();
    assert_eq!(err, ContractError::GrantMessage);
    let err = check_messages(
        &itself,
        &env,
        vec![admin_of("x", Some("bad")), stargate("/x.MsgGrant"), admin_of(SATELLITE, None)],
    )
    .unwrap_err();
    assert_eq!(err, ContractError::Std("bad".to_string()));

    let resp = check_messages(
        &itself,
        &env,
        vec![
            admin_of("another", None),
            stargate("/cosmos.bank.v1beta1.MsgSend"),
            stargate("MsgGran"),
            stargate(""),
        ],
    )
    .unwrap();
    assert_eq!(resp.attributes, vec![attr("action", "check_messages".to_string())]);
    assert_eq!(
        resp.messages,
        vec![
            SubMsg { id: 0, msg: OutMsg::Proposal(noop("admin")), reply_on: ReplyOn::Never },
            SubMsg {
                id: 0,
                msg: OutMsg::Proposal(noop("/cosmos.bank.v1beta1.MsgSend")),
                reply_on: ReplyOn::Never
            },
            SubMsg { id: 0, msg: OutMsg::Proposal(noop("MsgGran")), reply_on: ReplyOn::Never },
            SubMsg { id: 0, msg: OutMsg::Proposal(noop("")), reply_on: ReplyOn::Never },
            SubMsg {
                id: 0,
                msg: OutMsg::CheckMessagesPassed { contract_addr: SATELLITE.to_string() },
                reply_on: ReplyOn::Never
            },
        ]
    );
    let resp = check_messages::<CosmosMsg>(&itself, &env, vec![]).unwrap();
    assert_eq!(resp.messages.len(), 1);

    // anyone else is refused before a message is looked at
    for sender in [OWNER, "random", ""] {
        let err = check_messages(&mock_info(sender), &env, vec![stargate("/x.MsgGrant")])
            .unwrap_err();
        assert_eq!(err, ContractError::Unauthorized);
        let err = check_messages::<CosmosMsg>(&mock_info(sender), &env, vec![]).unwrap_err();
        assert_eq!(err, ContractError::Unauthorized);
    }
    // the vetting itself asks for no caller
    let resp = vet_and_relay(&env, vec![plain(noop("a"))]).unwrap();
    assert_eq!(resp.messages.len(), 2);
    let err = vet_and_relay(&env, vec![stargate("/x.MsgGrant")]).unwrap_err();
    assert_eq!(err, ContractError::GrantMessage);
}

#[test]
fn multisig_is_for_an_admin_other_than_the_satellite() {
    let (env, info) = mock_all(OWNER);
    let messages = vec![plain(noop("a")), plain(noop("b"))];
    let err = exec_from_multisig(&None, &info, &env, messages.clone()).unwrap_err();
    assert_eq!(err, ContractError::Unauthorized);
    let err = exec_from_multisig(&Some("other".to_string()), &info, &env, messages.clone())
        .unwrap_err();
    assert_eq!(err, ContractError::Unauthorized);
    let err = exec_from_multisig(
        &Some(SATELLITE.to_string()),
        &mock_info(SATELLITE),
        &env,
        messages.clone(),
    )
    .unwrap_err();
    assert_eq!(err, ContractError::Unauthorized);
    let resp = exec_from_multisig(&Some(OWNER.to_string()), &info, &env, messages).unwrap();
    assert!(resp.attributes.is_empty());
    assert_eq!(
        resp.messages,
        vec![
            SubMsg { id: 0, msg: OutMsg::Proposal(noop("a")), reply_on: ReplyOn::Never },
            SubMsg { id: 0, msg: OutMsg::Proposal(noop("b")), reply_on: ReplyOn::Never },
        ]
    );
}

#[test]
fn transfer_forwards_the_whole_balance() {
    let (env, info) = mock_all("anyone");
    let (mut store, _) = instantiate::<CosmosMsg>(
        &env,
        &info,
        InstantiateMsg {
            owner: OWNER.to_string(),
            astro_denom: "ibc/astro".to_string(),
            transfer_channel: "channel-1".to_string(),
            main_controller: CONTROLLER.to_string(),
            main_maker: "maker".to_string(),
            timeout: 60,
            max_signal_outage: 1209600,
            emergency_owner: OWNER.to_string(),
        },
        None,
        None,
    )
    .unwrap();
    let err = execute::<CosmosMsg>(
        &mut store,
        &env,
        &info,
        ExecuteMsg::TransferAstro,
        no_answers(),
    )
    .unwrap_err();
    assert_eq!(err, ContractError::NoAstroBalance);
    let resp = execute::<CosmosMsg>(
        &mut store,
        &env,
        &info,
        ExecuteMsg::TransferAstro,
        HostAnswers { astro_balance: 5_000, admin: None, addr_error: None },
    )
    .unwrap();
    assert_eq!(resp.attributes, vec![attr("action", "transfer_astro".to_string())]);
    assert_eq!(
        resp.messages,
        vec![SubMsg {
            id: 0,
            msg: OutMsg::Transfer {
                channel_id: "channel-1".to_string(),
                to_address: "maker".to_string(),
                amount: Coin { denom: "ibc/astro".to_string(), amount: 5_000 },
                timeout: Timestamp::from_nanos(START).plus_seconds(60).nanos(),
            },
            reply_on: ReplyOn::Never,
        }]
    );
    let mut late = mock_env();
    late.block.time = u64::MAX;
    let err = execute::<CosmosMsg>(
        &mut store,
        &late,
        &info,
        ExecuteMsg::TransferAstro,
        HostAnswers { astro_balance: 5_000, admin: None, addr_error: None },
    )
    .unwrap_err();
    assert_eq!(err, ContractError::TimeoutOverflow);
}

#[test]
fn store_proposal_records_the_height() {
    let (mut env, info) = mock_all(OWNER);
    let mut store = init_contract(&env, &info);
    env.block.height = 42;
    store_proposal(&mut store, &env, 3);
    assert_eq!(store.results.get(&3), Some(&42));
    assert_eq!(store.results.len(), 1);
}

#[test]
fn migration_follows_two_versions() {
    let (env, info) = mock_all(OWNER);
    let mut store = init_contract(&env, &info);
    let before = store.clone();
    let err = migrate::<CosmosMsg>(&mut store).unwrap_err();
    assert_eq!(err, ContractError::MigrationError);
    assert_eq!(store, before);
    for version in ["1.1.0-hubmove", "1.2.0"] {
        store.contract_version = ContractVersion::new("astro-satellite", version);
        let resp = migrate::<CosmosMsg>(&mut store).unwrap();
        assert_eq!(
            resp.attributes,
            vec![
                attr("previous_contract_name", "astro-satellite".to_string()),
                attr("previous_contract_version", version.to_string()),
                attr("new_contract_name", CONTRACT_NAME.to_string()),
                attr("new_contract_version", CONTRACT_VERSION.to_string()),
            ]
        );
        assert_eq!(store.contract_version, ContractVersion::new(CONTRACT_NAME, CONTRACT_VERSION));
    }
    store.contract_version = ContractVersion::new("astro-satellite", "1.1.0");
    assert!(migrate::<CosmosMsg>(&mut store).is_err());
    store.contract_version = ContractVersion::new("ibc-controller", "1.2.0");
    assert!(migrate::<CosmosMsg>(&mut store).is_err());
}

#[test]
fn old_settings_carry_over_with_a_fresh_clock() {
    let old_config = ConfigV020 {
        owner: OWNER.to_string(),
        astro_denom: "astro".to_string(),
        main_controller_port: "wasm.hub".to_string(),
        main_maker: "maker".to_string(),
        gov_channel: Some("channel-1".to_string()),
        transfer_channel: "channel-2".to_string(),
        timeout: 90,
    };
    let msg = MigrateMsg { max_signal_outage: 1_300_000, emergency_owner: "rescue".to_string() };
    let env = mock_env();
    let err = migrate_to_v100(old_config.clone(), &env, &msg, Some("bad".to_string())).unwrap_err();
    assert_eq!(err, ContractError::Std("bad".to_string()));
    let (config, heard) = migrate_to_v100(old_config, &env, &msg, None).unwrap();
    assert_eq!(heard, START);
    assert_eq!(config.owner, OWNER);
    assert_eq!(config.astro_denom, "astro");
    assert_eq!(config.main_controller_port, "wasm.hub");
    assert_eq!(config.main_maker, "maker");
    assert_eq!(config.gov_channel, Some("channel-1".to_string()));
    assert_eq!(config.transfer_channel, "channel-2");
    assert_eq!(config.timeout, 90);
    assert_eq!(config.max_signal_outage, 1_300_000);
    assert_eq!(config.emergency_owner, "rescue");
}

use astro_gov_relay::astro_ibc::controller::IbcProposalState;
use astro_gov_relay::astro_ibc::satellite::{ExecuteMsg, InstantiateMsg, UpdateConfigMsg};
use astro_gov_relay::clock::{checked_plus_seconds, has_elapsed_more_than};
use astro_gov_relay::cw20_ics20::contract::{execute as bridge_execute, migrate as bridge_migrate, BridgeError};
use astro_gov_relay::governance::ProposalStatus;
use astro_gov_relay::host::{
    attr, BlockInfo, Coin, Env, FeeTransfer, IbcFee, MessageInfo, OutMsg, ReplyOn, SubMsg,
};
use astro_gov_relay::payment::PaymentError;
use astro_gov_relay::satellite::error::ContractError;
use astro_gov_relay::satellite_neutron::contract::{
    execute, instantiate, migrate, min_ntrn_ibc_fee, sudo, Store, CONTRACT_NAME, CONTRACT_VERSION,
    FEE_DENOM,
};
use astro_gov_relay::text::{contains, decimal_string};
use astro_gov_relay::version::ContractVersion;
use cosmwasm_std::{CosmosMsg, Timestamp};

const START: u64 = 1_571_797_419_879_305_533;

fn mock_env() -> Env {
    Env {
        block: BlockInfo { height: 12_345, time: START },
        contract_address: "cosmos2contract".to_string(),
    }
}

fn coin(amount: u128, denom: &str) -> Coin {
    Coin { denom: denom.to_string(), amount }
}

fn coins(amount: u128, denom: &str) -> Vec<Coin> {
    vec![coin(amount, denom)]
}

fn mock_info(sender: &str, funds: &[Coin]) -> MessageInfo {
    MessageInfo { sender: sender.to_string(), funds: funds.to_vec() }
}

fn min_fee() -> IbcFee {
    IbcFee {
        recv_fee: vec![],
        ack_fee: coins(10000, FEE_DENOM),
        timeout_fee: coins(10000, FEE_DENOM),
    }
}

fn fresh(owner: &str, timeout: u64) -> Store {
    let (store, _) = instantiate::<CosmosMsg>(
        &mock_env(),
        &mock_info(owner, &[]),
        InstantiateMsg {
            owner: owner.to_string(),
            astro_denom: "ibc/astro".to_string(),
            transfer_channel: "channel-1".to_string(),
            main_controller: "".to_string(),
            main_maker: "wasm1hub_maker".to_string(),
            timeout,
        },
        None,
    )
    .unwrap();
    store
}

#[test]
fn test_transfer_astro() {
    let owner = "owner";
    let astro_denom = "ibc/astro";
    let transfer_channel = "channel-1";
    let main_maker = "wasm1hub_maker";
    let timeout = 60;

    let (mut store, _) = instantiate::<CosmosMsg>(
        &mock_env(),
        &mock_info(owner, &[]),
        InstantiateMsg {
            owner: owner.to_string(),
            astro_denom: astro_denom.to_string(),
            transfer_channel: transfer_channel.to_string(),
            main_controller: "".to_string(),
            main_maker: main_maker.to_string(),
            timeout,
        },
        None,
    )
    .unwrap();

    let env = mock_env();
    let resp = execute::<CosmosMsg>(
        &mut store,
        &env,
        &mock_info(owner, &coins(1000, astro_denom)),
        ExecuteMsg::TransferAstro,
        min_fee(),
        None,
    )
    .unwrap();

    assert_eq!(resp.messages.len(), 1);
    assert_eq!(
        resp.messages[0].msg,
        OutMsg::FeeTransfer(FeeTransfer {
            source_port: "transfer".to_string(),
            source_channel: transfer_channel.to_string(),
            sender: "cosmos2contract".to_string(),
            receiver: main_maker.to_string(),
            token: coin(1000, astro_denom),
            timeout_timestamp: Timestamp::from_nanos(env.block.time).plus_seconds(timeout).nanos(),
            memo: "".to_string(),
            fee: IbcFee {
                recv_fee: vec![],
                ack_fee: coins(10000, FEE_DENOM),
                timeout_fee: coins(10000, FEE_DENOM),
            },
        })
    );
}

#[test]
fn fee_is_cut_down_to_the_fee_denomination() {
    let cut = min_ntrn_ibc_fee(IbcFee {
        recv_fee: vec![coin(1, "uatom"), coin(2, "untrn")],
        ack_fee: vec![coin(3, "uatom"), coin(4, "untrn"), coin(5, "ibc/x"), coin(6, "untrn")],
        timeout_fee: vec![coin(7, "uatom")],
    });
    assert_eq!(cut.recv_fee, vec![coin(1, "uatom"), coin(2, "untrn")]);
    assert_eq!(cut.ack_fee, vec![coin(4, "untrn"), coin(6, "untrn")]);
    assert_eq!(cut.timeout_fee, vec![]);
    let cut = min_ntrn_ibc_fee(IbcFee { recv_fee: vec![], ack_fee: vec![], timeout_fee: vec![] });
    assert_eq!(cut, IbcFee { recv_fee: vec![], ack_fee: vec![], timeout_fee: vec![] });
}

#[test]
fn payment_must_be_one_coin_of_the_token() {
    let atom = "ibc/astro";
    let mut store = fresh("owner", 60);
    let mut pay = |funds: &[Coin]| {
        execute::<CosmosMsg>(
            &mut store,
            &mock_env(),
            &mock_info("sender", funds),
            ExecuteMsg::TransferAstro,
            min_fee(),
            None,
        )
    };
    let refused = |error: PaymentError| ContractError::PaymentError(error);
    assert_eq!(pay(&[]).unwrap_err(), refused(PaymentError::NoFunds));
    assert_eq!(pay(&coins(0, atom)).unwrap_err(), refused(PaymentError::NoFunds));
    assert_eq!(
        pay(&coins(100, "wei")).unwrap_err(),
        refused(PaymentError::MissingDenom(atom.to_string()))
    );
    assert_eq!(
        pay(&[coin(50, atom), coin(120, "wei")]).unwrap_err(),
        refused(PaymentError::MultipleDenoms)
    );
    for amount in [1u128, 100, u128::MAX] {
        let resp = pay(&coins(amount, atom)).unwrap();
        match &resp.messages[0].msg {
            OutMsg::FeeTransfer(transfer) => assert_eq!(transfer.token, coin(amount, atom)),
            _ => panic!("Unexpected message"),
        }
    }
    assert_eq!(
        pay(&coins(5, "wei")).unwrap_err().message(),
        "Must send reserve token 'ibc/astro'"
    );

    assert_eq!(PaymentError::NoFunds.message(), "No funds sent");
    assert_eq!(PaymentError::MultipleDenoms.message(), "Sent more than one denomination");
    assert_eq!(
        PaymentError::MissingDenom("uatom".to_string()).message(),
        "Must send reserve token 'uatom'"
    );
    assert_eq!(
        PaymentError::ExtraDenom("uatom".to_string()).message(),
        "Received unsupported denom 'uatom'"
    );
    assert_eq!(PaymentError::NonPayable.message(), "This message does no accept funds");
}

#[test]
fn first_satellite_is_patched_by_its_owner_only() {
    let env = mock_env();
    let err = instantiate::<CosmosMsg>(
        &env,
        &mock_info("owner", &[]),
        InstantiateMsg {
            owner: "owner".to_string(),
            astro_denom: "a".to_string(),
            transfer_channel: "c".to_string(),
            main_controller: "hub".to_string(),
            main_maker: "m".to_string(),
            timeout: 59,
        },
        None,
    )
    .unwrap_err();
    assert_eq!(err, ContractError::TimeoutLimitsError);

    let mut store = fresh("owner", 60);
    assert_eq!(store.config.main_controller_port, "wasm.");
    assert_eq!(store.contract_version, ContractVersion::new(CONTRACT_NAME, CONTRACT_VERSION));
    let patch = UpdateConfigMsg {
        astro_denom: None,
        gov_channel: Some("channel-9".to_string()),
        main_controller_port: Some("wasm.hub".to_string()),
        main_maker: None,
        transfer_channel: None,
        timeout: Some(61),
    };
    let before = store.clone();
    let err = execute::<CosmosMsg>(
        &mut store,
        &env,
        &mock_info("other", &[]),
        ExecuteMsg::UpdateConfig(patch.clone()),
        min_fee(),
        None,
    )
    .unwrap_err();
    assert_eq!(err, ContractError::Unauthorized);
    assert_eq!(store, before);
    let resp = execute::<CosmosMsg>(
        &mut store,
        &env,
        &mock_info("owner", &[]),
        ExecuteMsg::UpdateConfig(patch.clone()),
        min_fee(),
        None,
    )
    .unwrap();
    assert_eq!(resp.attributes, vec![attr("action", "update_config".to_string())]);
    assert_eq!(store.config.gov_channel, Some("channel-9".to_string()));
    assert_eq!(store.config.main_controller_port, "wasm.hub");
    assert_eq!(store.config.timeout, 61);
    assert_eq!(store.config.astro_denom, "ibc/astro");

    let before = store.clone();
    let err = execute::<CosmosMsg>(
        &mut store,
        &env,
        &mock_info("owner", &[]),
        ExecuteMsg::UpdateConfig(UpdateConfigMsg {
            astro_denom: Some("x".to_string()),
            timeout: Some(43_201),
            ..patch
        }),
        min_fee(),
        None,
    )
    .unwrap_err();
    assert_eq!(err, ContractError::TimeoutLimitsError);
    assert_eq!(store, before);

    let err = execute::<CosmosMsg>(
        &mut store,
        &env,
        &mock_info("owner", &[]),
        ExecuteMsg::CheckMessagesPassed,
        min_fee(),
        None,
    )
    .unwrap_err();
    assert_eq!(err, ContractError::MessagesCheckPassed);
    let resp = execute::<CosmosMsg>(
        &mut store,
        &env,
        &mock_info("owner", &[]),
        ExecuteMsg::CheckMessages(vec![]),
        min_fee(),
        None,
    )
    .unwrap();
    assert_eq!(
        resp.messages,
        vec![SubMsg {
            id: 0,
            msg: OutMsg::CheckMessagesPassed { contract_addr: "cosmos2contract".to_string() },
            reply_on: ReplyOn::Never
        }]
    );
    let resp = sudo::<CosmosMsg>().unwrap();
    assert!(resp.messages.is_empty() && resp.attributes.is_empty());
}

#[test]
fn first_satellite_changes_hands_in_two_steps() {
    let env = mock_env();
    let mut store = fresh("owner", 60);
    execute::<CosmosMsg>(
        &mut store,
        &env,
        &mock_info("owner", &[]),
        ExecuteMsg::ProposeNewOwner { owner: "heir".to_string(), expires_in: 10 },
        min_fee(),
        None,
    )
    .unwrap();
    execute::<CosmosMsg>(
        &mut store,
        &env,
        &mock_info("heir", &[]),
        ExecuteMsg::ClaimOwnership,
        min_fee(),
        None,
    )
    .unwrap();
    assert_eq!(store.config.owner, "heir");
    assert_eq!(store.ownership_proposal, None);
    let err = execute::<CosmosMsg>(
        &mut store,
        &env,
        &mock_info("owner", &[]),
        ExecuteMsg::DropOwnershipProposal,
        min_fee(),
        None,
    )
    .unwrap_err();
    assert_eq!(err.message(), "Unauthorized");
}

#[test]
fn first_satellite_migrates_from_one_version() {
    let mut store = fresh("owner", 60);
    assert_eq!(migrate::<CosmosMsg>(&mut store).unwrap_err(), ContractError::MigrationError);
    store.contract_version = ContractVersion::new("astro-satellite", "0.2.0");
    let resp = migrate::<CosmosMsg>(&mut store).unwrap();
    assert_eq!(resp.attributes[1], attr("previous_contract_version", "0.2.0".to_string()));
    assert_eq!(store.contract_version, ContractVersion::new(CONTRACT_NAME, CONTRACT_VERSION));
}

#[test]
fn bridge_refuses_calls_and_foreign_migrations() {
    let err = bridge_execute::<CosmosMsg>().unwrap_err();
    assert_eq!(err, BridgeError::Disabled);
    assert_eq!(err.message(), "This is transition version of Astroport's cw20_ics20. All execute endpoints are disabled. Currently it only receives IBCed ASTRO from remote chains");

    let mut stored = ContractVersion::new("crates.io:cw20-ics20", "0.14.0");
    let err = bridge_migrate::<CosmosMsg>(&mut stored).unwrap_err();
    assert_eq!(err.message(), "Unsupported version: 0.14.0");
    assert_eq!(stored, ContractVersion::new("crates.io:cw20-ics20", "0.14.0"));
    let mut stored = ContractVersion::new("cw20-base", "0.13.4");
    let err = bridge_migrate::<CosmosMsg>(&mut stored).unwrap_err();
    assert_eq!(err.message(), "Unsupported contract cw20-base");
    for version in ["0.13.4", "0.15.1"] {
        let mut stored = ContractVersion::new("crates.io:cw20-ics20", version);
        let resp = bridge_migrate::<CosmosMsg>(&mut stored).unwrap();
        assert_eq!(resp.attributes.len(), 4);
        assert_eq!(resp.attributes[0], attr("previous_contract_name", "crates.io:cw20-ics20".to_string()));
        assert_eq!(stored.contract, "crates.io:cw20-ics20");
        assert_ne!(stored.version, version);
    }
}

#[test]
fn first_controller_states_have_their_words() {
    assert_eq!(IbcProposalState::InProgress.label(), "in_progress");
    assert_eq!(IbcProposalState::Succeed.label(), "succeed");
    assert_eq!(IbcProposalState::Failed.label(), "failed");
    assert_eq!(IbcProposalState::InProgress.status(), ProposalStatus::InProgress);
    assert_eq!(IbcProposalState::Succeed.status(), ProposalStatus::Executed);
    assert_eq!(IbcProposalState::Failed.status(), ProposalStatus::Failed);
}

#[test]
fn numbers_are_written_in_decimal() {
    for n in [0u64, 1, 9, 10, 11, 99, 100, 128, 43_200, 1_209_600, u64::MAX] {
        assert_eq!(decimal_string(n), n.to_string());
    }
    assert_eq!(decimal_string(u64::MAX), "18446744073709551615");
}

#[test]
fn substrings_are_found_where_they_stand() {
    assert!(contains("", ""));
    assert!(contains("abc", ""));
    assert!(!contains("", "a"));
    assert!(contains("abc", "abc"));
    assert!(contains("abc", "bc"));
    assert!(contains("abc", "a"));
    assert!(!contains("abc", "abcd"));
    assert!(!contains("abc", "ac"));
    assert!(contains("aab", "ab"));
    assert!(contains("héllo MsgGrant", "MsgGrant"));
    assert!(!contains("msggrant", "MsgGrant"));
    for (hay, needle) in [("/cosmos.authz.v1beta1.MsgGrant", "MsgGrant"), ("ééé", "éé"), ("xyz", "zy")] {
        assert_eq!(contains(hay, needle), hay.contains(needle));
    }
}

#[test]
fn time_is_counted_in_nanoseconds() {
    assert_eq!(checked_plus_seconds(0, 0), Some(0));
    assert_eq!(checked_plus_seconds(5, 2), Some(2_000_000_005));
    assert_eq!(
        checked_plus_seconds(START, 43_200),
        Some(Timestamp::from_nanos(START).plus_seconds(43_200).nanos())
    );
    assert_eq!(checked_plus_seconds(u64::MAX, 0), Some(u64::MAX));
    assert_eq!(checked_plus_seconds(u64::MAX, 1), None);
    assert_eq!(checked_plus_seconds(0, u64::MAX), None);
    assert_eq!(checked_plus_seconds(0, 18_446_744_073), Some(18_446_744_073_000_000_000));
    assert_eq!(checked_plus_seconds(709_551_615, 18_446_744_073), Some(u64::MAX));
    assert_eq!(checked_plus_seconds(709_551_616, 18_446_744_073), None);
    assert_eq!(checked_plus_seconds(0, 18_446_744_074), None);
    assert!(!has_elapsed_more_than(10, 1, 1_000_000_010));
    assert!(has_elapsed_more_than(10, 1, 1_000_000_011));
    assert!(!has_elapsed_more_than(10, u64::MAX, u64::MAX));
}

use storage_outpost::contract::{
    assert_admin, assert_owner, callback_counter, channel, channel_open_ack, create_channel,
    execute, get_owner, instantiate, migrate, owner_to_check, packet_ack, query, send_cosmos_msgs, state,
    validate_channel_encoding, validate_semver, ContractVersion, PacketOutcome,
    QueryResponse, Store,
};
use storage_outpost::host::{
    AddrCheck, Attribute, CosmosMsg, Env, Event, MessageInfo, Payload, Response, SendPacket, StdError,
    WasmMsg,
};
use storage_outpost::ibc::types::metadata::{IbcOrder, TxEncoding};
use storage_outpost::ibc::types::packet::{EncodedMessages, IcaPacketData};
use storage_outpost::ibc::types::stargate::{new_ica_channel_open_init_cosmos_msg, ChannelOpenRequest};
use storage_outpost::types::callback::Callback;
use storage_outpost::types::cosmos_msg::{convert_to_proto_any, Operation};
use storage_outpost::types::error::ContractError;
use storage_outpost::types::filetree::MsgPostKey;
use storage_outpost::types::keys::{CONTRACT_NAME, CONTRACT_VERSION};
use storage_outpost::types::msg::options::ChannelOpenInitOptions;
use storage_outpost::types::msg::{
    ExecuteMsg, InstantiateMsg, MigrateMsg, OutpostFactoryExecuteMsg, QueryMsg,
};
use storage_outpost::types::state::{
    CallbackCounter, ChannelState, ChannelStatus, ContractState, IcaInfo,
};
use storage_outpost::version::{check_versions, decide_migration, VersionCheck};

fn env() -> Env {
    Env { block_time_nanos: 5_000_000_000, contract_address: "outpost".to_string() }
}

fn sender(name: &str) -> MessageInfo {
    MessageInfo { sender: name.to_string() }
}

fn options(connection: &str) -> ChannelOpenInitOptions {
    ChannelOpenInitOptions {
        connection_id: connection.to_string(),
        counterparty_connection_id: "connection-9".to_string(),
        counterparty_port_id: None,
        tx_encoding: None,
        channel_ordering: None,
    }
}

fn plain() -> InstantiateMsg {
    InstantiateMsg { owner: None, admin: None, channel_open_init_options: None, callback: None }
}

fn open_request(connection: &str) -> CosmosMsg {
    CosmosMsg::ChannelOpenInit(ChannelOpenRequest {
        port_id: "wasm.outpost".to_string(),
        signer: "outpost".to_string(),
        version: "ics27-1".to_string(),
        connection_id: connection.to_string(),
        counterparty_connection_id: "connection-9".to_string(),
        counterparty_port_id: "icahost".to_string(),
        tx_encoding: TxEncoding::Protobuf,
        ordering: IbcOrder::Ordered,
    })
}

fn instantiated() -> Store {
    let mut store = Store::new();
    instantiate(&mut store, &env(), &sender("alice"), plain(), AddrCheck::Valid, AddrCheck::Valid).unwrap();
    store
}

fn opened(encoding: TxEncoding) -> Store {
    let mut store = instantiated();
    create_channel(&mut store, &env(), &sender("alice"), Some(options("connection-0"))).unwrap();
    channel_open_ack(&mut store, "channel-3".to_string(), "jkl1ica".to_string(), encoding).unwrap();
    store
}

fn batch() -> Vec<Operation> {
    vec![Operation::PostKey(MsgPostKey { creator: "jkl1ica".to_string(), key: "04ab".to_string() })]
}

#[test]
fn instantiate_without_options_initialises_the_records_and_asks_for_nothing() {
    let mut store = Store::new();
    let resp = instantiate(&mut store, &env(), &sender("alice"), plain(), AddrCheck::Valid, AddrCheck::Valid);
    assert_eq!(resp, Ok(Response::new()));
    assert_eq!(
        store,
        Store {
            contract_version: Some(ContractVersion {
                contract: "crates.io:storage-outpost".to_string(),
                version: CONTRACT_VERSION.to_string(),
            }),
            owner: Some("alice".to_string()),
            state: Some(ContractState { admin: "alice".to_string(), ica_info: None }),
            callback_counter: Some(CallbackCounter { success: 0, error: 0, timeout: 0 }),
            channel_open_init_options: None,
            allow_channel_open_init: Some(true),
            channel_state: None,
            migration_data: None,
        }
    );
    assert_eq!(CONTRACT_NAME, "crates.io:storage-outpost");
}

#[test]
fn instantiate_with_options_and_callback_opens_the_channel_and_calls_back() {
    let mut store = Store::new();
    let msg = InstantiateMsg {
        owner: Some("alice".to_string()),
        admin: Some("factory".to_string()),
        channel_open_init_options: Some(options("connection-0")),
        callback: Some(Callback {
            contract: "factory".to_string(),
            msg: None,
            outpost_owner: "alice".to_string(),
        }),
    };
    let resp = instantiate(&mut store, &env(), &sender("factory"), msg, AddrCheck::Valid, AddrCheck::Valid).unwrap();
    assert_eq!(
        resp,
        Response {
            messages: vec![
                open_request("connection-0"),
                CosmosMsg::Wasm(WasmMsg::Execute {
                    contract_addr: "factory".to_string(),
                    msg: Payload::Factory(OutpostFactoryExecuteMsg::MapUserOutpost {
                        outpost_owner: "alice".to_string()
                    }),
                    funds: vec![],
                }),
            ],
            attributes: vec![Attribute { key: "outpost_address".to_string(), value: "outpost".to_string() }],
            events: vec![Event {
                ty: "OUTPOST:instantiate".to_string(),
                attributes: vec![
                    Attribute { key: "info.sender".to_string(), value: "factory".to_string() },
                    Attribute { key: "outpost_address".to_string(), value: "outpost".to_string() },
                ],
            }],
        }
    );
    assert_eq!(store.owner, Some("alice".to_string()));
    assert_eq!(store.state, Some(ContractState { admin: "factory".to_string(), ica_info: None }));
    assert_eq!(store.channel_open_init_options, Some(options("connection-0")));
    assert_eq!(
        store.channel_state,
        Some(ChannelState {
            channel_id: String::new(),
            counterparty_port_id: "icahost".to_string(),
            encoding: TxEncoding::Protobuf,
            ordering: IbcOrder::Ordered,
            channel_status: ChannelStatus::Init,
        })
    );
}

#[test]
fn instantiate_with_options_and_no_callback_only_opens_the_channel() {
    let mut store = Store::new();
    let msg = InstantiateMsg { channel_open_init_options: Some(options("connection-0")), ..plain() };
    let resp = instantiate(&mut store, &env(), &sender("alice"), msg, AddrCheck::Valid, AddrCheck::Valid).unwrap();
    assert_eq!(resp.messages, vec![open_request("connection-0")]);
}

#[test]
fn address_that_the_host_refuses_fails_the_instantiation() {
    let mut store = Store::new();
    let r = instantiate(
        &mut store,
        &env(),
        &sender("alice"),
        plain(),
        AddrCheck::Invalid("owner is malformed".to_string()),
        AddrCheck::Invalid("admin is malformed".to_string()),
    );
    assert_eq!(r, Err(ContractError::UpstreamValidationFailure("owner is malformed".to_string())));
    assert_eq!(store, Store::new());

    let named = InstantiateMsg { admin: Some("???".to_string()), ..plain() };
    let r = instantiate(
        &mut store,
        &env(),
        &sender("alice"),
        named,
        AddrCheck::Valid,
        AddrCheck::Invalid("admin is malformed".to_string()),
    );
    assert_eq!(r, Err(ContractError::UpstreamValidationFailure("admin is malformed".to_string())));
    assert_eq!(store, Store::new());

    // the verdict on an admin is not looked at when none is named
    let r = instantiate(
        &mut store,
        &env(),
        &sender("alice"),
        plain(),
        AddrCheck::Valid,
        AddrCheck::Invalid("unused".to_string()),
    );
    assert!(r.is_ok());
}

#[test]
fn owner_to_check_is_the_named_owner_or_else_the_sender() {
    assert_eq!(owner_to_check(&sender("alice"), &plain()), "alice");
    let named = InstantiateMsg { owner: Some("bob".to_string()), ..plain() };
    assert_eq!(owner_to_check(&sender("alice"), &named), "bob");
}

#[test]
fn channel_options_default_to_host_port_binary_messages_and_ordered() {
    let o = options("connection-0");
    assert_eq!(o.counterparty_port_id(), "icahost");
    assert_eq!(o.tx_encoding(), TxEncoding::Protobuf);
    assert_eq!(o.channel_ordering(), IbcOrder::Ordered);
    let given = ChannelOpenInitOptions {
        counterparty_port_id: Some("port".to_string()),
        tx_encoding: Some(TxEncoding::Proto3Json),
        channel_ordering: Some(IbcOrder::Unordered),
        ..o
    };
    assert_eq!(given.counterparty_port_id(), "port");
    assert_eq!(given.tx_encoding(), TxEncoding::Proto3Json);
    assert_eq!(given.channel_ordering(), IbcOrder::Unordered);
    assert_eq!(
        new_ica_channel_open_init_cosmos_msg(
            "outpost".to_string(),
            "connection-0".to_string(),
            Some("port".to_string()),
            "connection-9".to_string(),
            Some(TxEncoding::Proto3Json),
            Some(IbcOrder::Unordered),
        ),
        CosmosMsg::ChannelOpenInit(ChannelOpenRequest {
            port_id: "wasm.outpost".to_string(),
            signer: "outpost".to_string(),
            version: "ics27-1".to_string(),
            connection_id: "connection-0".to_string(),
            counterparty_connection_id: "connection-9".to_string(),
            counterparty_port_id: "port".to_string(),
            tx_encoding: TxEncoding::Proto3Json,
            ordering: IbcOrder::Unordered,
        })
    );
    assert_eq!(TxEncoding::Protobuf.to_string(), "proto3");
    assert_eq!(TxEncoding::Proto3Json.to_string(), "proto3json");
}

#[test]
fn only_the_owner_opens_a_channel() {
    let mut store = instantiated();
    let before = store.clone();
    let r = create_channel(&mut store, &env(), &sender("mallory"), Some(options("connection-0")));
    assert_eq!(r, Err(ContractError::NotAuthorized {}));
    assert_eq!(store, before);
    assert_eq!(assert_owner(&store, &"alice".to_string()), Ok(()));
    assert_eq!(assert_owner(&store, &"mallory".to_string()), Err(ContractError::NotAuthorized {}));
    assert_eq!(assert_owner(&Store::new(), &"alice".to_string()), Err(ContractError::NotAuthorized {}));
    assert_eq!(assert_admin(&store, &"alice".to_string()), Ok(()));
    assert_eq!(assert_admin(&store, &"mallory".to_string()), Err(ContractError::NotAuthorized {}));
}

#[test]
fn channel_without_options_now_or_before_is_refused() {
    let mut store = instantiated();
    let before = store.clone();
    let r = create_channel(&mut store, &env(), &sender("alice"), None);
    assert_eq!(r, Err(ContractError::NoChannelInitOptions {}));
    assert_eq!(store, before);
}

#[test]
fn options_persist_for_a_later_request_without_options() {
    let mut store = instantiated();
    let x = ChannelOpenInitOptions {
        counterparty_port_id: Some("port".to_string()),
        tx_encoding: Some(TxEncoding::Proto3Json),
        channel_ordering: Some(IbcOrder::Unordered),
        ..options("connection-4")
    };
    let first = create_channel(&mut store, &env(), &sender("alice"), Some(x.clone())).unwrap();
    let second = create_channel(&mut store, &env(), &sender("alice"), None).unwrap();
    assert_eq!(first, second);
    assert_eq!(store.channel_open_init_options, Some(x.clone()));
    match &second.messages[0] {
        CosmosMsg::ChannelOpenInit(r) => {
            assert_eq!(r.connection_id, "connection-4");
            assert_eq!(r.counterparty_port_id, "port");
            assert_eq!(r.tx_encoding, TxEncoding::Proto3Json);
            assert_eq!(r.ordering, IbcOrder::Unordered);
        }
        other => panic!("{other:?}"),
    }
    // new options take the place of the old ones
    create_channel(&mut store, &env(), &sender("alice"), Some(options("connection-5"))).unwrap();
    let third = create_channel(&mut store, &env(), &sender("alice"), None).unwrap();
    assert_eq!(third.messages, vec![open_request("connection-5")]);
}

#[test]
fn options_of_the_instantiation_persist_too() {
    let mut store = Store::new();
    let msg = InstantiateMsg { channel_open_init_options: Some(options("connection-0")), ..plain() };
    instantiate(&mut store, &env(), &sender("alice"), msg, AddrCheck::Valid, AddrCheck::Valid).unwrap();
    let resp = create_channel(&mut store, &env(), &sender("alice"), None).unwrap();
    assert_eq!(resp.messages, vec![open_request("connection-0")]);
    assert_eq!(store.channel_state.as_ref().unwrap().channel_status, ChannelStatus::Init);
}

#[test]
fn sending_before_the_channel_is_open_fails_and_succeeds_afterwards() {
    let mut store = instantiated();
    for caller in ["alice", "mallory"] {
        let r = send_cosmos_msgs(&store, &env(), &sender(caller), batch(), None, None);
        assert_eq!(r, Err(ContractError::ChannelNotReady {}));
    }
    create_channel(&mut store, &env(), &sender("alice"), Some(options("connection-0"))).unwrap();
    let r = send_cosmos_msgs(&store, &env(), &sender("alice"), batch(), None, None);
    assert_eq!(r, Err(ContractError::ChannelNotReady {}));

    channel_open_ack(&mut store, "channel-3".to_string(), "jkl1ica".to_string(), TxEncoding::Protobuf).unwrap();
    let resp = send_cosmos_msgs(&store, &env(), &sender("alice"), batch(), None, None).unwrap();

    let any = convert_to_proto_any(batch().remove(0), "jkl1ica".to_string()).unwrap();
    assert_eq!(
        resp,
        Response {
            messages: vec![CosmosMsg::SendPacket(SendPacket {
                channel_id: "channel-3".to_string(),
                data: IcaPacketData::from_proto_anys(vec![any], None),
                timeout_timestamp_nanos: 605_000_000_000,
            })],
            attributes: vec![],
            events: vec![],
        }
    );
    assert_eq!(send_cosmos_msgs(&Store::new(), &env(), &sender("alice"), batch(), None, None), Err(ContractError::ChannelNotReady {}));
}

#[test]
fn deadline_counts_from_the_blocks_time() {
    let store = opened(TxEncoding::Protobuf);
    let late = Env { block_time_nanos: 7_000_000_123, contract_address: "outpost".to_string() };
    let resp = send_cosmos_msgs(&store, &late, &sender("alice"), batch(), Some("memo".to_string()), Some(3)).unwrap();
    match &resp.messages[0] {
        CosmosMsg::SendPacket(p) => {
            assert_eq!(p.timeout_timestamp_nanos, 10_000_000_123);
            assert_eq!(p.data.memo, Some("memo".to_string()));
        }
        other => panic!("{other:?}"),
    }
    let packet = IcaPacketData::new(EncodedMessages::Binary(vec![]), None);
    let msg = packet.clone().to_ibc_msg(&late, "channel-0".to_string(), None).unwrap();
    assert_eq!(
        msg,
        CosmosMsg::SendPacket(SendPacket {
            channel_id: "channel-0".to_string(),
            data: packet,
            timeout_timestamp_nanos: 607_000_000_123,
        })
    );
}

#[test]
fn only_the_owner_sends_on_an_open_channel() {
    let store = opened(TxEncoding::Protobuf);
    let r = send_cosmos_msgs(&store, &env(), &sender("mallory"), batch(), None, None);
    assert_eq!(r, Err(ContractError::NotAuthorized {}));
}

#[test]
fn operation_without_a_form_in_the_channels_encoding_is_refused() {
    let stargate = Operation::Stargate { type_url: "/x".to_string(), value: vec![1] };
    let binary = opened(TxEncoding::Protobuf);
    assert!(send_cosmos_msgs(&binary, &env(), &sender("alice"), vec![stargate.clone()], None, None).is_ok());
    let text = opened(TxEncoding::Proto3Json);
    let r = send_cosmos_msgs(&text, &env(), &sender("alice"), vec![stargate], None, None);
    assert_eq!(r, Err(ContractError::UnsupportedOperation {}));
    let resp = send_cosmos_msgs(&text, &env(), &sender("alice"), batch(), None, None).unwrap();
    match &resp.messages[0] {
        CosmosMsg::SendPacket(p) => assert_eq!(
            p.data.data,
            EncodedMessages::Text(vec![
                "{\"@type\":\"/canine_chain.filetree.MsgPostKey\",\"creator\":\"jkl1ica\",\"key\":\"04ab\"}".to_string()
            ])
        ),
        other => panic!("{other:?}"),
    }
}

#[test]
fn completion_of_the_handshake_is_stored_once() {
    let mut store = instantiated();
    create_channel(&mut store, &env(), &sender("alice"), Some(options("connection-0"))).unwrap();
    channel_open_ack(&mut store, "channel-3".to_string(), "jkl1ica".to_string(), TxEncoding::Protobuf).unwrap();
    assert_eq!(
        store.state,
        Some(ContractState {
            admin: "alice".to_string(),
            ica_info: Some(IcaInfo {
                ica_address: "jkl1ica".to_string(),
                channel_id: "channel-3".to_string(),
                encoding: TxEncoding::Protobuf,
            }),
        })
    );
    assert_eq!(
        channel(&store),
        Ok(ChannelState {
            channel_id: "channel-3".to_string(),
            counterparty_port_id: "icahost".to_string(),
            encoding: TxEncoding::Protobuf,
            ordering: IbcOrder::Ordered,
            channel_status: ChannelStatus::Open,
        })
    );
    let open = store.clone();

    // the same again changes nothing
    let same = channel_open_ack(&mut store, "channel-3".to_string(), "jkl1ica".to_string(), TxEncoding::Protobuf);
    assert_eq!(same, Ok(()));
    assert_eq!(store, open);

    // anything else is refused
    for (c, a, e) in [
        ("channel-4", "jkl1ica", TxEncoding::Protobuf),
        ("channel-3", "jkl1other", TxEncoding::Protobuf),
        ("channel-3", "jkl1ica", TxEncoding::Proto3Json),
    ] {
        let r = channel_open_ack(&mut store, c.to_string(), a.to_string(), e);
        assert_eq!(r, Err(ContractError::ChannelAlreadyEstablished {}));
        assert_eq!(store, open);
    }
}

#[test]
fn completion_before_the_instantiation_is_refused() {
    let mut store = Store::new();
    let r = channel_open_ack(&mut store, "channel-3".to_string(), "jkl1ica".to_string(), TxEncoding::Protobuf);
    assert_eq!(r, Err(ContractError::Std(StdError::NotFound { kind: "ContractState".to_string() })));
    assert_eq!(store, Store::new());
}

#[test]
fn new_request_on_an_open_channel_closes_it_for_sending() {
    let mut store = opened(TxEncoding::Protobuf);
    create_channel(&mut store, &env(), &sender("alice"), None).unwrap();
    let r = send_cosmos_msgs(&store, &env(), &sender("alice"), batch(), None, None);
    assert_eq!(r, Err(ContractError::ChannelNotReady {}));
    channel_open_ack(&mut store, "channel-8".to_string(), "jkl1ica".to_string(), TxEncoding::Protobuf).unwrap();
    assert!(send_cosmos_msgs(&store, &env(), &sender("alice"), batch(), None, None).is_ok());
}

#[test]
fn acknowledgements_are_counted_by_outcome() {
    let mut store = instantiated();
    packet_ack(&mut store, PacketOutcome::Success).unwrap();
    packet_ack(&mut store, PacketOutcome::Success).unwrap();
    packet_ack(&mut store, PacketOutcome::Error).unwrap();
    packet_ack(&mut store, PacketOutcome::Timeout).unwrap();
    assert_eq!(callback_counter(&store), Ok(CallbackCounter { success: 2, error: 1, timeout: 1 }));

    let mut empty = Store::new();
    assert_eq!(
        packet_ack(&mut empty, PacketOutcome::Error),
        Err(ContractError::Std(StdError::NotFound { kind: "CallbackCounter".to_string() }))
    );
}

#[test]
fn outpost_execute_goes_to_the_same_functions() {
    let mut store = instantiated();
    let resp = execute(
        &mut store,
        &env(),
        &sender("alice"),
        ExecuteMsg::CreateChannel { channel_open_init_options: Some(options("connection-0")) },
    )
    .unwrap();
    assert_eq!(resp.messages, vec![open_request("connection-0")]);
    let r = execute(
        &mut store,
        &env(),
        &sender("alice"),
        ExecuteMsg::SendCosmosMsgs { messages: batch(), packet_memo: None, timeout_seconds: None },
    );
    assert_eq!(r, Err(ContractError::ChannelNotReady {}));
    let r = execute(&mut store, &env(), &sender("mallory"), ExecuteMsg::SetDataAfterMigration { data: "x".to_string() });
    assert_eq!(r, Err(ContractError::NotAuthorized {}));
    execute(&mut store, &env(), &sender("alice"), ExecuteMsg::SetDataAfterMigration { data: "done".to_string() })
        .unwrap();
    assert_eq!(query(&store, &env(), QueryMsg::GetMigrationData {}), Ok(QueryResponse::MigrationData("done".to_string())));
}

#[test]
fn outpost_queries_answer_from_the_store() {
    let store = opened(TxEncoding::Protobuf);
    assert_eq!(query(&store, &env(), QueryMsg::GetContractState {}), Ok(QueryResponse::ContractState(state(&store).unwrap())));
    assert_eq!(query(&store, &env(), QueryMsg::GetChannel {}), Ok(QueryResponse::Channel(channel(&store).unwrap())));
    assert_eq!(
        query(&store, &env(), QueryMsg::GetCallbackCounter {}),
        Ok(QueryResponse::CallbackCounter(CallbackCounter { success: 0, error: 0, timeout: 0 }))
    );
    assert_eq!(query(&store, &env(), QueryMsg::Ownership {}), Ok(QueryResponse::Ownership("alice".to_string())));
    assert_eq!(
        query(&store, &env(), QueryMsg::GetMigrationData {}),
        Err(StdError::NotFound { kind: "String".to_string() })
    );
    let empty = Store::new();
    assert_eq!(get_owner(&empty), Err(StdError::GenericErr { msg: "No owner found".to_string() }));
    assert_eq!(state(&empty), Err(StdError::NotFound { kind: "ContractState".to_string() }));
    assert_eq!(channel(&empty), Err(StdError::NotFound { kind: "ChannelState".to_string() }));
    assert_eq!(callback_counter(&empty), Err(StdError::NotFound { kind: "CallbackCounter".to_string() }));
}

#[test]
fn state_keeps_the_remote_account() {
    let mut s = ContractState::new("alice".to_string());
    assert_eq!(s.get_ica_info(), Err(ContractError::ChannelNotReady {}));
    s.set_ica_info("jkl1ica".to_string(), "channel-0".to_string(), TxEncoding::Proto3Json);
    assert_eq!(
        s.get_ica_info(),
        Ok(IcaInfo {
            ica_address: "jkl1ica".to_string(),
            channel_id: "channel-0".to_string(),
            encoding: TxEncoding::Proto3Json
        })
    );
    s.delete_ica_info();
    assert_eq!(s, ContractState::new("alice".to_string()));
}

fn recorded(contract: &str, version: &str) -> Store {
    let mut store = instantiated();
    store.contract_version = Some(ContractVersion { contract: contract.to_string(), version: version.to_string() });
    store
}

#[test]
fn migration_passes_only_from_an_older_version_of_the_same_contract() {
    assert_eq!(CONTRACT_VERSION, "0.1.0");
    for older in ["0.0.9", "0.1.0-rc.1", "0.0.0"] {
        let mut store = recorded(CONTRACT_NAME, older);
        assert_eq!(validate_semver(&store), Ok(()));
        assert_eq!(migrate(&mut store, &env(), MigrateMsg {}), Ok(Response::new()));
        assert_eq!(
            store.contract_version,
            Some(ContractVersion { contract: CONTRACT_NAME.to_string(), version: "0.1.0".to_string() })
        );
    }
    for (not_older, shown) in [("0.1.0", "0.1.0"), ("0.1.1", "0.1.1"), ("1.0.0", "1.0.0"), ("0.1.0+b1", "0.1.0+b1")] {
        let mut store = recorded(CONTRACT_NAME, not_older);
        let before = store.clone();
        let expected = Err(ContractError::InvalidMigrationVersion {
            expected: format!("> {shown}"),
            actual: "0.1.0".to_string(),
        });
        assert_eq!(validate_semver(&store), expected);
        assert_eq!(migrate(&mut store, &env(), MigrateMsg {}), Err(expected.unwrap_err()));
        assert_eq!(store, before);
    }
}

#[test]
fn migration_from_another_contract_or_from_no_version_is_refused() {
    let store = recorded("crates.io:other", "0.0.1");
    assert_eq!(
        validate_semver(&store),
        Err(ContractError::InvalidMigrationVersion {
            expected: "crates.io:storage-outpost".to_string(),
            actual: "crates.io:other".to_string(),
        })
    );
    let store = recorded(CONTRACT_NAME, "1.0");
    assert!(matches!(validate_semver(&store), Err(ContractError::SemverError(_))));
    assert_eq!(
        validate_semver(&Store::new()),
        Err(ContractError::Std(StdError::NotFound { kind: "ContractVersion".to_string() }))
    );
}

#[test]
fn versions_are_compared_as_semantic_versions() {
    assert_eq!(
        check_versions("1.5.0", "1.19.0"),
        Ok(VersionCheck { previous: "1.5.0".to_string(), upgrade: true })
    );
    assert_eq!(
        check_versions("1.0.0-alpha.1", "1.0.0"),
        Ok(VersionCheck { previous: "1.0.0-alpha.1".to_string(), upgrade: true })
    );
    assert_eq!(
        check_versions("2.0.0", "1.19.0"),
        Ok(VersionCheck { previous: "2.0.0".to_string(), upgrade: false })
    );
    assert_eq!(check_versions("1.0", "1.0.0").unwrap_err(), "1.0".parse::<semver::Version>().unwrap_err().to_string());
    assert_eq!(check_versions("1.0.0", "").unwrap_err(), "empty string, expected a semver version");
    assert_eq!(
        decide_migration("crates.io:storage-outpost", Err("bad".to_string())),
        Err(ContractError::SemverError("bad".to_string()))
    );
    assert_eq!(
        decide_migration("x", Ok(VersionCheck { previous: "0.0.1".to_string(), upgrade: true })),
        Err(ContractError::InvalidMigrationVersion {
            expected: "crates.io:storage-outpost".to_string(),
            actual: "x".to_string()
        })
    );
}

#[test]
fn only_binary_messages_pass_the_check_of_the_channels_encoding() {
    assert_eq!(validate_channel_encoding(&instantiated()), Ok(()));
    assert_eq!(validate_channel_encoding(&opened(TxEncoding::Protobuf)), Ok(()));
    assert_eq!(
        validate_channel_encoding(&opened(TxEncoding::Proto3Json)),
        Err(ContractError::UnsupportedPacketEncoding("proto3json".to_string()))
    );
    assert_eq!(
        validate_channel_encoding(&Store::new()),
        Err(ContractError::Std(StdError::NotFound { kind: "ContractState".to_string() }))
    );
}

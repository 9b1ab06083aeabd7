use storage_outpost::host::AddrCheck;
use storage_outpost::host::{
    Attribute, BankMsg, Coin, CosmosMsg, Env, Event, MessageInfo, Payload, Response, StdError,
    WasmMsg,
};
use storage_outpost::migrations::v1;
use storage_outpost::migrations::v1::contract as vault;
use storage_outpost::migrations::v2;
use storage_outpost::outpost_helpers::{QueryRequest, StorageOutpostCode, StorageOutpostContract};
use storage_outpost::owner;
use storage_outpost::types::msg::options::ChannelOpenInitOptions;
use storage_outpost::types::msg::{ExecuteMsg, InstantiateMsg, MigrateMsg, QueryMsg};
use storage_outpost::user;

fn env(address: &str) -> Env {
    Env { block_time_nanos: 0, contract_address: address.to_string() }
}

fn sender(name: &str) -> MessageInfo {
    MessageInfo { sender: name.to_string() }
}

fn options() -> ChannelOpenInitOptions {
    ChannelOpenInitOptions {
        connection_id: "connection-0".to_string(),
        counterparty_connection_id: "connection-1".to_string(),
        counterparty_port_id: None,
        tx_encoding: None,
        channel_ordering: None,
    }
}

fn coin(amount: u128, denom: &str) -> Coin {
    Coin::new(amount, denom.to_string())
}

#[test]
fn instantiate_and_check() {
    let mut store = v1::Store::new();
    let contract = env("v1 contract");
    v1::instantiate(&mut store, &contract, &sender("sender"), v1::Empty {}).unwrap();
    let resp: v1::ValueResp = v1::query(&store, &contract, v1::QueryMsg::Value {}).unwrap();
    assert_eq!(resp, v1::ValueResp { value: String::from("Data to migrate!") });
}

#[test]
fn first_version_answers_nothing_before_it_is_instantiated() {
    let mut store = v1::Store::new();
    assert_eq!(
        v1::query(&store, &env("v1"), v1::QueryMsg::Value {}),
        Err(StdError::NotFound { kind: "String".to_string() })
    );
    assert_eq!(v1::execute(&mut store, &env("v1"), &sender("sender"), v1::Empty {}), Ok(Response::new()));
    assert_eq!(store, v1::Store::new());
}

#[test]
fn migration_takes_over_the_text_of_the_first_version() {
    let mut old = v1::Store::new();
    v1::instantiate(&mut old, &env("c"), &sender("sender"), v1::Empty {}).unwrap();

    let mut store = v2::Store { data_to_migrate: old.data_to_migrate.clone(), ..v2::Store::new() };
    let before = v1::query(&old, &env("c"), v1::QueryMsg::Value {}).unwrap().value;
    v2::migrate(&mut store, &env("c"), v1::Empty {}).unwrap();
    assert_eq!(
        v2::query(&store, &env("c"), v2::QueryMsg::Data {}),
        Ok(v2::QueryResponse::Value(v2::ValueResp { value: before }))
    );

    let mut fresh = v2::Store::new();
    assert_eq!(
        v2::migrate(&mut fresh, &env("c"), v1::Empty {}),
        Err(StdError::NotFound { kind: "String".to_string() })
    );
    assert_eq!(fresh, v2::Store::new());
}

#[test]
fn second_version_starts_with_a_text_of_its_own() {
    let mut store = v2::Store::new();
    v2::instantiate(&mut store, &env("c"), &sender("sender"), v1::Empty {}).unwrap();
    assert_eq!(
        v2::query(&store, &env("c"), v2::QueryMsg::Data {}),
        Ok(v2::QueryResponse::Value(v2::ValueResp {
            value: String::from("Erroneous data before migration!!!")
        }))
    );
}

#[test]
fn second_version_is_told_the_outpost_and_asks_it_for_its_channel() {
    let mut store = v2::Store::new();
    let ask = v2::QueryMsg::QueryOutpostChannel(v2::QueryChannelMsg {});
    assert_eq!(
        v2::query(&store, &env("c"), ask),
        Err(StdError::NotFound { kind: "StorageOutpostContract".to_string() })
    );
    v2::execute(
        &mut store,
        &env("c"),
        &sender("sender"),
        v2::ExecuteMsg::SetOutpost(v2::SetOutpostMsg { addr: "outpost".to_string() }),
    )
    .unwrap();
    assert_eq!(store.storage_outpost_contract, Some(StorageOutpostContract("outpost".to_string())));
    assert_eq!(
        v2::query(&store, &env("c"), ask),
        Ok(v2::QueryResponse::OutpostChannel(QueryRequest {
            contract_addr: "outpost".to_string(),
            msg: QueryMsg::GetChannel {},
        }))
    );
}

fn vault_of(owner: &str) -> v1::Store {
    let mut store = v1::Store::new();
    vault::instantiate(&mut store, &sender(owner)).unwrap();
    store
}

fn withdrawal(to: &str, from: &str, amount: Vec<Coin>) -> Response {
    Response {
        messages: vec![CosmosMsg::Bank(BankMsg::Send { to_address: to.to_string(), amount })],
        attributes: vec![
            Attribute { key: "action".to_string(), value: "withdraw".to_string() },
            Attribute { key: "sender".to_string(), value: from.to_string() },
        ],
        events: vec![],
    }
}

#[test]
fn owner_withdraws_the_whole_balance() {
    let store = vault_of("owner");
    let balance = vec![coin(10, "ujkl"), coin(3, "uatom")];
    assert_eq!(
        vault::withdraw(&store, &env("vault"), &sender("owner"), balance.clone()),
        Ok(withdrawal("owner", "owner", balance.clone()))
    );
    assert_eq!(
        vault::withdraw(&store, &env("vault"), &sender("mallory"), balance.clone()),
        Err(vault::ContractError::Unauthorized { owner: "owner".to_string() })
    );
    assert_eq!(
        vault::withdraw(&v1::Store::new(), &env("vault"), &sender("owner"), balance),
        Err(vault::ContractError::Std(StdError::NotFound { kind: "Addr".to_string() }))
    );
}

#[test]
fn withdrawal_to_another_is_capped_by_the_named_funds() {
    let store = vault_of("owner");
    let balance = vec![coin(10, "ujkl"), coin(3, "uatom"), coin(8, "uosmo")];

    // no funds named: everything
    assert_eq!(
        vault::withdraw_to(&store, &env("vault"), &sender("owner"), "bob".to_string(), vec![], balance.clone()),
        Ok(withdrawal("bob", "owner", balance.clone()))
    );
    // of each coin the smaller of balance and limit; a denomination that is not named gets nothing;
    // of a denomination that is named twice the first counts
    let funds = vec![coin(4, "ujkl"), coin(5, "uatom"), coin(9, "ujkl"), coin(1, "other")];
    assert_eq!(
        vault::withdraw_to(&store, &env("vault"), &sender("owner"), "bob".to_string(), funds.clone(), balance.clone()),
        Ok(withdrawal("bob", "owner", vec![coin(4, "ujkl"), coin(3, "uatom"), coin(0, "uosmo")]))
    );
    assert_eq!(vault::find_limit(&funds, &"ujkl".to_string()), 4);
    assert_eq!(vault::find_limit(&funds, &"none".to_string()), 0);
    assert_eq!(
        vault::withdraw_to(&store, &env("vault"), &sender("mallory"), "bob".to_string(), funds, balance),
        Err(vault::ContractError::Unauthorized { owner: "owner".to_string() })
    );
}

#[test]
fn helpers_build_the_calls_of_an_outpost() {
    let outpost = StorageOutpostContract::new("outpost".to_string());
    assert_eq!(outpost.addr(), "outpost");
    let call = ExecuteMsg::CreateChannel { channel_open_init_options: None };
    assert_eq!(
        outpost.call(call.clone()),
        Ok(CosmosMsg::Wasm(WasmMsg::Execute {
            contract_addr: "outpost".to_string(),
            msg: Payload::Execute(call),
            funds: vec![],
        }))
    );
    assert_eq!(
        outpost.update_admin("admin".to_string()),
        CosmosMsg::Wasm(WasmMsg::UpdateAdmin { contract_addr: "outpost".to_string(), admin: "admin".to_string() })
    );
    assert_eq!(
        outpost.migrate(MigrateMsg {}, 5),
        Ok(CosmosMsg::Wasm(WasmMsg::Migrate {
            contract_addr: "outpost".to_string(),
            new_code_id: 5,
            msg: Payload::Migrate(MigrateMsg {}),
        }))
    );
    assert_eq!(
        outpost.query_state(),
        QueryRequest { contract_addr: "outpost".to_string(), msg: QueryMsg::GetContractState {} }
    );
    assert_eq!(
        outpost.query_channel(),
        QueryRequest { contract_addr: "outpost".to_string(), msg: QueryMsg::GetChannel {} }
    );

    let code = StorageOutpostCode::new(11);
    assert_eq!(code.code_id(), 11);
    let msg = InstantiateMsg { owner: None, admin: None, channel_open_init_options: None, callback: None };
    assert_eq!(
        code.instantiate(msg.clone(), "label".to_string(), Some("admin".to_string())),
        Ok(CosmosMsg::Wasm(WasmMsg::Instantiate {
            admin: Some("admin".to_string()),
            code_id: 11,
            msg: Payload::Instantiate(msg),
            funds: vec![],
            label: "label".to_string(),
        }))
    );
}

fn owner_contract() -> owner::state::Store {
    let mut store = owner::state::Store::new();
    owner::contract::instantiate(
        &mut store,
        &env("owner"),
        &sender("admin"),
        owner::msg::InstantiateMsg { admin: None, storage_outpost_code_id: 3 },
        AddrCheck::Valid,
    )
    .unwrap();
    store
}

#[test]
fn owner_contract_counts_the_outposts_it_asks_for() {
    let mut store = owner_contract();
    let resp = owner::contract::create_ica_contract(&mut store, &env("owner"), &sender("alice"), None, options()).unwrap();
    match &resp.messages[0] {
        CosmosMsg::Wasm(WasmMsg::Instantiate { admin, code_id, label, msg, funds }) => {
            assert_eq!(admin, &Some("alice".to_string()));
            assert_eq!(*code_id, 3);
            assert_eq!(label, "storage_outpost-owner-0");
            assert!(funds.is_empty());
            match msg {
                Payload::Instantiate(m) => {
                    assert_eq!(m.owner, Some("owner".to_string()));
                    assert_eq!(m.admin, Some("alice".to_string()));
                    assert_eq!(m.channel_open_init_options, Some(options()));
                }
                other => panic!("{other:?}"),
            }
        }
        other => panic!("{other:?}"),
    }
    assert_eq!(
        resp.events,
        vec![Event {
            ty: "cross-contract-logging".to_string(),
            attributes: vec![Attribute { key: "creator".to_string(), value: "alice".to_string() }],
        }]
    );
    assert_eq!(owner::contract::ica_count(&store), Ok(1));
    assert_eq!(owner::contract::callback_count(&store), Ok(97));
    assert_eq!(
        owner::contract::ica_state(&store, 0),
        Ok(owner::state::IcaContractState { contract_addr: "alice".to_string() })
    );
    assert_eq!(
        owner::contract::ica_state(&store, 1),
        Err(StdError::NotFound { kind: "IcaContractState".to_string() })
    );

    let second = owner::contract::create_ica_contract(&mut store, &env("owner"), &sender("bob"), None, options()).unwrap();
    match &second.messages[0] {
        CosmosMsg::Wasm(WasmMsg::Instantiate { label, .. }) => assert_eq!(label, "storage_outpost-owner-1"),
        other => panic!("{other:?}"),
    }
    owner::contract::update_callback_count(&mut store, &env("owner"), &sender("x")).unwrap();
    assert_eq!(owner::contract::ica_count(&store), Ok(2));
    assert_eq!(owner::contract::callback_count(&store), Ok(195));
    assert_eq!(storage_outpost::decimal::to_decimal_string(18_446_744_073_709_551_615), "18446744073709551615");
}

#[test]
fn owner_contract_binds_without_a_lock() {
    let mut store = owner_contract();
    let bind = |store: &mut owner::state::Store, caller: &str, user: &str, outpost: &str| {
        owner::contract::map_user_outpost(store, &env("owner"), &sender(caller), user.to_string(), outpost.to_string())
    };
    // neither the requester nor the outpost
    assert_eq!(
        bind(&mut store, "mallory", "alice", "inst1"),
        Err(owner::error::ContractError::Unauthorized { expected: "inst1".to_string(), actual: "mallory".to_string() })
    );
    // the outpost itself
    let resp = bind(&mut store, "inst1", "alice", "inst1").unwrap();
    assert_eq!(resp.events[0].ty, "user to outpost map");
    assert_eq!(owner::contract::user_outpost_address(&store, "alice".to_string()), Ok("inst1".to_string()));
    // once bound, only the outpost that is bound writes again
    assert_eq!(
        bind(&mut store, "alice", "alice", "inst2"),
        Err(owner::error::ContractError::Unauthorized { expected: "inst1".to_string(), actual: "alice".to_string() })
    );
    assert_eq!(owner::contract::user_outpost_address(&store, "alice".to_string()), Ok("inst1".to_string()));
    bind(&mut store, "inst1", "alice", "inst1").unwrap();
    // the requester may bind itself to anything while it is not bound
    bind(&mut store, "bob", "bob", "anything").unwrap();
    assert_eq!(owner::contract::user_outpost_address(&store, "bob".to_string()), Ok("anything".to_string()));
}

#[test]
fn owner_contract_answers_queries_and_refuses_a_malformed_admin() {
    let store = owner_contract();
    assert_eq!(
        owner::contract::query(&store, &env("owner"), owner::msg::QueryMsg::GetContractState {}),
        Ok(owner::msg::QueryResponse::ContractState(owner::state::ContractState {
            admin: "admin".to_string(),
            storage_outpost_code_id: 3,
        }))
    );
    assert_eq!(
        owner::contract::query(&store, &env("owner"), owner::msg::QueryMsg::GetIcaCount {}),
        Err(StdError::NotFound { kind: "u64".to_string() })
    );
    let mut fresh = owner::state::Store::new();
    let r = owner::contract::instantiate(
        &mut fresh,
        &env("owner"),
        &sender("admin"),
        owner::msg::InstantiateMsg { admin: Some("???".to_string()), storage_outpost_code_id: 3 },
        AddrCheck::Invalid("malformed".to_string()),
    );
    assert_eq!(r, Err(owner::error::ContractError::Std(StdError::GenericErr { msg: "malformed".to_string() })));
    assert_eq!(owner::contract::state(&fresh), Err(StdError::NotFound { kind: "ContractState".to_string() }));
}

#[test]
fn user_contract_keeps_notes_and_passes_calls_on() {
    let mut store = user::state::Store::new();
    let call = ExecuteMsg::CreateChannel { channel_open_init_options: None };
    assert_eq!(
        user::contract::call_outpost(&store, &env("user"), &sender("alice"), call.clone()),
        Err(user::error::ContractError::Std(StdError::NotFound { kind: "ContractState".to_string() }))
    );
    user::contract::instantiate(
        &mut store,
        &env("user"),
        &sender("admin"),
        user::msg::InstantiateMsg { storage_outpost_address: "outpost".to_string() },
    )
    .unwrap();

    let resp = user::contract::save_note(&mut store, &env("user"), &sender("alice"), "first".to_string()).unwrap();
    assert_eq!(
        resp.attributes,
        vec![
            Attribute { key: "action".to_string(), value: "save_note".to_string() },
            Attribute { key: "note".to_string(), value: "first".to_string() },
            Attribute { key: "sender".to_string(), value: "alice".to_string() },
        ]
    );
    user::contract::save_note(&mut store, &env("user"), &sender("alice"), "second".to_string()).unwrap();
    assert_eq!(user::contract::query_note_by_address(&store, "alice".to_string()), Ok("second".to_string()));
    assert_eq!(
        user::contract::query(&store, &env("user"), user::msg::QueryMsg::GetNote { address: "bob".to_string() }),
        Err(StdError::NotFound { kind: "String".to_string() })
    );

    let resp = user::contract::execute(&mut store, &env("user"), &sender("alice"), user::msg::ExecuteMsg::CallOutpost { msg: call.clone() })
        .unwrap();
    assert_eq!(
        resp.messages,
        vec![CosmosMsg::Wasm(WasmMsg::Execute {
            contract_addr: "outpost".to_string(),
            msg: Payload::Execute(call),
            funds: vec![],
        })]
    );
    let resp = user::contract::execute(
        &mut store,
        &env("user"),
        &sender("alice"),
        user::msg::ExecuteMsg::SendCosmosMsgs { messages: vec![], packet_memo: None, timeout_seconds: Some(5) },
    )
    .unwrap();
    assert_eq!(
        resp.messages,
        vec![CosmosMsg::Wasm(WasmMsg::Execute {
            contract_addr: "outpost".to_string(),
            msg: Payload::Execute(ExecuteMsg::SendCosmosMsgs {
                messages: vec![],
                packet_memo: None,
                timeout_seconds: Some(5)
            }),
            funds: vec![],
        })]
    );

    user::contract::save_outpost(&mut store, &env("user"), &sender("anyone"), "other".to_string()).unwrap();
    assert_eq!(
        user::contract::state(&store),
        Ok(user::state::ContractState { storage_outpost_address: "other".to_string() })
    );
}

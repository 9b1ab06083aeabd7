use storage_outpost::factory::contract::{
    create_outpost, execute, get_all_user_outpost_addresses, instantiate, map_user_outpost,
    migrate_outpost, query, state, user_outpost_address,
};
use storage_outpost::factory::error::ContractError;
use storage_outpost::factory::msg::{ExecuteMsg, InstantiateMsg, QueryMsg, QueryResponse};
use storage_outpost::factory::state::{ContractState, LockState, Store};
use storage_outpost::host::{
    Attribute, CosmosMsg, Env, Event, MessageInfo, Payload, Response, StdError, WasmMsg,
};
use storage_outpost::types::callback::Callback;
use storage_outpost::types::msg::options::ChannelOpenInitOptions;
use storage_outpost::types::msg::{InstantiateMsg as OutpostInstantiateMsg, MigrateMsg};

fn options() -> ChannelOpenInitOptions {
    ChannelOpenInitOptions {
        connection_id: "connection-0".to_string(),
        counterparty_connection_id: "connection-1".to_string(),
        counterparty_port_id: None,
        tx_encoding: None,
        channel_ordering: None,
    }
}

fn env() -> Env {
    Env { block_time_nanos: 1_000, contract_address: "factory".to_string() }
}

fn sender(name: &str) -> MessageInfo {
    MessageInfo { sender: name.to_string() }
}

fn factory() -> Store {
    let mut store = Store::new();
    let r = instantiate(&mut store, &env(), &sender("admin"), InstantiateMsg { storage_outpost_code_id: 7 });
    assert_eq!(r, Ok(Response::new()));
    store
}

fn snapshot(store: &Store) -> (Option<ContractState>, Vec<(String, LockState)>, Vec<(String, String)>) {
    let names = ["alice", "bob", "mallory", "inst1", "inst2", ""];
    (
        state(store).ok(),
        names.iter().map(|n| (n.to_string(), store.lock_state(n))).collect(),
        get_all_user_outpost_addresses(store).unwrap(),
    )
}

#[test]
fn fresh_factory_holds_no_lock_and_no_binding() {
    let store = Store::new();
    assert_eq!(store.lock_state("alice"), LockState::Absent);
    assert_eq!(store.binding("alice"), None);
    assert_eq!(state(&store), Err(StdError::NotFound { kind: "ContractState".to_string() }));
    assert_eq!(get_all_user_outpost_addresses(&store), Ok(vec![]));
}

#[test]
fn instantiate_remembers_the_code_and_the_caller() {
    let store = factory();
    assert_eq!(
        state(&store),
        Ok(ContractState { storage_outpost_code_id: 7, admin: "admin".to_string() })
    );
}

#[test]
fn create_asks_for_an_outpost_that_calls_back_in_the_requesters_name() {
    let mut store = factory();
    let resp = create_outpost(&mut store, &env(), &sender("alice"), options()).unwrap();
    let expected = Response {
        messages: vec![CosmosMsg::Wasm(WasmMsg::Instantiate {
            admin: Some("factory".to_string()),
            code_id: 7,
            msg: Payload::Instantiate(OutpostInstantiateMsg {
                owner: Some("alice".to_string()),
                admin: Some("factory".to_string()),
                channel_open_init_options: Some(options()),
                callback: Some(Callback {
                    contract: "factory".to_string(),
                    msg: None,
                    outpost_owner: "alice".to_string(),
                }),
            }),
            funds: vec![],
            label: "storage_outpost-owned by: alice".to_string(),
        })],
        attributes: vec![],
        events: vec![Event {
            ty: "FACTORY: create_ica_contract".to_string(),
            attributes: vec![Attribute { key: "info.sender".to_string(), value: "alice".to_string() }],
        }],
    };
    assert_eq!(resp, expected);
}

#[test]
fn create_then_confirm_binds_the_requester() {
    let mut store = factory();

    create_outpost(&mut store, &env(), &sender("alice"), options()).unwrap();
    assert_eq!(store.lock_state("alice"), LockState::Locked);
    assert_eq!(store.binding("alice"), None);

    let confirmed = map_user_outpost(&mut store, &env(), &sender("inst1"), "alice".to_string()).unwrap();
    assert_eq!(
        confirmed,
        Response {
            messages: vec![],
            attributes: vec![],
            events: vec![Event {
                ty: "FACTORY:map_user_outpost".to_string(),
                attributes: vec![Attribute { key: "info.sender".to_string(), value: "inst1".to_string() }],
            }],
        }
    );
    assert_eq!(store.lock_state("alice"), LockState::Unlocked);
    assert_eq!(store.binding("alice"), Some("inst1".to_string()));

    let again = create_outpost(&mut store, &env(), &sender("alice"), options());
    assert_eq!(again, Err(ContractError::AlreadyCreated("inst1".to_string())));
}

#[test]
fn stranger_who_confirms_first_is_bound_in_the_outposts_place() {
    let mut store = factory();
    create_outpost(&mut store, &env(), &sender("alice"), options()).unwrap();
    assert_eq!(store.lock_state("alice"), LockState::Locked);

    map_user_outpost(&mut store, &env(), &sender("mallory"), "alice".to_string()).unwrap();
    assert_eq!(store.binding("alice"), Some("mallory".to_string()));
    assert_eq!(store.lock_state("alice"), LockState::Unlocked);

    let late = map_user_outpost(&mut store, &env(), &sender("inst1"), "alice".to_string());
    assert_eq!(late, Err(ContractError::MissingLock {}));
    assert_eq!(store.binding("alice"), Some("mallory".to_string()));
}

#[test]
fn second_confirmation_fails_with_missing_lock() {
    let mut store = factory();
    create_outpost(&mut store, &env(), &sender("alice"), options()).unwrap();
    map_user_outpost(&mut store, &env(), &sender("inst1"), "alice".to_string()).unwrap();
    let before = snapshot(&store);

    for caller in ["inst1", "inst2", "alice"] {
        let r = map_user_outpost(&mut store, &env(), &sender(caller), "alice".to_string());
        assert_eq!(r, Err(ContractError::MissingLock {}));
        assert_eq!(snapshot(&store), before);
    }

    // not even after calls for others, nor after another request of alice
    create_outpost(&mut store, &env(), &sender("bob"), options()).unwrap();
    map_user_outpost(&mut store, &env(), &sender("inst2"), "bob".to_string()).unwrap();
    assert!(create_outpost(&mut store, &env(), &sender("alice"), options()).is_err());
    let r = map_user_outpost(&mut store, &env(), &sender("inst2"), "alice".to_string());
    assert_eq!(r, Err(ContractError::MissingLock {}));
    assert_eq!(store.binding("alice"), Some("inst1".to_string()));
}

#[test]
fn confirmation_without_a_request_fails_with_missing_lock() {
    let mut store = factory();
    let before = snapshot(&store);
    let r = map_user_outpost(&mut store, &env(), &sender("inst1"), "alice".to_string());
    assert_eq!(r, Err(ContractError::MissingLock {}));
    assert_eq!(snapshot(&store), before);

    // a request of someone else sets no lock for alice
    create_outpost(&mut store, &env(), &sender("bob"), options()).unwrap();
    let r = map_user_outpost(&mut store, &env(), &sender("inst1"), "alice".to_string());
    assert_eq!(r, Err(ContractError::MissingLock {}));
    assert_eq!(store.lock_state("alice"), LockState::Absent);
    assert_eq!(store.lock_state("bob"), LockState::Locked);
}

#[test]
fn request_of_a_bound_requester_changes_nothing() {
    let mut store = factory();
    create_outpost(&mut store, &env(), &sender("alice"), options()).unwrap();
    map_user_outpost(&mut store, &env(), &sender("inst1"), "alice".to_string()).unwrap();
    let before = snapshot(&store);
    let r = execute(
        &mut store,
        &env(),
        &sender("alice"),
        ExecuteMsg::CreateOutpost { channel_open_init_options: options() },
    );
    assert_eq!(r, Err(ContractError::AlreadyCreated("inst1".to_string())));
    assert_eq!(snapshot(&store), before);
}

#[test]
fn request_before_the_factory_is_set_up_is_refused() {
    let mut store = Store::new();
    let r = create_outpost(&mut store, &env(), &sender("alice"), options());
    assert_eq!(r, Err(ContractError::Std(StdError::NotFound { kind: "ContractState".to_string() })));
    assert_eq!(store.lock_state("alice"), LockState::Absent);
}

#[test]
fn second_request_before_the_confirmation_keeps_the_lock() {
    let mut store = factory();
    create_outpost(&mut store, &env(), &sender("alice"), options()).unwrap();
    create_outpost(&mut store, &env(), &sender("alice"), options()).unwrap();
    assert_eq!(store.lock_state("alice"), LockState::Locked);
    map_user_outpost(&mut store, &env(), &sender("inst1"), "alice".to_string()).unwrap();
    let r = map_user_outpost(&mut store, &env(), &sender("inst2"), "alice".to_string());
    assert_eq!(r, Err(ContractError::MissingLock {}));
}

#[test]
fn execute_goes_to_the_same_functions() {
    let mut store = factory();
    execute(&mut store, &env(), &sender("alice"), ExecuteMsg::CreateOutpost { channel_open_init_options: options() })
        .unwrap();
    execute(&mut store, &env(), &sender("inst1"), ExecuteMsg::MapUserOutpost { outpost_owner: "alice".to_string() })
        .unwrap();
    assert_eq!(store.binding("alice"), Some("inst1".to_string()));
    let r = execute(
        &mut store,
        &env(),
        &sender("anyone"),
        ExecuteMsg::MigrateOutpost { outpost_owner: "alice".to_string(), new_outpost_code_id: "9".to_string() },
    )
    .unwrap();
    assert_eq!(r.messages.len(), 1);
    assert_eq!(state(&store).unwrap().storage_outpost_code_id, 9);
}

#[test]
fn migration_asks_for_the_bound_outpost_to_be_migrated() {
    let mut store = factory();
    create_outpost(&mut store, &env(), &sender("alice"), options()).unwrap();
    map_user_outpost(&mut store, &env(), &sender("inst1"), "alice".to_string()).unwrap();

    let resp = migrate_outpost(&mut store, &env(), &sender("bob"), "alice".to_string(), "12".to_string()).unwrap();
    assert_eq!(
        resp,
        Response {
            messages: vec![CosmosMsg::Wasm(WasmMsg::Migrate {
                contract_addr: "inst1".to_string(),
                new_code_id: 12,
                msg: Payload::Migrate(MigrateMsg {}),
            })],
            attributes: vec![],
            events: vec![Event { ty: "Migration: success".to_string(), attributes: vec![] }],
        }
    );
    assert_eq!(
        state(&store),
        Ok(ContractState { storage_outpost_code_id: 12, admin: "admin".to_string() })
    );
    assert_eq!(store.binding("alice"), Some("inst1".to_string()));
    assert_eq!(store.lock_state("alice"), LockState::Unlocked);
}

#[test]
fn migration_of_an_unbound_requester_or_to_no_number_is_refused() {
    let mut store = factory();
    let r = migrate_outpost(&mut store, &env(), &sender("bob"), "alice".to_string(), "12".to_string());
    assert_eq!(r, Err(ContractError::Std(StdError::NotFound { kind: "String".to_string() })));

    create_outpost(&mut store, &env(), &sender("alice"), options()).unwrap();
    map_user_outpost(&mut store, &env(), &sender("inst1"), "alice".to_string()).unwrap();
    for text in ["", "twelve", "-1", "18446744073709551616"] {
        let r = migrate_outpost(&mut store, &env(), &sender("bob"), "alice".to_string(), text.to_string());
        assert_eq!(
            r,
            Err(ContractError::Std(StdError::GenericErr {
                msg: "Could not cast new outpost code to u64".to_string()
            }))
        );
        assert_eq!(state(&store).unwrap().storage_outpost_code_id, 7);
    }
}

#[test]
fn bindings_are_listed_in_ascending_order_of_the_requesters() {
    let mut store = factory();
    for (user, outpost) in [("carol", "o3"), ("alice", "o1"), ("bob", "o2"), ("al", "o0"), ("Zed", "o9")] {
        create_outpost(&mut store, &env(), &sender(user), options()).unwrap();
        map_user_outpost(&mut store, &env(), &sender(outpost), user.to_string()).unwrap();
    }
    let all = get_all_user_outpost_addresses(&store).unwrap();
    let expected: Vec<(String, String)> = [("Zed", "o9"), ("al", "o0"), ("alice", "o1"), ("bob", "o2"), ("carol", "o3")]
        .iter()
        .map(|(u, o)| (u.to_string(), o.to_string()))
        .collect();
    assert_eq!(all, expected);
}

#[test]
fn queries_answer_from_the_store() {
    let mut store = factory();
    create_outpost(&mut store, &env(), &sender("alice"), options()).unwrap();
    map_user_outpost(&mut store, &env(), &sender("inst1"), "alice".to_string()).unwrap();

    assert_eq!(
        query(&store, &env(), QueryMsg::GetContractState {}),
        Ok(QueryResponse::ContractState(ContractState { storage_outpost_code_id: 7, admin: "admin".to_string() }))
    );
    assert_eq!(
        query(&store, &env(), QueryMsg::GetUserOutpostAddress { user_address: "alice".to_string() }),
        Ok(QueryResponse::UserOutpostAddress("inst1".to_string()))
    );
    assert_eq!(
        query(&store, &env(), QueryMsg::GetUserOutpostAddress { user_address: "bob".to_string() }),
        Err(StdError::NotFound { kind: "String".to_string() })
    );
    assert_eq!(
        query(&store, &env(), QueryMsg::GetAllUserOutpostAddresses {}),
        Ok(QueryResponse::AllUserOutpostAddresses(vec![("alice".to_string(), "inst1".to_string())]))
    );
    assert_eq!(user_outpost_address(&store, "alice".to_string()), Ok("inst1".to_string()));
}

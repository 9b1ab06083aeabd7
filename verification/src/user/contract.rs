//! The entry points of the contract that uses an outpost.

use vstd::prelude::*;
use crate::host::{CosmosMsg, Env, MessageInfo, Payload, Response, StdError, WasmMsg};
use crate::outpost_helpers::StorageOutpostContract;
use crate::types::msg::ExecuteMsg as OutpostExecuteMsg;
use crate::user::error::ContractError;
use crate::user::msg::{ExecuteMsg, InstantiateMsg, QueryMsg, QueryResponse};
use crate::user::state::{ContractState, Store};

verus! {

/// The result is the error that a record of this kind was not found.
pub open spec fn is_not_found<T>(r: Result<T, ContractError>, kind: Seq<char>) -> bool {
    r matches Err(ContractError::Std(StdError::NotFound { kind: k })) && k@ == kind
}

/// Sets the contract up: it remembers the outpost's address. The notes
/// stay.
pub fn instantiate(store: &mut Store, env: &Env, info: &MessageInfo, msg: InstantiateMsg) -> (r:
    Result<Response, ContractError>)
    ensures
        r matches Ok(resp) && resp.is_empty(),
        final(store).state == Some(
            ContractState { storage_outpost_address: msg.storage_outpost_address },
        ),
        final(store).file_note == old(store).file_note,
{
    store.state = Some(ContractState::new(msg.storage_outpost_address));
    Ok(Response::new())
}

/// The call of the outpost that a message of this contract stands for, if it
/// stands for one.
pub open spec fn outpost_call(msg: ExecuteMsg) -> Option<OutpostExecuteMsg> {
    match msg {
        ExecuteMsg::CallOutpost { msg } => Some(msg),
        ExecuteMsg::SendCosmosMsgs { messages, packet_memo, timeout_seconds } => Some(
            OutpostExecuteMsg::SendCosmosMsgs { messages, packet_memo, timeout_seconds },
        ),
        _ => None,
    }
}

/// Carries out one call: each kind of message goes to the function that
/// handles it, and the result is that function's. A batch of operations is
/// passed on to the outpost as a call of it.
pub fn execute(store: &mut Store, env: &Env, info: &MessageInfo, msg: ExecuteMsg) -> (r: Result<
    Response,
    ContractError,
>)
    ensures
        match msg {
            ExecuteMsg::SaveNote { note } => is_save_note_result(
                *old(store),
                *final(store),
                *info,
                note,
                r,
            ),
            ExecuteMsg::SaveOutpost { address } => is_save_outpost_result(
                *old(store),
                *final(store),
                address,
                r,
            ),
            _ => {
                &&& *final(store) == *old(store)
                &&& is_call_outpost_result(*old(store), outpost_call(msg)->Some_0, r)
            },
        },
{
    match msg {
        ExecuteMsg::SaveNote { note } => save_note(store, env, info, note),
        ExecuteMsg::CallOutpost { msg } => call_outpost(store, env, info, msg),
        ExecuteMsg::SaveOutpost { address } => save_outpost(store, env, info, address),
        ExecuteMsg::SendCosmosMsgs { messages, packet_memo, timeout_seconds } => call_outpost(
            store,
            env,
            info,
            OutpostExecuteMsg::SendCosmosMsgs { messages, packet_memo, timeout_seconds },
        ),
    }
}

/// Answers a query. Nothing is changed; a record that was never written is
/// reported as not found.
pub fn query(store: &Store, env: &Env, msg: QueryMsg) -> (r: Result<QueryResponse, StdError>)
    ensures
        match msg {
            QueryMsg::GetContractState {  } => match store.state {
                Some(s) => r matches Ok(QueryResponse::ContractState(t))
                    && t.storage_outpost_address == s.storage_outpost_address,
                None => r matches Err(StdError::NotFound { kind }) && kind@ == "ContractState"@,
            },
            QueryMsg::GetNote { address } => if store.file_note.map().contains_key(address@) {
                r matches Ok(QueryResponse::Note(n)) && n@ == store.file_note.map()[address@]
            } else {
                r matches Err(StdError::NotFound { kind }) && kind@ == "String"@
            },
        },
{
    match msg {
        QueryMsg::GetContractState {  } => match state(store) {
            Ok(s) => Ok(QueryResponse::ContractState(s)),
            Err(e) => Err(e),
        },
        QueryMsg::GetNote { address } => match query_note_by_address(store, address) {
            Ok(n) => Ok(QueryResponse::Note(n)),
            Err(e) => Err(e),
        },
    }
}

/// What `save_note` promises.
pub open spec fn is_save_note_result(
    before: Store,
    after: Store,
    info: MessageInfo,
    note: String,
    r: Result<Response, ContractError>,
) -> bool {
    &&& after.state == before.state
    &&& after.file_note.map() == before.file_note.map().insert(info.sender@, note@)
    &&& r matches Ok(resp)
    &&& resp.messages@.len() == 0
    &&& resp.events@.len() == 0
    &&& resp.attributes@.len() == 3
    &&& resp.attributes@[0].is("action"@, "save_note"@)
    &&& resp.attributes@[1].is("note"@, note@)
    &&& resp.attributes@[2].is("sender"@, info.sender@)
}

/// Keeps a note under the caller's address, in place of the one before.
pub fn save_note(store: &mut Store, env: &Env, info: &MessageInfo, note: String) -> (r: Result<
    Response,
    ContractError,
>)
    ensures
        is_save_note_result(*old(store), *final(store), *info, note, r),
{
    store.file_note.insert(info.sender.clone(), note.clone());
    let response = Response::new().add_attribute(
        "action",
        String::from_str("save_note"),
    ).add_attribute("note", note).add_attribute("sender", info.sender.clone());
    Ok(response)
}

/// What `call_outpost` promises.
pub open spec fn is_call_outpost_result(
    store: Store,
    outpost_msg: OutpostExecuteMsg,
    r: Result<Response, ContractError>,
) -> bool {
    match store.state {
        None => is_not_found(r, "ContractState"@),
        Some(s) => {
            &&& r matches Ok(resp)
            &&& resp.events@.len() == 0
            &&& resp.attributes@.len() == 0
            &&& resp.messages@.len() == 1
            &&& resp.messages@[0] matches CosmosMsg::Wasm(
                WasmMsg::Execute { contract_addr, msg, funds },
            )
            &&& contract_addr == s.storage_outpost_address
            &&& msg == Payload::Execute(outpost_msg)
            &&& funds@.len() == 0
        },
    }
}

/// Passes a call on to the outpost, without funds. Anyone may call this.
pub fn call_outpost(
    store: &Store,
    env: &Env,
    info: &MessageInfo,
    outpost_msg: OutpostExecuteMsg,
) -> (r: Result<Response, ContractError>)
    ensures
        is_call_outpost_result(*store, outpost_msg, r),
{
    let storage_outpost_address = match &store.state {
        Some(s) => s.storage_outpost_address.clone(),
        None => {
            return Err(
                ContractError::Std(StdError::NotFound { kind: String::from_str("ContractState") }),
            );
        },
    };
    let outpost_contract = StorageOutpostContract::new(storage_outpost_address);
    let outpost_msg = match outpost_contract.call(outpost_msg) {
        Ok(m) => m,
        Err(e) => {
            proof {
                assert(false);
            }
            return Err(ContractError::Std(e));
        },
    };
    Ok(Response::new().add_message(outpost_msg))
}

/// What `save_outpost` promises.
pub open spec fn is_save_outpost_result(
    before: Store,
    after: Store,
    address: String,
    r: Result<Response, ContractError>,
) -> bool {
    match before.state {
        None => after == before && is_not_found(r, "ContractState"@),
        Some(_) => {
            &&& after.state == Some(ContractState { storage_outpost_address: address })
            &&& after.file_note == before.file_note
            &&& r matches Ok(resp)
            &&& resp.messages@.len() == 0
            &&& resp.events@.len() == 0
            &&& resp.attributes@.len() == 2
            &&& resp.attributes@[0].is("action"@, "update_outpost_address"@)
            &&& resp.attributes@[1].is("new_outpost_address"@, address@)
        },
    }
}

/// Sets the address of the outpost. Anyone may call this.
pub fn save_outpost(store: &mut Store, env: &Env, info: &MessageInfo, address: String) -> (r:
    Result<Response, ContractError>)
    ensures
        is_save_outpost_result(*old(store), *final(store), address, r),
{
    if store.state.is_none() {
        return Err(
            ContractError::Std(StdError::NotFound { kind: String::from_str("ContractState") }),
        );
    }
    store.state = Some(ContractState { storage_outpost_address: address.clone() });
    Ok(
        Response::new().add_attribute(
            "action",
            String::from_str("update_outpost_address"),
        ).add_attribute("new_outpost_address", address),
    )
}

/// The contract's own state.
pub fn state(store: &Store) -> (r: Result<ContractState, StdError>)
    ensures
        match store.state {
            Some(s) => r matches Ok(t) && t.storage_outpost_address == s.storage_outpost_address,
            None => r matches Err(StdError::NotFound { kind }) && kind@ == "ContractState"@,
        },
{
    match &store.state {
        Some(s) => Ok(ContractState { storage_outpost_address: s.storage_outpost_address.clone() }),
        None => Err(StdError::NotFound { kind: String::from_str("ContractState") }),
    }
}

/// The note that is kept under an address.
pub fn query_note_by_address(store: &Store, address: String) -> (r: Result<String, StdError>)
    ensures
        if store.file_note.map().contains_key(address@) {
            r matches Ok(n) && n@ == store.file_note.map()[address@]
        } else {
            r matches Err(StdError::NotFound { kind }) && kind@ == "String"@
        },
{
    match store.file_note.get(address.as_str()) {
        Some(n) => Ok(n.clone()),
        None => Err(StdError::NotFound { kind: String::from_str("String") }),
    }
}

} // verus!

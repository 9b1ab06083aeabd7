//! The entry points of the contract that owns outposts.

use vstd::prelude::*;
use crate::decimal::{decimal_text, to_decimal_string};
use crate::host::{
    AddrCheck,
    CosmosMsg,
    Env,
    Event,
    MessageInfo,
    Payload,
    Response,
    StdError,
    WasmMsg,
};
use crate::outpost_helpers::StorageOutpostCode;
use crate::owner::error::ContractError;
use crate::owner::msg::{ExecuteMsg, InstantiateMsg, QueryMsg, QueryResponse};
use crate::owner::state::{ContractState, IcaContractState, Store};
use crate::types::callback::Callback;
use crate::types::msg::options::ChannelOpenInitOptions;

verus! {

broadcast use vstd::std_specs::hash::group_hash_axioms;

/// What is added to the count of callbacks when an outpost is asked for.
pub const CALLBACK_COUNT_STEP: u64 = 97;

/// Sets the contract up: the admin is the one that the message names, if
/// the host accepts the address, or else the sender.
pub fn instantiate(
    store: &mut Store,
    env: &Env,
    info: &MessageInfo,
    msg: InstantiateMsg,
    admin_check: AddrCheck,
) -> (r: Result<Response, ContractError>)
    ensures
        match (msg.admin, admin_check) {
            (Some(_), AddrCheck::Invalid(why)) => {
                &&& *final(store) == *old(store)
                &&& r matches Err(ContractError::Std(StdError::GenericErr { msg: m }))
                &&& m == why
            },
            _ => {
                &&& r matches Ok(resp) && resp.is_empty()
                &&& final(store).state == Some(
                    ContractState {
                        admin: match msg.admin {
                            Some(a) => a,
                            None => info.sender,
                        },
                        storage_outpost_code_id: msg.storage_outpost_code_id,
                    },
                )
                &&& final(store).ica_states == old(store).ica_states
                &&& final(store).contract_addr_to_ica_id == old(store).contract_addr_to_ica_id
                &&& final(store).ica_count == old(store).ica_count
                &&& final(store).callback_count == old(store).callback_count
                &&& final(store).user_addr_to_outpost_addr == old(store).user_addr_to_outpost_addr
            },
        },
{
    let admin = match msg.admin {
        Some(admin) => {
            match admin_check {
                AddrCheck::Invalid(why) => {
                    return Err(ContractError::Std(StdError::GenericErr { msg: why }));
                },
                AddrCheck::Valid => {},
            }
            admin
        },
        None => info.sender.clone(),
    };
    store.state = Some(ContractState::new(admin, msg.storage_outpost_code_id));
    Ok(Response::new())
}

/// Carries out one call: each kind of message goes to the function that
/// handles it, and the result is that function's.
pub fn execute(store: &mut Store, env: &Env, info: &MessageInfo, msg: ExecuteMsg) -> (r: Result<
    Response,
    ContractError,
>)
    requires
        msg is CreateIcaContract ==> counts_fit(*old(store)),
        msg is UpdateCallbackCount ==> Store::count(old(store).callback_count) < u64::MAX,
    ensures
        match msg {
            ExecuteMsg::CreateIcaContract {
                salt,
                channel_open_init_options,
            } => is_create_ica_contract_result(
                *old(store),
                *final(store),
                *env,
                *info,
                channel_open_init_options,
                r,
            ),
            ExecuteMsg::UpdateCallbackCount {  } => is_update_callback_count_result(
                *old(store),
                *final(store),
                *info,
                r,
            ),
            ExecuteMsg::MapUserOutpost {
                outpost_owner,
                outpost_address,
            } => is_map_user_outpost_result(
                *old(store),
                *final(store),
                info.sender@,
                outpost_owner@,
                outpost_address@,
                r,
            ),
        },
{
    match msg {
        ExecuteMsg::CreateIcaContract { salt, channel_open_init_options } => create_ica_contract(
            store,
            env,
            info,
            salt,
            channel_open_init_options,
        ),
        ExecuteMsg::UpdateCallbackCount {  } => update_callback_count(store, env, info),
        ExecuteMsg::MapUserOutpost { outpost_owner, outpost_address } => map_user_outpost(
            store,
            env,
            info,
            outpost_owner,
            outpost_address,
        ),
    }
}

/// Answers a query. Nothing is changed; a record that was never written is
/// reported as not found.
pub fn query(store: &Store, env: &Env, msg: QueryMsg) -> (r: Result<QueryResponse, StdError>)
    ensures
        match msg {
            QueryMsg::GetContractState {  } => match store.state {
                Some(s) => r == Ok::<QueryResponse, StdError>(QueryResponse::ContractState(s)),
                None => is_not_found(r, "ContractState"@),
            },
            QueryMsg::GetIcaContractState { ica_id } => if store.ica_states@.contains_key(
                ica_id,
            ) {
                r == Ok::<QueryResponse, StdError>(
                    QueryResponse::IcaContractState(store.ica_states@[ica_id]),
                )
            } else {
                is_not_found(r, "IcaContractState"@)
            },
            QueryMsg::GetIcaCount {  } => match store.ica_count {
                Some(n) => r == Ok::<QueryResponse, StdError>(QueryResponse::IcaCount(n)),
                None => is_not_found(r, "u64"@),
            },
            QueryMsg::GetCallbackCount {  } => match store.callback_count {
                Some(n) => r == Ok::<QueryResponse, StdError>(QueryResponse::CallbackCount(n)),
                None => is_not_found(r, "u64"@),
            },
            QueryMsg::GetUserOutpostAddress {
                user_address,
            } => if store.user_addr_to_outpost_addr.map().contains_key(user_address@) {
                r matches Ok(QueryResponse::UserOutpostAddress(a)) && a@
                    == store.user_addr_to_outpost_addr.map()[user_address@]
            } else {
                is_not_found(r, "String"@)
            },
        },
{
    match msg {
        QueryMsg::GetContractState {  } => match state(store) {
            Ok(s) => Ok(QueryResponse::ContractState(s)),
            Err(e) => Err(e),
        },
        QueryMsg::GetIcaContractState { ica_id } => match ica_state(store, ica_id) {
            Ok(s) => Ok(QueryResponse::IcaContractState(s)),
            Err(e) => Err(e),
        },
        QueryMsg::GetIcaCount {  } => match ica_count(store) {
            Ok(n) => Ok(QueryResponse::IcaCount(n)),
            Err(e) => Err(e),
        },
        QueryMsg::GetCallbackCount {  } => match callback_count(store) {
            Ok(n) => Ok(QueryResponse::CallbackCount(n)),
            Err(e) => Err(e),
        },
        QueryMsg::GetUserOutpostAddress { user_address } => match user_outpost_address(
            store,
            user_address,
        ) {
            Ok(a) => Ok(QueryResponse::UserOutpostAddress(a)),
            Err(e) => Err(e),
        },
    }
}

/// The result is the error that a record of this kind was not found.
pub open spec fn is_not_found<T>(r: Result<T, StdError>, kind: Seq<char>) -> bool {
    r matches Err(StdError::NotFound { kind: k }) && k@ == kind
}

/// Both counts can be raised by what asking for an outpost adds to them.
pub open spec fn counts_fit(store: Store) -> bool {
    &&& Store::count(store.ica_count) < u64::MAX
    &&& Store::count(store.callback_count) + CALLBACK_COUNT_STEP <= u64::MAX
}

/// The label of the outpost with the given number that the contract at
/// `contract` asks for.
pub open spec fn outpost_label(contract: Seq<char>, number: u64) -> Seq<char> {
    "storage_outpost-"@ + contract + "-"@ + decimal_text(number as nat)
}

/// The response asks for one outpost to be created: the contract itself is
/// to own it, the caller is its admin, and the outpost is told to call the
/// contract back.
pub open spec fn is_outpost_request(
    resp: Response,
    code_id: u64,
    contract: Seq<char>,
    sender: Seq<char>,
    number: u64,
    options: ChannelOpenInitOptions,
) -> bool {
    &&& resp.messages@.len() == 1
    &&& resp.messages@[0] matches CosmosMsg::Wasm(
        WasmMsg::Instantiate { admin, code_id: id, msg, funds, label },
    )
    &&& admin matches Some(a)
    &&& a@ == sender
    &&& id == code_id
    &&& funds@.len() == 0
    &&& label@ == outpost_label(contract, number)
    &&& msg matches Payload::Instantiate(m)
    &&& m.owner matches Some(o)
    &&& o@ == contract
    &&& m.admin matches Some(ad)
    &&& ad@ == sender
    &&& m.channel_open_init_options == Some(options)
    &&& m.callback matches Some(cb)
    &&& cb.contract@ == contract
    &&& cb.msg is None
    &&& cb.outpost_owner@ == sender
    &&& resp.attributes@.len() == 0
    &&& resp.events@.len() == 1
    &&& resp.events@[0].is_single("cross-contract-logging"@, "creator"@, sender)
}

/// What `create_ica_contract` promises.
pub open spec fn is_create_ica_contract_result(
    before: Store,
    after: Store,
    env: Env,
    info: MessageInfo,
    options: ChannelOpenInitOptions,
    r: Result<Response, ContractError>,
) -> bool {
    match before.state {
        None => {
            &&& after == before
            &&& r matches Err(ContractError::Std(e))
            &&& is_not_found(Err::<(), StdError>(e), "ContractState"@)
        },
        Some(s) => {
            let number = Store::count(before.ica_count);
            &&& r matches Ok(resp)
            &&& is_outpost_request(
                resp,
                s.storage_outpost_code_id,
                env.contract_address@,
                info.sender@,
                number,
                options,
            )
            &&& after.state == before.state
            &&& after.ica_states@ == before.ica_states@.insert(
                number,
                IcaContractState { contract_addr: info.sender },
            )
            &&& after.contract_addr_to_ica_id.map() == before.contract_addr_to_ica_id.map().insert(
                info.sender@,
                number,
            )
            &&& after.ica_count == Some((number + 1) as u64)
            &&& after.callback_count == Some(
                (Store::count(before.callback_count) + CALLBACK_COUNT_STEP) as u64,
            )
            &&& after.user_addr_to_outpost_addr == before.user_addr_to_outpost_addr
        },
    }
}

/// Asks the host to create an outpost for the caller, and counts it. Anyone
/// may call this.
pub fn create_ica_contract(
    store: &mut Store,
    env: &Env,
    info: &MessageInfo,
    salt: Option<String>,
    channel_open_init_options: ChannelOpenInitOptions,
) -> (r: Result<Response, ContractError>)
    requires
        counts_fit(*old(store)),
    ensures
        is_create_ica_contract_result(
            *old(store),
            *final(store),
            *env,
            *info,
            channel_open_init_options,
            r,
        ),
{
    let code_id = match &store.state {
        Some(s) => s.storage_outpost_code_id,
        None => {
            return Err(
                ContractError::Std(StdError::NotFound { kind: String::from_str("ContractState") }),
            );
        },
    };
    let ica_code = StorageOutpostCode::new(code_id);

    let callback = Callback {
        contract: env.contract_address.clone(),
        msg: None,
        outpost_owner: info.sender.clone(),
    };
    let instantiate_msg = crate::types::msg::InstantiateMsg {
        owner: Some(env.contract_address.clone()),
        admin: Some(info.sender.clone()),
        channel_open_init_options: Some(channel_open_init_options),
        callback: Some(callback),
    };

    let ica_count = match store.ica_count {
        Some(n) => n,
        None => 0,
    };
    let callback_count = match store.callback_count {
        Some(n) => n,
        None => 0,
    };

    let label = String::from_str("storage_outpost-").concat(
        env.contract_address.as_str(),
    ).concat("-").concat(to_decimal_string(ica_count as u128).as_str());

    let cosmos_msg = match ica_code.instantiate(instantiate_msg, label, Some(info.sender.clone())) {
        Ok(m) => m,
        Err(e) => {
            proof {
                assert(false);
            }
            return Err(ContractError::Std(e));
        },
    };

    let initial_state = IcaContractState::new(info.sender.clone());
    store.ica_states.insert(ica_count, initial_state);
    store.contract_addr_to_ica_id.insert(info.sender.clone(), ica_count);
    store.ica_count = Some(ica_count + 1);
    store.callback_count = Some(callback_count + CALLBACK_COUNT_STEP);

    let event = Event::new("cross-contract-logging").add_attribute("creator", info.sender.clone());
    Ok(Response::new().add_message(cosmos_msg).add_event(event))
}

/// What `update_callback_count` promises.
pub open spec fn is_update_callback_count_result(
    before: Store,
    after: Store,
    info: MessageInfo,
    r: Result<Response, ContractError>,
) -> bool {
    match before.state {
        None => {
            &&& after == before
            &&& r matches Err(ContractError::Std(e))
            &&& is_not_found(Err::<(), StdError>(e), "ContractState"@)
        },
        Some(_) => {
            &&& r matches Ok(resp)
            &&& resp.messages@.len() == 0
            &&& resp.attributes@.len() == 0
            &&& resp.events@.len() == 1
            &&& resp.events@[0].is_single("cross-contract-logging"@, "creator"@, info.sender@)
            &&& after.callback_count == Some((Store::count(before.callback_count) + 1) as u64)
            &&& after.state == before.state
            &&& after.ica_states == before.ica_states
            &&& after.contract_addr_to_ica_id == before.contract_addr_to_ica_id
            &&& after.ica_count == before.ica_count
            &&& after.user_addr_to_outpost_addr == before.user_addr_to_outpost_addr
        },
    }
}

/// Counts one callback. Anyone may call this.
pub fn update_callback_count(store: &mut Store, env: &Env, info: &MessageInfo) -> (r: Result<
    Response,
    ContractError,
>)
    requires
        Store::count(old(store).callback_count) < u64::MAX,
    ensures
        is_update_callback_count_result(*old(store), *final(store), *info, r),
{
    if store.state.is_none() {
        return Err(
            ContractError::Std(StdError::NotFound { kind: String::from_str("ContractState") }),
        );
    }
    let callback_count = match store.callback_count {
        Some(n) => n,
        None => 0,
    };
    store.callback_count = Some(callback_count + 1);
    let event = Event::new("cross-contract-logging").add_attribute("creator", info.sender.clone());
    Ok(Response::new().add_event(event))
}

/// Who may bind `outpost_owner` to `outpost_address`, if anyone is refused:
/// the caller must be the requester or the outpost, and if the requester is
/// bound already, the caller must be the outpost it is bound to. Gives the
/// one that was expected where the caller is refused.
pub open spec fn refused_for(
    bindings: Map<Seq<char>, Seq<char>>,
    sender: Seq<char>,
    outpost_owner: Seq<char>,
    outpost_address: Seq<char>,
) -> Option<Seq<char>> {
    if sender != outpost_owner && sender != outpost_address {
        Some(outpost_address)
    } else if bindings.contains_key(outpost_owner) && sender != bindings[outpost_owner] {
        Some(bindings[outpost_owner])
    } else {
        None
    }
}

/// What `map_user_outpost` promises.
pub open spec fn is_map_user_outpost_result(
    before: Store,
    after: Store,
    sender: Seq<char>,
    outpost_owner: Seq<char>,
    outpost_address: Seq<char>,
    r: Result<Response, ContractError>,
) -> bool {
    if before.state is None {
        &&& after == before
        &&& r matches Err(ContractError::Std(e))
        &&& is_not_found(Err::<(), StdError>(e), "ContractState"@)
    } else {
        match refused_for(
            before.user_addr_to_outpost_addr.map(),
            sender,
            outpost_owner,
            outpost_address,
        ) {
            Some(who) => {
                &&& after == before
                &&& r matches Err(ContractError::Unauthorized { expected, actual })
                &&& expected@ == who
                &&& actual@ == sender
            },
            None => {
                &&& r matches Ok(resp)
                &&& resp.messages@.len() == 0
                &&& resp.attributes@.len() == 0
                &&& resp.events@.len() == 1
                &&& resp.events@[0].ty@ == "user to outpost map"@
                &&& resp.events@[0].attributes@.len() == 3
                &&& resp.events@[0].attributes@[0].is("sender_of_callback_msg"@, sender)
                &&& resp.events@[0].attributes@[1].is("outpost_owner"@, outpost_owner)
                &&& resp.events@[0].attributes@[2].is("outpost_address"@, outpost_address)
                &&& after.user_addr_to_outpost_addr.map()
                    == before.user_addr_to_outpost_addr.map().insert(
                    outpost_owner,
                    outpost_address,
                )
                &&& after.state == before.state
                &&& after.ica_states == before.ica_states
                &&& after.contract_addr_to_ica_id == before.contract_addr_to_ica_id
                &&& after.ica_count == before.ica_count
                &&& after.callback_count == before.callback_count
            },
        }
    }
}

/// Binds a requester to an outpost, without a lock. The caller must be the
/// requester or the outpost; once the requester is bound, only the outpost it
/// is bound to may write the binding again. The address that is written is
/// the one out of the message.
pub fn map_user_outpost(
    store: &mut Store,
    env: &Env,
    info: &MessageInfo,
    outpost_owner: String,
    outpost_address: String,
) -> (r: Result<Response, ContractError>)
    ensures
        is_map_user_outpost_result(
            *old(store),
            *final(store),
            info.sender@,
            outpost_owner@,
            outpost_address@,
            r,
        ),
{
    if store.state.is_none() {
        return Err(
            ContractError::Std(StdError::NotFound { kind: String::from_str("ContractState") }),
        );
    }
    if info.sender != outpost_owner && info.sender != outpost_address {
        return Err(
            ContractError::Unauthorized { expected: outpost_address, actual: info.sender.clone() },
        );
    }
    match store.user_addr_to_outpost_addr.get(outpost_owner.as_str()) {
        Some(mapped_outpost_address) => {
            if info.sender != *mapped_outpost_address {
                return Err(
                    ContractError::Unauthorized {
                        expected: mapped_outpost_address.clone(),
                        actual: info.sender.clone(),
                    },
                );
            }
        },
        None => {},
    }
    let event = Event::new("user to outpost map").add_attribute(
        "sender_of_callback_msg",
        info.sender.clone(),
    ).add_attribute("outpost_owner", outpost_owner.clone()).add_attribute(
        "outpost_address",
        outpost_address.clone(),
    );
    store.user_addr_to_outpost_addr.insert(outpost_owner, outpost_address);
    Ok(Response::new().add_event(event))
}

/// The contract's own state.
pub fn state(store: &Store) -> (r: Result<ContractState, StdError>)
    ensures
        match store.state {
            Some(s) => r == Ok::<ContractState, StdError>(s),
            None => is_not_found(r, "ContractState"@),
        },
{
    match &store.state {
        Some(s) => Ok(s.duplicate()),
        None => Err(StdError::NotFound { kind: String::from_str("ContractState") }),
    }
}

/// What is kept of the outpost with the given number.
pub fn ica_state(store: &Store, ica_id: u64) -> (r: Result<IcaContractState, StdError>)
    ensures
        if store.ica_states@.contains_key(ica_id) {
            r == Ok::<IcaContractState, StdError>(store.ica_states@[ica_id])
        } else {
            is_not_found(r, "IcaContractState"@)
        },
{
    match store.ica_states.get(&ica_id) {
        Some(s) => Ok(s.duplicate()),
        None => Err(StdError::NotFound { kind: String::from_str("IcaContractState") }),
    }
}

/// How many outposts were asked for.
pub fn ica_count(store: &Store) -> (r: Result<u64, StdError>)
    ensures
        match store.ica_count {
            Some(n) => r == Ok::<u64, StdError>(n),
            None => is_not_found(r, "u64"@),
        },
{
    match store.ica_count {
        Some(n) => Ok(n),
        None => Err(StdError::NotFound { kind: String::from_str("u64") }),
    }
}

/// The count of callbacks.
pub fn callback_count(store: &Store) -> (r: Result<u64, StdError>)
    ensures
        match store.callback_count {
            Some(n) => r == Ok::<u64, StdError>(n),
            None => is_not_found(r, "u64"@),
        },
{
    match store.callback_count {
        Some(n) => Ok(n),
        None => Err(StdError::NotFound { kind: String::from_str("u64") }),
    }
}

/// The address of the outpost that is bound to a requester.
pub fn user_outpost_address(store: &Store, user_address: String) -> (r: Result<String, StdError>)
    ensures
        if store.user_addr_to_outpost_addr.map().contains_key(user_address@) {
            r matches Ok(a) && a@ == store.user_addr_to_outpost_addr.map()[user_address@]
        } else {
            is_not_found(r, "String"@)
        },
{
    match store.user_addr_to_outpost_addr.get(user_address.as_str()) {
        Some(a) => Ok(a.clone()),
        None => Err(StdError::NotFound { kind: String::from_str("String") }),
    }
}

} // verus!

//! The factory's entry points.

use vstd::prelude::*;
use crate::decimal::parse_u64;
use crate::factory::error::ContractError;
use crate::factory::msg::{ExecuteMsg, InstantiateMsg, QueryMsg, QueryResponse};
use crate::factory::protocol;
use crate::factory::protocol::{Call, Outcome};
use crate::factory::state::{ContractState, Store};
use crate::host::{CosmosMsg, Env, Event, MessageInfo, Payload, Response, StdError, WasmMsg};
use crate::outpost_helpers::{StorageOutpostCode, StorageOutpostContract};
use crate::table::ascending;
use crate::types::callback::Callback;
use crate::types::msg::options::ChannelOpenInitOptions;
use crate::types::msg::MigrateMsg;

verus! {

/// The error is that a record of this kind was not found.
pub open spec fn is_not_found(e: ContractError, kind: Seq<char>) -> bool {
    e matches ContractError::Std(StdError::NotFound { kind: k }) && k@ == kind
}

/// The response asks for one outpost to be created for `sender` by the
/// factory at `factory`: `sender` is to own it, the factory is its admin, and
/// the outpost is told to call the factory back in the name of `sender`.
pub open spec fn is_provisioning(
    resp: Response,
    code_id: u64,
    factory: Seq<char>,
    sender: Seq<char>,
    options: ChannelOpenInitOptions,
) -> bool {
    &&& resp.messages@.len() == 1
    &&& resp.messages@[0] matches CosmosMsg::Wasm(
        WasmMsg::Instantiate { admin, code_id: id, msg, funds, label },
    )
    &&& admin matches Some(a)
    &&& a@ == factory
    &&& id == code_id
    &&& funds@.len() == 0
    &&& label@ == "storage_outpost-owned by: "@ + sender
    &&& msg matches Payload::Instantiate(m)
    &&& m.owner matches Some(o)
    &&& o@ == sender
    &&& m.admin matches Some(ad)
    &&& ad@ == factory
    &&& m.channel_open_init_options == Some(options)
    &&& m.callback matches Some(cb)
    &&& cb.contract@ == factory
    &&& cb.msg is None
    &&& cb.outpost_owner@ == sender
    &&& resp.attributes@.len() == 0
    &&& resp.events@.len() == 1
    &&& resp.events@[0].is_single("FACTORY: create_ica_contract"@, "info.sender"@, sender)
}

/// The response asks for nothing and logs one event, which names the caller.
pub open spec fn is_confirmation(resp: Response, sender: Seq<char>) -> bool {
    &&& resp.messages@.len() == 0
    &&& resp.attributes@.len() == 0
    &&& resp.events@.len() == 1
    &&& resp.events@[0].is_single("FACTORY:map_user_outpost"@, "info.sender"@, sender)
}

/// The response asks for the outpost at `outpost` to be migrated to the code
/// `code_id`, and logs one event.
pub open spec fn is_migration(resp: Response, outpost: Seq<char>, code_id: u64) -> bool {
    &&& resp.messages@.len() == 1
    &&& resp.messages@[0] matches CosmosMsg::Wasm(
        WasmMsg::Migrate { contract_addr, new_code_id, msg },
    )
    &&& contract_addr@ == outpost
    &&& new_code_id == code_id
    &&& msg == Payload::Migrate(MigrateMsg {  })
    &&& resp.attributes@.len() == 0
    &&& resp.events@.len() == 1
    &&& resp.events@[0].ty@ == "Migration: success"@
    &&& resp.events@[0].attributes@.len() == 0
}

/// Sets the factory up: it remembers the code from which outposts are
/// created, and the caller as its admin. Locks and bindings stay.
pub fn instantiate(store: &mut Store, env: &Env, info: &MessageInfo, msg: InstantiateMsg) -> (r:
    Result<Response, ContractError>)
    ensures
        r matches Ok(resp) && resp.is_empty(),
        final(store)@ == protocol::step(
            old(store)@,
            Call::Instantiate {
                state: ContractState {
                    storage_outpost_code_id: msg.storage_outpost_code_id,
                    admin: info.sender,
                },
            },
        ),
{
    store.state = Some(ContractState::new(msg.storage_outpost_code_id, info.sender.clone()));
    proof {
        assert(store@ =~= protocol::step(
            old(store)@,
            Call::Instantiate {
                state: ContractState {
                    storage_outpost_code_id: msg.storage_outpost_code_id,
                    admin: info.sender,
                },
            },
        ));
    }
    Ok(Response::new())
}

/// Carries out one call. What it does to the store is what the protocol says
/// of the call; if it fails the store stays as it was.
pub fn execute(store: &mut Store, env: &Env, info: &MessageInfo, msg: ExecuteMsg) -> (r: Result<
    Response,
    ContractError,
>)
    ensures
        final(store)@ == protocol::step(old(store)@, call_of(info.sender@, msg)),
        r is Ok <==> protocol::outcome(old(store)@, call_of(info.sender@, msg)) is Done,
        match msg {
            ExecuteMsg::CreateOutpost { channel_open_init_options } => create_outpost_ensures(
                *old(store),
                *final(store),
                env.contract_address@,
                info.sender@,
                channel_open_init_options,
                r,
            ),
            ExecuteMsg::MapUserOutpost { outpost_owner } => map_user_outpost_ensures(
                *old(store),
                *final(store),
                info.sender@,
                outpost_owner@,
                r,
            ),
            ExecuteMsg::MigrateOutpost {
                outpost_owner,
                new_outpost_code_id,
            } => migrate_outpost_ensures(
                *old(store),
                *final(store),
                outpost_owner@,
                new_outpost_code_id@,
                r,
            ),
        },
{
    match msg {
        ExecuteMsg::CreateOutpost { channel_open_init_options } => create_outpost(
            store,
            env,
            info,
            channel_open_init_options,
        ),
        ExecuteMsg::MapUserOutpost { outpost_owner } => map_user_outpost(
            store,
            env,
            info,
            outpost_owner,
        ),
        ExecuteMsg::MigrateOutpost { outpost_owner, new_outpost_code_id } => migrate_outpost(
            store,
            env,
            info,
            outpost_owner,
            new_outpost_code_id,
        ),
    }
}

/// The call that a message stands for when `sender` sends it.
pub open spec fn call_of(sender: Seq<char>, msg: ExecuteMsg) -> Call {
    match msg {
        ExecuteMsg::CreateOutpost { .. } => Call::CreateOutpost { sender },
        ExecuteMsg::MapUserOutpost { outpost_owner } => Call::MapUserOutpost {
            outpost_owner: outpost_owner@,
            sender,
        },
        ExecuteMsg::MigrateOutpost { outpost_owner, new_outpost_code_id } => Call::MigrateOutpost {
            outpost_owner: outpost_owner@,
            new_outpost_code_id: new_outpost_code_id@,
        },
    }
}

/// Answers a query. Nothing is changed and nobody is refused.
pub fn query(store: &Store, env: &Env, msg: QueryMsg) -> (r: Result<QueryResponse, StdError>)
    ensures
        match msg {
            QueryMsg::GetContractState {  } => match store.state {
                Some(s) => r == Ok::<QueryResponse, StdError>(QueryResponse::ContractState(s)),
                None => r matches Err(StdError::NotFound { kind }) && kind@ == "ContractState"@,
            },
            QueryMsg::GetUserOutpostAddress { user_address } => match store@.binding(
                user_address@,
            ) {
                Some(a) => r matches Ok(QueryResponse::UserOutpostAddress(b)) && b@ == a,
                None => r matches Err(StdError::NotFound { kind }) && kind@ == "String"@,
            },
            QueryMsg::GetAllUserOutpostAddresses {  } => r matches Ok(
                QueryResponse::AllUserOutpostAddresses(all),
            ) && is_listing(all@, store.user_addr_to_outpost_addr.listing()),
        },
{
    match msg {
        QueryMsg::GetContractState {  } => match state(store) {
            Ok(s) => Ok(QueryResponse::ContractState(s)),
            Err(e) => Err(e),
        },
        QueryMsg::GetUserOutpostAddress { user_address } => match user_outpost_address(
            store,
            user_address,
        ) {
            Ok(a) => Ok(QueryResponse::UserOutpostAddress(a)),
            Err(e) => Err(e),
        },
        QueryMsg::GetAllUserOutpostAddresses {  } => match get_all_user_outpost_addresses(store) {
            Ok(all) => Ok(QueryResponse::AllUserOutpostAddresses(all)),
            Err(e) => Err(e),
        },
    }
}

/// What `create_outpost` promises, by the outcome that the protocol gives.
pub open spec fn create_outpost_ensures(
    before: Store,
    after: Store,
    factory: Seq<char>,
    sender: Seq<char>,
    options: ChannelOpenInitOptions,
    r: Result<Response, ContractError>,
) -> bool {
    match protocol::create_outpost(before@, sender) {
        Outcome::Done(v) => {
            &&& after@ == v
            &&& r matches Ok(resp)
            &&& is_provisioning(
                resp,
                before.state->Some_0.storage_outpost_code_id,
                factory,
                sender,
                options,
            )
        },
        Outcome::AlreadyCreated(existing) => {
            &&& after == before
            &&& r matches Err(ContractError::AlreadyCreated(a))
            &&& a@ == existing
        },
        _ => {
            &&& after == before
            &&& r matches Err(e)
            &&& is_not_found(e, "ContractState"@)
        },
    }
}

/// A requester asks for an outpost. If the requester is bound to an outpost
/// already, the call fails with that outpost's address and changes nothing.
/// Otherwise the requester's lock is set and the host is asked to create an
/// outpost that will call back in the requester's name.
pub fn create_outpost(
    store: &mut Store,
    env: &Env,
    info: &MessageInfo,
    channel_open_init_options: ChannelOpenInitOptions,
) -> (r: Result<Response, ContractError>)
    ensures
        create_outpost_ensures(
            *old(store),
            *final(store),
            env.contract_address@,
            info.sender@,
            channel_open_init_options,
            r,
        ),
        final(store)@ == protocol::step(old(store)@, Call::CreateOutpost { sender: info.sender@ }),
        r is Ok <==> protocol::create_outpost(old(store)@, info.sender@) is Done,
{
    let code_id = match &store.state {
        Some(s) => s.storage_outpost_code_id,
        None => {
            return Err(
                ContractError::Std(StdError::NotFound { kind: String::from_str("ContractState") }),
            );
        },
    };
    let storage_outpost_code_id = StorageOutpostCode::new(code_id);

    match store.user_addr_to_outpost_addr.get(info.sender.as_str()) {
        Some(value) => {
            return Err(ContractError::AlreadyCreated(value.clone()));
        },
        None => {},
    }

    store.lock.insert(info.sender.clone(), true);

    let callback = Callback {
        contract: env.contract_address.clone(),
        msg: None,
        outpost_owner: info.sender.clone(),
    };
    let instantiate_msg = crate::types::msg::InstantiateMsg {
        owner: Some(info.sender.clone()),
        admin: Some(env.contract_address.clone()),
        channel_open_init_options: Some(channel_open_init_options),
        callback: Some(callback),
    };
    let label = String::from_str("storage_outpost-owned by: ").concat(info.sender.as_str());

    let cosmos_msg = match storage_outpost_code_id.instantiate(
        instantiate_msg,
        label,
        Some(env.contract_address.clone()),
    ) {
        Ok(m) => m,
        Err(e) => {
            proof {
                assert(false);
            }
            return Err(ContractError::Std(e));
        },
    };

    let event = Event::new("FACTORY: create_ica_contract").add_attribute(
        "info.sender",
        info.sender.clone(),
    );
    let resp = Response::new().add_message(cosmos_msg).add_event(event);
    proof {
        assert(store@ =~= protocol::create_outpost(old(store)@, info.sender@)->Done_0);
    }
    Ok(resp)
}

/// What `map_user_outpost` promises, by the outcome that the protocol gives.
pub open spec fn map_user_outpost_ensures(
    before: Store,
    after: Store,
    sender: Seq<char>,
    outpost_owner: Seq<char>,
    r: Result<Response, ContractError>,
) -> bool {
    match protocol::map_user_outpost(before@, outpost_owner, sender) {
        Outcome::Done(v) => {
            &&& after@ == v
            &&& r matches Ok(resp)
            &&& is_confirmation(resp, sender)
        },
        _ => {
            &&& after == before
            &&& r == Err::<Response, ContractError>(ContractError::MissingLock {  })
        },
    }
}

/// An outpost confirms for a requester. The call succeeds if and only if the
/// lock of `outpost_owner` is set. The lock is then used up, and
/// `outpost_owner` is bound to the caller of this call: the address written
/// is the one that the host authenticated, never one out of the message.
///
/// Nothing else is checked. A caller that the factory did not provision, and
/// that confirms first, is bound in the outpost's place.
pub fn map_user_outpost(
    store: &mut Store,
    env: &Env,
    info: &MessageInfo,
    outpost_owner: String,
) -> (r: Result<Response, ContractError>)
    ensures
        map_user_outpost_ensures(*old(store), *final(store), info.sender@, outpost_owner@, r),
        final(store)@ == protocol::step(
            old(store)@,
            Call::MapUserOutpost { outpost_owner: outpost_owner@, sender: info.sender@ },
        ),
        r is Ok <==> protocol::map_user_outpost(old(store)@, outpost_owner@, info.sender@) is Done,
{
    let locked = match store.lock.get(outpost_owner.as_str()) {
        Some(b) => *b,
        None => false,
    };
    if !locked {
        return Err(ContractError::MissingLock {  });
    }
    store.lock.insert(outpost_owner.clone(), false);
    store.user_addr_to_outpost_addr.insert(outpost_owner, info.sender.clone());

    let event = Event::new("FACTORY:map_user_outpost").add_attribute(
        "info.sender",
        info.sender.clone(),
    );
    proof {
        assert(store@ =~= protocol::map_user_outpost(
            old(store)@,
            outpost_owner@,
            info.sender@,
        )->Done_0);
    }
    Ok(Response::new().add_event(event))
}

/// What `migrate_outpost` promises, by the outcome that the protocol gives.
pub open spec fn migrate_outpost_ensures(
    before: Store,
    after: Store,
    outpost_owner: Seq<char>,
    new_outpost_code_id: Seq<char>,
    r: Result<Response, ContractError>,
) -> bool {
    match protocol::migrate_outpost(before@, outpost_owner, new_outpost_code_id) {
        Outcome::Done(v) => {
            &&& after@ == v
            &&& r matches Ok(resp)
            &&& is_migration(
                resp,
                before@.bindings[outpost_owner],
                v.state->Some_0.storage_outpost_code_id,
            )
        },
        Outcome::NoSuchOutpost => {
            &&& after == before
            &&& r matches Err(e)
            &&& is_not_found(e, "String"@)
        },
        Outcome::BadCodeId => {
            &&& after == before
            &&& r matches Err(ContractError::Std(StdError::GenericErr { msg }))
            &&& msg@ == "Could not cast new outpost code to u64"@
        },
        _ => {
            &&& after == before
            &&& r matches Err(e)
            &&& is_not_found(e, "ContractState"@)
        },
    }
}

/// Asks the host to migrate the outpost of `outpost_owner` to new code, and
/// remembers the new code identifier for the outposts to come. Anyone may
/// call this.
pub fn migrate_outpost(
    store: &mut Store,
    env: &Env,
    info: &MessageInfo,
    outpost_owner: String,
    new_outpost_code_id: String,
) -> (r: Result<Response, ContractError>)
    ensures
        migrate_outpost_ensures(
            *old(store),
            *final(store),
            outpost_owner@,
            new_outpost_code_id@,
            r,
        ),
        final(store)@ == protocol::step(
            old(store)@,
            Call::MigrateOutpost {
                outpost_owner: outpost_owner@,
                new_outpost_code_id: new_outpost_code_id@,
            },
        ),
        r is Ok <==> protocol::migrate_outpost(old(store)@, outpost_owner@, new_outpost_code_id@)
            is Done,
{
    let outpost_address = match store.user_addr_to_outpost_addr.get(outpost_owner.as_str()) {
        Some(a) => a.clone(),
        None => {
            return Err(ContractError::Std(StdError::NotFound { kind: String::from_str("String") }));
        },
    };
    let storage_outpost_code = StorageOutpostContract::new(outpost_address);
    let migrate_msg = MigrateMsg {  };

    let new_outpost_code_id_u64 = match parse_u64(new_outpost_code_id.as_str()) {
        Some(id) => id,
        None => {
            return Err(
                ContractError::Std(
                    StdError::GenericErr {
                        msg: String::from_str("Could not cast new outpost code to u64"),
                    },
                ),
            );
        },
    };

    let cosmos_msg = match storage_outpost_code.migrate(migrate_msg, new_outpost_code_id_u64) {
        Ok(m) => m,
        Err(e) => {
            proof {
                assert(false);
            }
            return Err(ContractError::Std(e));
        },
    };
    let event = Event::new("Migration: success");

    let admin = match &store.state {
        Some(s) => s.admin.clone(),
        None => {
            return Err(
                ContractError::Std(StdError::NotFound { kind: String::from_str("ContractState") }),
            );
        },
    };
    store.state = Some(ContractState::new(new_outpost_code_id_u64, admin));
    proof {
        assert(store@ =~= protocol::migrate_outpost(
            old(store)@,
            outpost_owner@,
            new_outpost_code_id@,
        )->Done_0);
    }
    Ok(Response::new().add_message(cosmos_msg).add_event(event))
}

/// The factory's own state.
pub fn state(store: &Store) -> (r: Result<ContractState, StdError>)
    ensures
        match store.state {
            Some(s) => r == Ok::<ContractState, StdError>(s),
            None => r matches Err(StdError::NotFound { kind }) && kind@ == "ContractState"@,
        },
{
    match &store.state {
        Some(s) => Ok(s.duplicate()),
        None => Err(StdError::NotFound { kind: String::from_str("ContractState") }),
    }
}

/// The address of the outpost that is bound to a requester.
pub fn user_outpost_address(store: &Store, user_address: String) -> (r: Result<String, StdError>)
    ensures
        match store@.binding(user_address@) {
            Some(a) => r matches Ok(b) && b@ == a,
            None => r matches Err(StdError::NotFound { kind }) && kind@ == "String"@,
        },
{
    match store.user_addr_to_outpost_addr.get(user_address.as_str()) {
        Some(a) => Ok(a.clone()),
        None => Err(StdError::NotFound { kind: String::from_str("String") }),
    }
}

/// The pairs are those of the listing, in its order.
pub open spec fn is_listing(
    all: Seq<(String, String)>,
    listing: Seq<(Seq<char>, Seq<char>)>,
) -> bool {
    &&& all.len() == listing.len()
    &&& forall|i: int|
        0 <= i < all.len() ==> (#[trigger] all[i]).0@ == listing[i].0 && all[i].1@ == listing[i].1
    &&& ascending(listing)
}

/// Every requester that is bound, with its outpost, in ascending order of
/// the requesters.
pub fn get_all_user_outpost_addresses(store: &Store) -> (r: Result<
    Vec<(String, String)>,
    StdError,
>)
    ensures
        r matches Ok(all) && is_listing(all@, store.user_addr_to_outpost_addr.listing()),
{
    Ok(store.user_addr_to_outpost_addr.pairs())
}

} // verus!

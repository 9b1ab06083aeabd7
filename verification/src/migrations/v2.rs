//! The second version: it takes over the text that the first version
//! stored, and it can be told the address of an outpost.

use vstd::prelude::*;
use crate::host::{Env, MessageInfo, Response, StdError};
use crate::migrations::v1::Empty;
use crate::outpost_helpers::{QueryRequest, StorageOutpostContract};
use crate::types::msg::QueryMsg as OutpostQueryMsg;

verus! {

/// The text that the second version stores at instantiation.
pub const DATA_BEFORE_MIGRATION_TEXT: &'static str = "Erroneous data before migration!!!";

/// Asks for the channel record of the outpost.
#[derive(Clone, Copy, Debug, PartialEq, Eq, Structural)]
pub struct QueryChannelMsg {}

/// Names the outpost.
#[derive(Clone, Debug, PartialEq, Eq)]
pub struct SetOutpostMsg {
    pub addr: String,
}

/// The queries that the second version answers.
#[derive(Clone, Copy, Debug, PartialEq, Eq, Structural)]
pub enum QueryMsg {
    Data {  },
    QueryOutpostChannel(QueryChannelMsg),
}

/// The calls that the second version accepts.
#[derive(Clone, Debug, PartialEq, Eq)]
pub enum ExecuteMsg {
    SetOutpost(SetOutpostMsg),
}

/// An answer that is a text.
#[derive(Clone, Debug, PartialEq, Eq)]
pub struct ValueResp {
    pub value: String,
}

/// The answer to a query: the text, or the query that the host is to put to
/// the outpost in this contract's place.
#[derive(Clone, Debug, PartialEq, Eq)]
pub enum QueryResponse {
    Value(ValueResp),
    OutpostChannel(QueryRequest),
}

/// What the second version keeps, and what the first version left.
#[derive(Clone, Debug, PartialEq, Eq)]
pub struct Store {
    /// The text that the first version stored; none if there was no first
    /// version.
    pub data_to_migrate: Option<String>,
    /// The text of this version.
    pub data_after_migration: Option<String>,
    /// The outpost.
    pub storage_outpost_contract: Option<StorageOutpostContract>,
}

impl Store {
    /// The store of a contract that has not been instantiated.
    pub fn new() -> (s: Self)
        ensures
            s.data_to_migrate is None,
            s.data_after_migration is None,
            s.storage_outpost_contract is None,
    {
        Store { data_to_migrate: None, data_after_migration: None, storage_outpost_contract: None }
    }
}

/// Instantiates the contract: a text that no migration would leave is
/// stored.
pub fn instantiate(store: &mut Store, env: &Env, info: &MessageInfo, msg: Empty) -> (r: Result<
    Response,
    StdError,
>)
    ensures
        r matches Ok(resp) && resp.is_empty(),
        final(store).data_after_migration matches Some(d) && d@ == DATA_BEFORE_MIGRATION_TEXT@,
        final(store).data_to_migrate == old(store).data_to_migrate,
        final(store).storage_outpost_contract == old(store).storage_outpost_contract,
{
    let save_str: String = String::from_str(DATA_BEFORE_MIGRATION_TEXT);
    store.data_after_migration = Some(save_str);
    Ok(Response::new())
}

/// Answers a query.
pub fn query(store: &Store, env: &Env, msg: QueryMsg) -> (r: Result<QueryResponse, StdError>)
    ensures
        match msg {
            QueryMsg::Data {  } => match store.data_after_migration {
                Some(d) => r == Ok::<QueryResponse, StdError>(
                    QueryResponse::Value(ValueResp { value: d }),
                ),
                None => r matches Err(StdError::NotFound { kind }) && kind@ == "String"@,
            },
            QueryMsg::QueryOutpostChannel(_) => match store.storage_outpost_contract {
                Some(outpost) => r matches Ok(QueryResponse::OutpostChannel(q))
                    && q.contract_addr == outpost.0 && q.msg == (OutpostQueryMsg::GetChannel {  }),
                None => r matches Err(StdError::NotFound { kind }) && kind@
                    == "StorageOutpostContract"@,
            },
        },
{
    match msg {
        QueryMsg::Data {  } => match &store.data_after_migration {
            Some(data_saved) => Ok(QueryResponse::Value(ValueResp { value: data_saved.clone() })),
            None => Err(StdError::NotFound { kind: String::from_str("String") }),
        },
        QueryMsg::QueryOutpostChannel(query_outpost_msg) => match query_outpost_channel(
            store,
            env,
            query_outpost_msg,
        ) {
            Ok(q) => Ok(QueryResponse::OutpostChannel(q)),
            Err(e) => Err(e),
        },
    }
}

/// Carries out one call.
pub fn execute(store: &mut Store, env: &Env, info: &MessageInfo, msg: ExecuteMsg) -> (r: Result<
    Response,
    StdError,
>)
    ensures
        r matches Ok(resp) && resp.is_empty(),
        msg matches ExecuteMsg::SetOutpost(m) && final(store).storage_outpost_contract == Some(
            StorageOutpostContract(m.addr),
        ),
        final(store).data_to_migrate == old(store).data_to_migrate,
        final(store).data_after_migration == old(store).data_after_migration,
{
    match msg {
        ExecuteMsg::SetOutpost(set_outpost_msg) => set_outpost(store, env, info, set_outpost_msg),
    }
}

/// Migrates from the first version: the text that the first version stored
/// becomes the text of this version. Without such a text the migration fails
/// and nothing changes.
pub fn migrate(store: &mut Store, env: &Env, msg: Empty) -> (r: Result<Response, StdError>)
    ensures
        match old(store).data_to_migrate {
            Some(d) => {
                &&& r matches Ok(resp) && resp.is_empty()
                &&& final(store).data_after_migration == Some(d)
                &&& final(store).data_to_migrate == old(store).data_to_migrate
                &&& final(store).storage_outpost_contract == old(store).storage_outpost_contract
            },
            None => {
                &&& *final(store) == *old(store)
                &&& r matches Err(StdError::NotFound { kind })
                &&& kind@ == "String"@
            },
        },
{
    let data_from_v1_state = match &store.data_to_migrate {
        Some(d) => d.clone(),
        None => {
            return Err(StdError::NotFound { kind: String::from_str("String") });
        },
    };
    store.data_after_migration = Some(data_from_v1_state);
    Ok(Response::new())
}

/// Remembers the outpost.
pub fn set_outpost(store: &mut Store, env: &Env, info: &MessageInfo, msg: SetOutpostMsg) -> (r:
    Result<Response, StdError>)
    ensures
        r matches Ok(resp) && resp.is_empty(),
        final(store).storage_outpost_contract == Some(StorageOutpostContract(msg.addr)),
        final(store).data_to_migrate == old(store).data_to_migrate,
        final(store).data_after_migration == old(store).data_after_migration,
{
    let outpost_addr = msg.addr;
    let outpost = StorageOutpostContract::new(outpost_addr);
    store.storage_outpost_contract = Some(outpost);
    Ok(Response::new())
}

/// What `query_outpost_channel` promises: the query for the channel record
/// of the outpost on record, or not found if none is on record.
pub open spec fn is_channel_query(store: Store, r: Result<QueryRequest, StdError>) -> bool {
    match store.storage_outpost_contract {
        Some(outpost) => r matches Ok(q) && q.contract_addr == outpost.0 && q.msg
            == (OutpostQueryMsg::GetChannel {  }),
        None => r matches Err(StdError::NotFound { kind }) && kind@ == "StorageOutpostContract"@,
    }
}

/// The query that the host is to put to the outpost for its channel record.
/// The host's answer is the answer to the query that this contract was
/// asked.
pub fn query_outpost_channel(store: &Store, env: &Env, msg: QueryChannelMsg) -> (r: Result<
    QueryRequest,
    StdError,
>)
    ensures
        is_channel_query(*store, r),
{
    match &store.storage_outpost_contract {
        Some(outpost) => Ok(outpost.query_channel()),
        None => Err(StdError::NotFound { kind: String::from_str("StorageOutpostContract") }),
    }
}

} // verus!

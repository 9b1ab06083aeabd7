//! The first version: it stores a text at instantiation and hands it out.

use vstd::prelude::*;
use crate::host::{Env, MessageInfo, Response, StdError};

pub mod contract;

verus! {

/// The text that the first version stores at instantiation.
pub const DATA_TO_MIGRATE_TEXT: &'static str = "Data to migrate!";

/// The query that the first version answers.
#[derive(Clone, Copy, Debug, PartialEq, Eq, Structural)]
pub enum QueryMsg {
    Value {  },
}

/// The answer: a text.
#[derive(Clone, Debug, PartialEq, Eq)]
pub struct ValueResp {
    pub value: String,
}

/// A message that carries nothing.
#[derive(Clone, Copy, Debug, PartialEq, Eq, Structural)]
pub struct Empty {}

/// What the first version keeps.
#[derive(Clone, Debug, PartialEq, Eq)]
pub struct Store {
    /// The text to be migrated; none before instantiation.
    pub data_to_migrate: Option<String>,
    /// The owner, who alone may withdraw.
    pub owner: Option<String>,
}

impl Store {
    /// The store of a contract that has not been instantiated.
    pub fn new() -> (s: Self)
        ensures
            s.data_to_migrate is None,
            s.owner is None,
    {
        Store { data_to_migrate: None, owner: None }
    }
}

/// Instantiates the contract: the text to be migrated is stored, whatever
/// was stored before.
pub fn instantiate(store: &mut Store, env: &Env, info: &MessageInfo, msg: Empty) -> (r: Result<
    Response,
    StdError,
>)
    ensures
        r matches Ok(resp) && resp.is_empty(),
        final(store).data_to_migrate matches Some(d) && d@ == DATA_TO_MIGRATE_TEXT@,
        final(store).owner == old(store).owner,
{
    let save_str: String = String::from_str(DATA_TO_MIGRATE_TEXT);
    store.data_to_migrate = Some(save_str);
    Ok(Response::new())
}

/// Hands out the stored text.
pub fn query(store: &Store, env: &Env, msg: QueryMsg) -> (r: Result<ValueResp, StdError>)
    ensures
        match store.data_to_migrate {
            Some(d) => r == Ok::<ValueResp, StdError>(ValueResp { value: d }),
            None => r matches Err(StdError::NotFound { kind }) && kind@ == "String"@,
        },
{
    match &store.data_to_migrate {
        Some(data_saved) => Ok(ValueResp { value: data_saved.clone() }),
        None => Err(StdError::NotFound { kind: String::from_str("String") }),
    }
}

/// Does nothing and succeeds.
pub fn execute(store: &mut Store, env: &Env, info: &MessageInfo, msg: Empty) -> (r: Result<
    Response,
    StdError,
>)
    ensures
        r matches Ok(resp) && resp.is_empty(),
        *final(store) == *old(store),
{
    Ok(Response::new())
}

} // verus!

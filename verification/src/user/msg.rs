//! The messages that the contract receives, and what it answers.

use vstd::prelude::*;
use crate::types::cosmos_msg::Operation;
use crate::types::msg::ExecuteMsg as OutpostExecuteMsg;
use crate::user::state::ContractState;

verus! {

/// Sets the contract up.
#[derive(Clone, Debug, PartialEq, Eq)]
pub struct InstantiateMsg {
    pub storage_outpost_address: String,
}

/// The calls that the contract accepts.
#[derive(Clone, Debug, PartialEq, Eq)]
pub enum ExecuteMsg {
    /// Passes a call on to the outpost.
    CallOutpost { msg: OutpostExecuteMsg },
    /// Keeps a note for the caller.
    SaveNote { note: String },
    /// Sets the address of the outpost.
    SaveOutpost { address: String },
    /// Has the outpost send a batch of operations.
    SendCosmosMsgs {
        messages: Vec<Operation>,
        packet_memo: Option<String>,
        timeout_seconds: Option<u64>,
    },
}

/// The queries that the contract answers.
#[derive(Clone, Debug, PartialEq, Eq)]
pub enum QueryMsg {
    GetContractState {  },
    GetNote { address: String },
}

/// The answer to a query, by the query that was put.
#[derive(Clone, Debug, PartialEq, Eq)]
pub enum QueryResponse {
    ContractState(ContractState),
    Note(String),
}

} // verus!

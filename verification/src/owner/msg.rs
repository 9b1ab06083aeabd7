//! The messages that the contract receives, and what it answers.

use vstd::prelude::*;
use crate::owner::state::{ContractState, IcaContractState};
use crate::types::msg::options::ChannelOpenInitOptions;

verus! {

/// Sets the contract up.
#[derive(Clone, Debug, PartialEq, Eq)]
pub struct InstantiateMsg {
    /// The admin; the sender if not given.
    pub admin: Option<String>,
    pub storage_outpost_code_id: u64,
}

/// The calls that the contract accepts.
#[derive(Clone, Debug, PartialEq, Eq)]
pub enum ExecuteMsg {
    /// Creates an outpost.
    CreateIcaContract { salt: Option<String>, channel_open_init_options: ChannelOpenInitOptions },
    /// Counts one callback.
    UpdateCallbackCount {  },
    /// Binds a requester to an outpost.
    MapUserOutpost { outpost_owner: String, outpost_address: String },
}

/// The queries that the contract answers.
#[derive(Clone, Debug, PartialEq, Eq)]
pub enum QueryMsg {
    GetContractState {  },
    GetIcaContractState { ica_id: u64 },
    GetIcaCount {  },
    GetCallbackCount {  },
    GetUserOutpostAddress { user_address: String },
}

/// The answer to a query, by the query that was put.
#[derive(Clone, Debug, PartialEq, Eq)]
pub enum QueryResponse {
    ContractState(ContractState),
    IcaContractState(IcaContractState),
    IcaCount(u64),
    CallbackCount(u64),
    UserOutpostAddress(String),
}

} // verus!

//! The messages that the factory receives, and what it answers.

use vstd::prelude::*;
use crate::factory::state::ContractState;
use crate::types::msg::options::ChannelOpenInitOptions;

verus! {

/// Sets the factory up.
#[derive(Clone, Copy, Debug, PartialEq, Eq, Structural)]
pub struct InstantiateMsg {
    pub storage_outpost_code_id: u64,
}

/// The calls that the factory accepts.
#[derive(Clone, Debug, PartialEq, Eq)]
pub enum ExecuteMsg {
    /// Asks for an outpost for the caller.
    CreateOutpost { channel_open_init_options: ChannelOpenInitOptions },
    /// Confirms that the caller is the outpost created for `outpost_owner`.
    MapUserOutpost { outpost_owner: String },
    /// Migrates the outpost of `outpost_owner` to the code with the given
    /// identifier, in decimal digits.
    MigrateOutpost { outpost_owner: String, new_outpost_code_id: String },
}

/// The queries that the factory answers.
#[derive(Clone, Debug, PartialEq, Eq)]
pub enum QueryMsg {
    GetContractState {  },
    GetUserOutpostAddress { user_address: String },
    GetAllUserOutpostAddresses {  },
}

/// The answer to a query, by the query that was put.
#[derive(Clone, Debug, PartialEq, Eq)]
pub enum QueryResponse {
    ContractState(ContractState),
    UserOutpostAddress(String),
    AllUserOutpostAddresses(Vec<(String, String)>),
}

} // verus!

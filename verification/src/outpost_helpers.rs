//! Helpers for other contracts that work with an outpost.

use vstd::prelude::*;
use crate::host::{CosmosMsg, Payload, StdError, WasmMsg};
use crate::types::msg::{ExecuteMsg, InstantiateMsg, MigrateMsg, QueryMsg};

verus! {

/// The address of an outpost.
#[derive(Clone, Debug, PartialEq, Eq)]
pub struct StorageOutpostContract(pub String);

/// The code identifier under which the outpost's code is stored.
#[derive(Clone, Copy, Debug, PartialEq, Eq, Structural)]
pub struct StorageOutpostCode(pub u64);

/// A query for the host to put to another contract.
#[derive(Clone, Debug, PartialEq, Eq)]
pub struct QueryRequest {
    pub contract_addr: String,
    pub msg: QueryMsg,
}

impl StorageOutpostContract {
    /// The outpost at this address.
    #[must_use]
    pub fn new(addr: String) -> (c: Self)
        ensures
            c.0 == addr,
    {
        StorageOutpostContract(addr)
    }

    /// The address of the outpost.
    #[must_use]
    pub fn addr(&self) -> (a: String)
        ensures
            a == self.0,
    {
        self.0.clone()
    }

    /// A call of this outpost, without funds.
    pub fn call(&self, msg: ExecuteMsg) -> (r: Result<CosmosMsg, StdError>)
        ensures
            r matches Ok(CosmosMsg::Wasm(WasmMsg::Execute { contract_addr, msg: m, funds }))
                && contract_addr == self.0 && m == Payload::Execute(msg) && funds@.len() == 0,
    {
        Ok(
            CosmosMsg::Wasm(
                WasmMsg::Execute {
                    contract_addr: self.addr(),
                    msg: Payload::Execute(msg),
                    funds: Vec::new(),
                },
            ),
        )
    }

    /// The query for this outpost's channel record.
    pub fn query_channel(&self) -> (q: QueryRequest)
        ensures
            q.contract_addr == self.0,
            q.msg == (QueryMsg::GetChannel {  }),
    {
        QueryRequest { contract_addr: self.addr(), msg: QueryMsg::GetChannel {  } }
    }

    /// The query for this outpost's state.
    pub fn query_state(&self) -> (q: QueryRequest)
        ensures
            q.contract_addr == self.0,
            q.msg == (QueryMsg::GetContractState {  }),
    {
        QueryRequest { contract_addr: self.addr(), msg: QueryMsg::GetContractState {  } }
    }

    /// The message that makes `admin` the admin of this outpost.
    pub fn update_admin(&self, admin: String) -> (m: CosmosMsg)
        ensures
            m matches CosmosMsg::Wasm(WasmMsg::UpdateAdmin { contract_addr, admin: a })
                && contract_addr == self.0 && a == admin,
    {
        CosmosMsg::Wasm(WasmMsg::UpdateAdmin { contract_addr: self.addr(), admin })
    }

    /// The message that migrates this outpost to new code.
    pub fn migrate(&self, msg: MigrateMsg, new_code_id: u64) -> (r: Result<CosmosMsg, StdError>)
        ensures
            r matches Ok(CosmosMsg::Wasm(WasmMsg::Migrate { contract_addr, new_code_id: id, msg: m }))
                && contract_addr == self.0 && id == new_code_id && m == Payload::Migrate(msg),
    {
        Ok(
            CosmosMsg::Wasm(
                WasmMsg::Migrate {
                    contract_addr: self.addr(),
                    new_code_id,
                    msg: Payload::Migrate(msg),
                },
            ),
        )
    }
}

impl StorageOutpostCode {
    /// The code under this identifier.
    #[must_use]
    pub fn new(code_id: u64) -> (c: Self)
        ensures
            c.0 == code_id,
    {
        StorageOutpostCode(code_id)
    }

    /// The code identifier.
    #[must_use]
    pub fn code_id(&self) -> (id: u64)
        ensures
            id == self.0,
    {
        self.0
    }

    /// The message that creates an outpost from this code, without funds.
    pub fn instantiate(&self, msg: InstantiateMsg, label: String, admin: Option<String>) -> (r:
        Result<CosmosMsg, StdError>)
        ensures
            r matches Ok(
                CosmosMsg::Wasm(WasmMsg::Instantiate { admin: a, code_id, msg: m, funds, label: l }),
            ) && a == admin && code_id == self.0 && m == Payload::Instantiate(msg) && funds@.len()
                == 0 && l == label,
    {
        Ok(
            CosmosMsg::Wasm(
                WasmMsg::Instantiate {
                    admin,
                    code_id: self.code_id(),
                    msg: Payload::Instantiate(msg),
                    funds: Vec::new(),
                    label,
                },
            ),
        )
    }
}

} // verus!

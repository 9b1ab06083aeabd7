//! What the contract keeps.

use vstd::prelude::*;
use std::collections::HashMap;
use crate::table::Table;

verus! {

/// The contract's own state.
#[derive(Clone, Debug, PartialEq, Eq)]
pub struct ContractState {
    pub admin: String,
    /// Code identifier from which outposts are created.
    pub storage_outpost_code_id: u64,
}

impl ContractState {
    /// The state of a contract that creates outposts from this code.
    pub fn new(admin: String, storage_outpost_code_id: u64) -> (s: Self)
        ensures
            s.admin == admin,
            s.storage_outpost_code_id == storage_outpost_code_id,
    {
        ContractState { admin, storage_outpost_code_id }
    }

    /// A copy that is equal field by field.
    pub fn duplicate(&self) -> (c: Self)
        ensures
            c == *self,
    {
        ContractState {
            admin: self.admin.clone(),
            storage_outpost_code_id: self.storage_outpost_code_id,
        }
    }
}

/// What is kept of one outpost that was asked for.
#[derive(Clone, Debug, PartialEq, Eq)]
pub struct IcaContractState {
    /// Who asked for the outpost.
    pub contract_addr: String,
}

impl IcaContractState {
    /// What is kept of an outpost that this caller asked for.
    pub fn new(contract_addr: String) -> (s: Self)
        ensures
            s.contract_addr == contract_addr,
    {
        IcaContractState { contract_addr }
    }

    /// A copy that is equal field by field.
    pub fn duplicate(&self) -> (c: Self)
        ensures
            c == *self,
    {
        IcaContractState { contract_addr: self.contract_addr.clone() }
    }
}

/// Everything that the contract keeps between calls.
pub struct Store {
    /// The contract's own state; none before it is set up.
    pub state: Option<ContractState>,
    /// What is kept of each outpost, by its number.
    pub ica_states: HashMap<u64, IcaContractState>,
    /// For each caller the number of the outpost it asked for last.
    pub contract_addr_to_ica_id: Table<u64>,
    /// How many outposts were asked for; none before the first.
    pub ica_count: Option<u64>,
    /// The count of callbacks; none before the first write.
    pub callback_count: Option<u64>,
    /// For each requester the address of the outpost bound to it.
    pub user_addr_to_outpost_addr: Table<String>,
}

impl Store {
    /// The store of a contract that has not been set up.
    pub fn new() -> (s: Self)
        ensures
            s.state is None,
            s.ica_states@ == Map::<u64, IcaContractState>::empty(),
            s.contract_addr_to_ica_id.map() == Map::<Seq<char>, u64>::empty(),
            s.ica_count is None,
            s.callback_count is None,
            s.user_addr_to_outpost_addr.map() == Map::<Seq<char>, Seq<char>>::empty(),
    {
        Store {
            state: None,
            ica_states: HashMap::new(),
            contract_addr_to_ica_id: Table::new(),
            ica_count: None,
            callback_count: None,
            user_addr_to_outpost_addr: Table::new(),
        }
    }

    /// The count that a record stands for: zero while it was never written.
    pub open spec fn count(c: Option<u64>) -> u64 {
        match c {
            Some(n) => n,
            None => 0,
        }
    }
}

} // verus!

//! What the contract keeps.

use vstd::prelude::*;
use crate::table::Table;

verus! {

/// The contract's own state.
#[derive(Clone, Debug, PartialEq, Eq)]
pub struct ContractState {
    /// Address of the outpost that calls are passed on to.
    pub storage_outpost_address: String,
}

impl ContractState {
    /// The state of a contract that passes calls on to this outpost.
    pub fn new(storage_outpost_address: String) -> (s: Self)
        ensures
            s.storage_outpost_address == storage_outpost_address,
    {
        ContractState { storage_outpost_address }
    }
}

/// Everything that the contract keeps between calls.
pub struct Store {
    /// The contract's own state; none before it is set up.
    pub state: Option<ContractState>,
    /// For each caller the note it saved last.
    pub file_note: Table<String>,
}

impl Store {
    /// The store of a contract that has not been set up.
    pub fn new() -> (s: Self)
        ensures
            s.state is None,
            s.file_note.map() == Map::<Seq<char>, Seq<char>>::empty(),
    {
        Store { state: None, file_note: Table::new() }
    }
}

} // verus!

//! What the factory keeps: its own state, the locks and the bindings.

use vstd::prelude::*;
use crate::table::Table;

verus! {

/// The factory's own state.
#[derive(Clone, Debug, PartialEq, Eq)]
pub struct ContractState {
    /// Code identifier from which outposts are created.
    pub storage_outpost_code_id: u64,
    pub admin: String,
}

impl ContractState {
    /// The state of a factory that creates outposts from this code.
    pub fn new(storage_outpost_code_id: u64, admin: String) -> (s: Self)
        ensures
            s.storage_outpost_code_id == storage_outpost_code_id,
            s.admin == admin,
    {
        ContractState { storage_outpost_code_id, admin }
    }

    /// A copy that is equal field by field.
    pub fn duplicate(&self) -> (c: Self)
        ensures
            c == *self,
    {
        ContractState {
            storage_outpost_code_id: self.storage_outpost_code_id,
            admin: self.admin.clone(),
        }
    }
}

/// The lock of one requester.
#[derive(Clone, Copy, Debug, PartialEq, Eq, Structural)]
pub enum LockState {
    /// No outpost was ever asked for.
    Absent,
    /// An outpost was asked for and has not confirmed.
    Locked,
    /// An outpost has confirmed. The lock is used up, for good.
    Unlocked,
}

/// Everything that the factory keeps between calls.
pub struct Store {
    /// The factory's own state; none before it is set up.
    pub state: Option<ContractState>,
    /// For each requester the address of the outpost bound to it.
    pub user_addr_to_outpost_addr: Table<String>,
    /// For each requester whether its lock is set (`true`) or used (`false`).
    pub lock: Table<bool>,
}

/// The factory's store as mathematical maps.
#[verifier::ext_equal]
pub struct StoreView {
    pub state: Option<ContractState>,
    pub locks: Map<Seq<char>, bool>,
    pub bindings: Map<Seq<char>, Seq<char>>,
}

impl View for Store {
    type V = StoreView;

    open spec fn view(&self) -> StoreView {
        StoreView {
            state: self.state,
            locks: self.lock.map(),
            bindings: self.user_addr_to_outpost_addr.map(),
        }
    }
}

impl StoreView {
    /// The lock of the requester `k`.
    pub open spec fn lock_state(self, k: Seq<char>) -> LockState {
        if !self.locks.contains_key(k) {
            LockState::Absent
        } else if self.locks[k] {
            LockState::Locked
        } else {
            LockState::Unlocked
        }
    }

    /// The outpost bound to the requester `k`, if there is one.
    pub open spec fn binding(self, k: Seq<char>) -> Option<Seq<char>> {
        if self.bindings.contains_key(k) {
            Some(self.bindings[k])
        } else {
            None
        }
    }
}

impl Store {
    /// The store of a factory that has not been set up: no state, no lock,
    /// no binding.
    pub fn new() -> (s: Self)
        ensures
            s@.state is None,
            s@.locks == Map::<Seq<char>, bool>::empty(),
            s@.bindings == Map::<Seq<char>, Seq<char>>::empty(),
            crate::factory::protocol::consistent(s@),
    {
        Store { state: None, user_addr_to_outpost_addr: Table::new(), lock: Table::new() }
    }

    /// The lock of the requester `k`.
    pub fn lock_state(&self, k: &str) -> (l: LockState)
        ensures
            l == self@.lock_state(k@),
    {
        match self.lock.get(k) {
            None => LockState::Absent,
            Some(b) => if *b {
                LockState::Locked
            } else {
                LockState::Unlocked
            },
        }
    }

    /// The outpost bound to the requester `k`, if there is one.
    pub fn binding(&self, k: &str) -> (b: Option<String>)
        ensures
            crate::host::opt_view(b) == self@.binding(k@),
    {
        match self.user_addr_to_outpost_addr.get(k) {
            None => None,
            Some(a) => Some(a.clone()),
        }
    }
}

} // verus!

//! Errors of the factory.

use vstd::prelude::*;
use crate::host::StdError;

verus! {

/// Why a call of the factory failed.
#[derive(Clone, Debug, PartialEq, Eq)]
pub enum ContractError {
    /// The host failed to load a record, or an argument could not be read.
    Std(StdError),
    /// The caller is not the outpost that is bound to the key. No call of the
    /// factory fails in this way; the error is there for contracts that
    /// share the factory's errors.
    Unauthorized { expected: String, actual: String },
    /// The remote account is not known. No call of the factory fails in this
    /// way.
    IcaInfoNotSet {  },
    /// A confirmation came for a key that holds no lock: none was ever set,
    /// or it has been used.
    MissingLock {  },
    /// The requester has an outpost already; its address is given.
    AlreadyCreated(String),
    /// Only the factory's admin can migrate outposts. No call of the factory
    /// fails in this way: anyone may ask for a migration.
    NotAdmin {  },
}

} // verus!

//! Errors of the contract that uses an outpost.

use vstd::prelude::*;
use crate::host::StdError;

verus! {

/// Why a call failed.
#[derive(Clone, Debug, PartialEq, Eq)]
pub enum ContractError {
    /// The host failed to load a record.
    Std(StdError),
    /// The remote account is not known. No call of this contract fails in
    /// this way.
    IcaInfoNotSet {  },
    /// The requester has an outpost already; its address is given. No call
    /// of this contract fails in this way.
    AlreadyCreated(String),
}

} // verus!

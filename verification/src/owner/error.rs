//! Errors of the contract that owns outposts.

use vstd::prelude::*;
use crate::host::StdError;

verus! {

/// Why a call failed.
#[derive(Clone, Debug, PartialEq, Eq)]
pub enum ContractError {
    /// The host failed to load a record.
    Std(StdError),
    /// The caller may not write this binding: `expected` is who may, and
    /// `actual` who called.
    Unauthorized { expected: String, actual: String },
}

} // verus!

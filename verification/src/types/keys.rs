//! Name and version under which the contract records itself for upgrades.

use vstd::prelude::*;

verus! {

/// Name of the contract as recorded at instantiation.
pub const CONTRACT_NAME: &'static str = "crates.io:storage-outpost";

/// Version of the contract as recorded at instantiation.
pub const CONTRACT_VERSION: &'static str = "0.1.0";

} // verus!

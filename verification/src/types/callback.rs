//! The callback descriptor that a factory embeds in a provisioning request.

use vstd::prelude::*;

verus! {

/// Whom a freshly created outpost calls back, and on whose behalf.
#[derive(Clone, Debug, PartialEq, Eq)]
pub struct Callback {
    /// Address of the contract to call back.
    pub contract: String,
    /// An optional message for that contract to execute.
    pub msg: Option<Vec<u8>>,
    /// The requester for whom the outpost is created. The caller of the
    /// outpost's initialisation is the factory, so the requester has to be
    /// named here.
    pub outpost_owner: String,
}

} // verus!

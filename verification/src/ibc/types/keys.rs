//! Well-known identifiers of the interchain-account and transfer applications.

use vstd::prelude::*;

verus! {

/// Version string of the interchain-accounts application.
pub const ICA_VERSION: &'static str = "ics27-1";

/// Port that the interchain-accounts host submodule binds to by default.
pub const HOST_PORT_ID: &'static str = "icahost";

/// Port that the transfer module binds to by default.
pub const TRANSFER_PORT_ID: &'static str = "transfer";

/// Version string of the transfer application.
pub const TRANSFER_VERSION: &'static str = "ics20-1";

/// The default counterparty port as an owned string.
pub fn host_port_id() -> (port: String)
    ensures
        port@ == HOST_PORT_ID@,
{
    String::from_str(HOST_PORT_ID)
}

} // verus!

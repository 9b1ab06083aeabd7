//! Errors of the outpost contract.

use vstd::prelude::*;
use crate::host::StdError;

verus! {

/// Why a call of the outpost failed. Every error ends the call; nothing that
/// the call had changed stays changed.
#[derive(Clone, Debug, PartialEq, Eq)]
pub enum ContractError {
    /// The host failed to load or store a record.
    Std(StdError),
    /// The caller is not the one who may make this call.
    NotAuthorized {  },
    /// The host's own validation refused an address or an identifier.
    UpstreamValidationFailure(String),
    /// A channel was to be opened but no options were given, now or before.
    NoChannelInitOptions {  },
    /// The channel is not open, so nothing can be sent on it.
    ChannelNotReady {  },
    /// The channel is open already and cannot be established a second time.
    ChannelAlreadyEstablished {  },
    /// An operation has no form in the requested encoding.
    UnsupportedOperation {  },
    /// What was to be read back is no encoding of a batch of operations.
    SerializationFailure(String),
    /// The stored version does not allow the migration.
    InvalidMigrationVersion { expected: String, actual: String },
    /// A version string is not a semantic version.
    SemverError(String),
    /// The channel's encoding is not one that the contract can continue with.
    UnsupportedPacketEncoding(String),
}

} // verus!

//! The messages that the outpost contract receives.

use vstd::prelude::*;
use crate::types::callback::Callback;
use crate::types::cosmos_msg::Operation;

pub mod options;

verus! {

/// Creates an outpost.
#[derive(Clone, Debug, PartialEq, Eq)]
pub struct InstantiateMsg {
    /// Owner of the outpost; the sender if not given.
    pub owner: Option<String>,
    /// Admin of the outpost; the sender if not given.
    pub admin: Option<String>,
    /// Options with which to open the channel at once. Without them no
    /// channel is opened.
    pub channel_open_init_options: Option<options::ChannelOpenInitOptions>,
    /// Whom to call back once created.
    pub callback: Option<Callback>,
}

/// The calls that the outpost accepts.
#[derive(Clone, Debug, PartialEq, Eq)]
pub enum ExecuteMsg {
    /// Submits a channel-open request. Without options those of the last
    /// request are used again.
    CreateChannel { channel_open_init_options: Option<options::ChannelOpenInitOptions> },
    /// Encodes the operations into one packet and sends it to the host side.
    SendCosmosMsgs {
        messages: Vec<Operation>,
        packet_memo: Option<String>,
        /// Seconds until the packet times out; a default applies if absent.
        timeout_seconds: Option<u64>,
    },
    /// Stores a text, by which a migration can be told to have succeeded.
    SetDataAfterMigration { data: String },
}

/// The one call of the factory that an outpost makes: the confirmation that
/// binds the named requester to the calling outpost.
#[derive(Clone, Debug, PartialEq, Eq)]
pub enum OutpostFactoryExecuteMsg {
    MapUserOutpost { outpost_owner: String },
}

/// The queries that the outpost answers.
#[derive(Clone, Debug, PartialEq, Eq)]
pub enum QueryMsg {
    GetChannel {  },
    GetContractState {  },
    GetCallbackCounter {  },
    GetMigrationData {  },
    Ownership {  },
}

/// Migrates the outpost. It carries nothing.
#[derive(Clone, Copy, Debug, PartialEq, Eq, Structural)]
pub struct MigrateMsg {}

} // verus!

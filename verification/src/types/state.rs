//! The records that the outpost keeps.

use vstd::prelude::*;
use crate::ibc::types::metadata::{IbcOrder, TxEncoding};
use crate::types::error::ContractError;

verus! {

/// What is known of the remote account once the channel is open.
#[derive(Clone, Debug, PartialEq, Eq)]
pub struct IcaInfo {
    pub ica_address: String,
    pub channel_id: String,
    pub encoding: TxEncoding,
}

impl IcaInfo {
    /// A copy that is equal field by field.
    pub fn duplicate(&self) -> (c: Self)
        ensures
            c == *self,
    {
        IcaInfo {
            ica_address: self.ica_address.clone(),
            channel_id: self.channel_id.clone(),
            encoding: self.encoding,
        }
    }
}

/// The outpost's own state: its admin, fixed at creation, and the remote
/// account, known once the handshake has completed.
#[derive(Clone, Debug, PartialEq, Eq)]
pub struct ContractState {
    pub admin: String,
    pub ica_info: Option<IcaInfo>,
}

impl ContractState {
    /// The state of a fresh outpost: the admin is set, the remote account is
    /// not yet known.
    pub fn new(admin: String) -> (s: Self)
        ensures
            s.admin == admin,
            s.ica_info is None,
    {
        ContractState { admin, ica_info: None }
    }

    /// The remote account, or `ChannelNotReady` while it is not known.
    pub fn get_ica_info(&self) -> (r: Result<IcaInfo, ContractError>)
        ensures
            match self.ica_info {
                Some(info) => r == Ok::<IcaInfo, ContractError>(info),
                None => r == Err::<IcaInfo, ContractError>(ContractError::ChannelNotReady {  }),
            },
    {
        match &self.ica_info {
            Some(info) => Ok(info.duplicate()),
            None => Err(ContractError::ChannelNotReady {  }),
        }
    }

    /// Records the remote account.
    pub fn set_ica_info(&mut self, ica_address: String, channel_id: String, encoding: TxEncoding)
        ensures
            final(self).admin == old(self).admin,
            final(self).ica_info == Some(IcaInfo { ica_address, channel_id, encoding }),
    {
        self.ica_info = Some(IcaInfo { ica_address, channel_id, encoding });
    }

    /// Forgets the remote account.
    pub fn delete_ica_info(&mut self)
        ensures
            final(self).admin == old(self).admin,
            final(self).ica_info is None,
    {
        self.ica_info = None;
    }
}

/// How far the channel has come.
#[derive(Clone, Copy, Debug, PartialEq, Eq, Structural)]
pub enum ChannelStatus {
    /// Nothing has been requested.
    Uninitialized,
    /// The open request has been submitted; the counterparty has not answered.
    Init,
    /// The counterparty has confirmed the channel.
    Open,
    /// The channel has been closed.
    Closed,
}

/// The channel record: what was negotiated and how far the channel has come.
#[derive(Clone, Debug, PartialEq, Eq)]
pub struct ChannelState {
    pub channel_id: String,
    pub counterparty_port_id: String,
    pub encoding: TxEncoding,
    pub ordering: IbcOrder,
    pub channel_status: ChannelStatus,
}

impl ChannelState {
    /// Whether the channel is open.
    pub fn is_open(&self) -> (b: bool)
        ensures
            b == (self.channel_status == ChannelStatus::Open),
    {
        match self.channel_status {
            ChannelStatus::Open => true,
            _ => false,
        }
    }

    /// A copy that is equal field by field.
    pub fn duplicate(&self) -> (c: Self)
        ensures
            c == *self,
    {
        ChannelState {
            channel_id: self.channel_id.clone(),
            counterparty_port_id: self.counterparty_port_id.clone(),
            encoding: self.encoding,
            ordering: self.ordering,
            channel_status: self.channel_status,
        }
    }
}

/// Counts of the acknowledgements received, by outcome. The counts only
/// grow, and nothing is decided by them.
#[derive(Clone, Copy, Debug, PartialEq, Eq, Structural)]
pub struct CallbackCounter {
    pub success: u64,
    pub error: u64,
    pub timeout: u64,
}

impl CallbackCounter {
    /// All counts at zero.
    pub fn new() -> (c: Self)
        ensures
            c == (CallbackCounter { success: 0, error: 0, timeout: 0 }),
    {
        CallbackCounter { success: 0, error: 0, timeout: 0 }
    }

    /// Counts one success.
    pub fn success(&mut self)
        requires
            old(self).success < u64::MAX,
        ensures
            final(self).success == old(self).success + 1,
            final(self).error == old(self).error,
            final(self).timeout == old(self).timeout,
    {
        self.success = self.success + 1;
    }

    /// Counts one error.
    pub fn error(&mut self)
        requires
            old(self).error < u64::MAX,
        ensures
            final(self).error == old(self).error + 1,
            final(self).success == old(self).success,
            final(self).timeout == old(self).timeout,
    {
        self.error = self.error + 1;
    }

    /// Counts one timeout.
    pub fn timeout(&mut self)
        requires
            old(self).timeout < u64::MAX,
        ensures
            final(self).timeout == old(self).timeout + 1,
            final(self).success == old(self).success,
            final(self).error == old(self).error,
    {
        self.timeout = self.timeout + 1;
    }
}

} // verus!

//! Types exchanged with the counterparty during the handshake and afterwards.

pub mod keys;
pub mod metadata;
pub mod packet;
pub mod stargate;
pub mod transfer_metadata;

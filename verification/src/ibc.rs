//! Channel and packet types of the interchain-account protocol.

pub mod types;

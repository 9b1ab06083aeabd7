//! Controller side of an interchain-account outpost.
//!
//! - [`contract`] is the outpost itself: it asks for a channel to the host
//!   side, takes in the completion of the handshake, and sends batches of
//!   operations in packets once the channel is open.
//! - [`ibc`] and [`types`] hold the packet, the operations and their two
//!   encodings, binary records ([`wire`]) and text documents ([`json`]), with
//!   the proof that reading undoes writing.
//! - [`factory`] creates one outpost for each requester and binds the
//!   requester to the outpost that confirms, by a lock that is used once.
//!   [`factory::protocol`] states the protocol and what holds of every run.
//! - [`owner`], [`user`] and [`migrations`] are smaller contracts around it.
//!
//! Nothing here performs an effect. An entry point takes what the contract
//! keeps, as a value, and what the host says of the call; it changes the
//! value and answers with a description of what the host is to do. If it
//! fails, the value is as it was.

pub mod contract;
pub mod decimal;
pub mod factory;
pub mod helpers;
pub mod host;
pub mod ibc;
pub mod json;
pub mod migrations;
pub mod outpost_helpers;
pub mod owner;
pub mod table;
pub mod types;
pub mod user;
pub mod version;
pub mod wire;

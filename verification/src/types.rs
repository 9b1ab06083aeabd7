//! Messages, state records and errors of the outpost contract.

pub mod callback;
pub mod cosmos_msg;
pub mod error;
pub mod filetree;
pub mod filetree_tx;
pub mod json_msg;
pub mod keys;
pub mod msg;
pub mod state;

pub use error::ContractError;

//! A contract that keeps notes for its callers and passes calls on to one
//! outpost.

pub mod contract;
pub mod error;
pub mod msg;
pub mod state;

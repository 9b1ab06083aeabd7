//! The factory: it provisions one outpost for each requester and binds the
//! requester to the outpost that confirms.

pub mod contract;
pub mod error;
pub mod msg;
pub mod protocol;
pub mod state;

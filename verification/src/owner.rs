//! A contract that creates outposts on behalf of its callers and keeps count
//! of them. It binds requesters to outposts without locks: the caller of a
//! binding must be the requester or the outpost itself.

pub mod contract;
pub mod error;
pub mod msg;
pub mod state;

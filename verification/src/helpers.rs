//! Helpers that prepare messages for the remote chain.

pub mod filetree_helpers;

//! Two versions of a small contract, by which the migration of stored data
//! from one version to the next is tried out.

pub mod v1;
pub mod v2;

//! The records that contract calls and event logs decode to.

pub mod common;
pub mod narrow;
pub mod v1;
pub mod v2;

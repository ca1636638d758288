//! A verified configuration and handle layer for a native version-control
//! engine: option builders that materialize into plain option blocks, the
//! C-string tables those blocks point into, and commit snapshots with bounded
//! parent iteration.

pub mod error;
pub mod ident;
pub mod cstr;
pub mod checkout;
pub mod clone;
pub mod commit;

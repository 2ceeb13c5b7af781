//! Custody and lifecycle rules for locking a unique asset in escrow for a
//! committed period and releasing it to its owner, recording whether the
//! release came early.

pub mod custody;
pub mod error;
pub mod laws;
pub mod policy;
pub mod program;
pub mod pubkey;
pub mod state;
pub mod store;

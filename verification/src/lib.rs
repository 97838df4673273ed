//! A single-asset escrow-style lending core: one loan record per tokenized
//! asset, four guarded transitions (lend, borrow, return, withdraw collateral),
//! and a registry keyed by asset identifier. The host runtime supplies the
//! caller identity and the current block, and executes the transfer
//! instructions that the transitions hand back.

pub mod contract;
pub mod error;
pub mod laws;
pub mod msg;
pub mod registry;
pub mod state;

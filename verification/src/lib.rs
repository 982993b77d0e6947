//! Privacy-preserving value-transfer primitives: a confidential
//! constant-product swap pool and a cross-chain asset bridge.
//!
//! Every operation is a pure transition on plain values. The host supplies
//! the records an operation names, the current time and the token balances,
//! and performs the token transfers the returned event calls for.

pub mod commitment;
pub mod keys;
pub mod encoding;
pub mod digest;
pub mod money;
pub mod confidential_swap;
pub mod swap_laws;
pub mod privacy_bridge;
pub mod bridge_laws;

//! A gated two-token liquidity pool ledger.
//!
//! Value-moving operations are open only to callers that prove membership
//! in a Merkle commitment (sorted-pair Keccak-256 hashing); a single-slot
//! reentrancy guard serialises them.

pub mod laws;
pub mod merkle;
pub mod pool;

//! Core of a test-coin faucet: choosing unspent outputs, building the spend
//! transaction, and the per-requester cooldown.

pub mod address;
pub mod assembler;
pub mod claim;
pub mod config;
pub mod fee;
pub mod orchestrator;
pub mod rate_limiter;
pub mod report;
pub mod selector;
pub mod signer;
pub mod transaction;
pub mod utxo;
pub mod wallet;

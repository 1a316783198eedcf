//! An append-only, hash-linked ledger of proof-of-task rewards, a wallet
//! store of per-account balances, and a two-sided marketplace for trading
//! tokens, with machine-checked contracts on every operation.

pub mod block;
pub mod chain;
pub mod encode;
pub mod errors;
pub mod hashing;
pub mod market;
pub mod wallet;

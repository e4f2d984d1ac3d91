//! Validation and fork-choice core of a single-process proof-of-work ledger.
pub mod block;
pub mod hashing;
pub mod mining;
pub mod chain;
pub mod laws;

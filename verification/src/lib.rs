//! Candy machine: a contract that sells the tokens of an NFT collection in
//! phases, each with its own price, allowlist and per-wallet allocation.
//!
//! The decisions of the contract (what state an instantiation stores, when a
//! mint is accepted, what it sends out and what the queries answer) are
//! verified here. Reading and writing the chain's storage, querying other
//! contracts and encoding messages happen around this library.
pub mod contract;
pub mod error;
pub mod laws;
pub mod msg;
pub mod state;

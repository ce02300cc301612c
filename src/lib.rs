//! Building, signing and confirming a chain of two legacy pay-to-public-key-hash
//! spends against a node on the regression-test network.
//!
//! The node itself is reached by the caller; this crate holds the decisions and
//! the transaction construction, each with a contract.
pub mod chain;
pub mod primitives;
pub mod text;
pub mod tx;
pub mod wallet;

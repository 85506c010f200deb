//! The data structures of the ledger: transactions, blocks and the chain.

pub mod blockchain;
pub mod transaction;

//! Blocks of transactions and proof-of-work sealing.
pub mod block;
pub mod consensus;

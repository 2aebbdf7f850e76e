use vstd::prelude::*;

pub mod chain;
pub mod config;
pub mod crypto;
pub mod encoding;
pub mod error;
pub mod evidence;
pub mod nameset;
pub mod replay;
pub mod state;
pub mod table;
pub mod storage;
pub mod text;
pub mod tx;
pub mod wallet;
pub mod wire;

pub use chain::block::current_timestamp;
pub use encoding::sha256_digest;

verus! {

} // verus!

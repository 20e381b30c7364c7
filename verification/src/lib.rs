//! A single-process proof-of-work ledger: blocks linked by their digests, a
//! pool of pending transactions, and the worker that mines the pool into new
//! blocks.

pub mod clock;
pub mod digest;
pub mod json;
pub mod miner;
pub mod text;
pub mod types;
pub mod util;

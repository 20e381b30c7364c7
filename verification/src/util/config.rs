//! The settings of a node.

use vstd::prelude::*;

verus! {

/// The settings of a node.
#[derive(Debug, Clone, Copy)]
pub struct Config {
    /// The port on which the node serves requests.
    pub port: u16,
    /// The number of blocks after which the miner stops; zero for no limit.
    pub max_blocks: u64,
    /// The number of nonces that the miner tries for one block.
    pub max_nonce: u64,
    /// The number of leading zeros asked of a block's hash.
    pub difficulty: u32,
    /// The pause, in milliseconds, after the miner found the pool empty.
    pub tx_waiting_ms: u64,
}

} // verus!

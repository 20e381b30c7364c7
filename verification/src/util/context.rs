//! What a node is made of.

use vstd::prelude::*;

use crate::types::blockchain::Blockchain;
use crate::types::transaction_pool::TransactionPool;
use crate::util::config::Config;

verus! {

/// The settings of a node, its chain and its pool.
pub struct Context {
    pub config: Config,
    pub blockchain: Blockchain,
    pub pool: TransactionPool,
}

} // verus!

pub mod block;
pub mod transaction;
pub mod transaction_pool;
pub mod blockchain;

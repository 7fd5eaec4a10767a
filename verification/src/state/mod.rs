//! The first version of the pool accounts, kept beside the current ones in
//! `crate::pool::state`: a pool with a deposit mint, and a pool account that only
//! names its pool.
pub mod pool;
pub mod pool_account;

pub use pool::Pool;
pub use pool_account::PoolAccount;

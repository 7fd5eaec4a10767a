//! The accounts a pool keeps.
pub mod pool;
pub mod pool_account;

pub use pool::Pool;
pub use pool_account::PoolAccount;

//! The instructions on pools.
pub mod deposit_into_pool;
pub mod create_pool;
pub mod create_pool_account;
pub mod create_mango_account;

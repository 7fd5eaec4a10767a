//! The instructions of the first version of pools, beside the current ones in
//! `crate::pool::instructions`: creating a pool for USDC deposits, opening a pool
//! account, a deposit into a pool that does nothing yet, and opening and depositing into
//! a mango account owned by a signer.
pub mod create_mango_account;
pub mod create_pool;
pub mod create_pool_account;
pub mod deposit;
pub mod deposit_into_pool;

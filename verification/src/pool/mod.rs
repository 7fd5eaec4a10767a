//! Pools: an admin creates a pool with a vault for one mint; users open pool accounts
//! in it and deposit into the vault; the pool can open a mango account of its own.
pub mod instructions;
pub mod state;

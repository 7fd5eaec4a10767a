//! The gateway account.
pub mod gateway;

pub use gateway::Gateway;

//! The on-chain logic of the dasheri program: a gateway that hands out IOU tokens for
//! deposits into mango accounts, and pools that users deposit into and that hold a
//! mango account of their own.
pub mod pubkey;
pub mod error;
pub mod outside;
pub mod layout;
pub mod pool;
pub mod iou;
pub mod state;
pub mod plan;
pub mod account;
pub mod address;
pub mod init;
pub mod ids;
pub mod instructions;
pub mod dasheri;
pub mod laws;
pub mod runs;
pub mod stored;

//! The instructions of the IOU gateway.
pub mod init_gateway;
pub mod deposit_into_mango_account;

//! Addresses of outside accounts the program refers to.
pub mod usdc_token;

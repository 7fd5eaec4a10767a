//! The IOU gateway: deposits into a mango account through the gateway are answered
//! with IOU tokens of a mint that the gateway controls.
pub mod instructions;
pub mod state;

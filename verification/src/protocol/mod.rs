//! The session protocol and the gateways to other networks.
pub mod ncp;
pub mod discord;
pub mod matrix;

//! Traffic shaping and the state of the Tor and peer-to-peer links.
pub mod traffic_morph;
pub mod tor_manager;
pub mod p2p;

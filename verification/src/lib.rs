//! A post-quantum hybrid, Double-Ratchet messenger core: key derivation,
//! session state, record sealing, traffic padding and the command-center state.
pub mod crypto;
pub mod text;
pub mod protocol;
pub mod network;
pub mod model;
pub mod storage;
pub mod ui;
pub mod panic_engine;
pub mod backend;

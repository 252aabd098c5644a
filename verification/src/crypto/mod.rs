//! Identity keys, hybrid key encapsulation, key derivation and the Double
//! Ratchet.
pub mod kdf;
pub mod primitives;
pub mod skipped;
pub mod ratchet;
pub mod identity;
pub mod kem;
pub mod conversation;

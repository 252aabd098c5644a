//! The encrypted vault and secure deletion.
pub mod vault;
pub mod secure_delete;

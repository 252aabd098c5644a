//! The messaging backend: its state, what an incoming message does to it,
//! and the step of each command.
pub mod state;
pub mod incoming;
pub mod rules;
pub mod edits;
pub mod commands;
pub mod setup;
pub mod membership;
pub mod posting;
pub mod lifecycle;
pub mod snapshot;
pub mod laws;
pub mod effects;

//! The command center's state, apart from how it is drawn.
pub mod command_center;
pub mod view_model;

//! The terminal interface's state and the decisions its keys make. Drawing, the
//! terminal and the player itself are the caller's.
pub mod app;
pub mod keys;
pub mod cover;
pub mod theme;

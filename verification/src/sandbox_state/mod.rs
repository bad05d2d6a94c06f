//! The states of a sandbox and the transitions between them.
pub mod reset;
pub mod sandbox;
pub mod transition;

//! The player bar.
pub mod common;
pub mod position;

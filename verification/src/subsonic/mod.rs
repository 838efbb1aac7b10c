//! The Subsonic REST API.
pub mod api;

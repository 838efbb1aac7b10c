//! Playback, library and menu logic of a music client for Jellyfin and
//! Subsonic servers.
pub mod backend;
pub mod library;
pub mod library_utils;
pub mod subsonic;
pub mod text;
pub mod ui;

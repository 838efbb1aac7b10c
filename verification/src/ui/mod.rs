//! The parts of the user interface that decide what is shown and done.
pub mod music_context_menu;
pub mod player_bar;

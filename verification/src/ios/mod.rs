//! The iOS side: which libraries to hook and where Hachimi keeps its files.
pub mod game_impl;
pub mod gui_impl;
pub mod hachimi_impl;
pub mod hook;
pub mod utils;

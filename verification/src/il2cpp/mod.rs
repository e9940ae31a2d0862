//! Hooks into the game's IL2CPP code.
pub mod hook;

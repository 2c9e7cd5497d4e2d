//! Selection-and-generation engine of a terminal password generator.
//!
//! The crate holds the navigable selection list, the registry of password
//! categories with their length bounds, the character-class generator that
//! draws from a random source, and the session that ties them together.
//! Drawing the terminal, reading keys and writing to the clipboard are left
//! to the program that embeds the engine.

pub mod app;
pub mod classes;
pub mod event;
pub mod generate;
pub mod list;
pub mod options;
pub mod password;
pub mod random;
pub mod session;

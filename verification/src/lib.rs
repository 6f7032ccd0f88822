//! Deciding what a desktop-driving server for Hyprland does: which window, which
//! element, which pixel, which keys, and what the caller is told.

pub mod abs_pointer;
pub mod apps;
pub mod cache;
pub mod cli;
pub mod command;
pub mod diagnostics;
pub mod elements;
pub mod environment;
pub mod gate;
pub mod geometry;
pub mod input;
pub mod keys;
pub mod notes;
pub mod numerals;
pub mod params;
pub mod schema;
pub mod screenshot;
pub mod select;
pub mod session_lock;
pub mod terminal;
pub mod text;
pub mod tools;
pub mod tree;
pub mod windowing;

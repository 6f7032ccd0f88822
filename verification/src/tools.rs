//! The tools: what each decides between the calls it makes to the desktop.

pub mod capture;
pub mod click;
pub mod drag;
pub mod element;
pub mod keyboard;
pub mod scroll;
pub mod state;
pub mod wait;
pub mod windows;

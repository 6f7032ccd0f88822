//! Windows: what they are, how a caller names one, and how Hyprland is told.

pub mod backends;
pub mod registry;
pub mod target;
pub mod types;

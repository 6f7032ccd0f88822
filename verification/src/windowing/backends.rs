//! The compositors windows are driven through.

pub mod hyprland;

//! A gamepad- and keyboard-driven virtual keyboard for terminal sessions.

pub mod input;
pub mod keyboard;
pub mod launcher;
pub mod laws;
pub mod render;
pub mod session;
pub mod shell;
pub mod text;

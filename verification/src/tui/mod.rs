//! The agent on a terminal.

pub mod markdown;
pub mod screen;
pub mod state;
pub mod style;

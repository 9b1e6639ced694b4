//! Naming and prompting for the conflict-resolution agents.

pub mod prompts;
pub mod resolve;
pub mod tmux;

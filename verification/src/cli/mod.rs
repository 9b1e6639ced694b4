//! The command-line surface: its argument types and the decisions of the
//! subcommands.

pub mod commands;
pub mod parser;

//! A local, daemon-free merge queue: the verified core.
//!
//! Entries are claimed one at a time per repository and driven through
//! precheck, rebase, an optional CI gate and a fast-forward by a pure
//! finite-state machine. This crate holds that machine, the value types
//! it works on, and the decision logic around it; the processes, the
//! database and the terminal live with the caller.

pub mod domain;
pub mod error;
pub mod text;
pub mod foreign;
pub mod store;
pub mod engine;
pub mod agents;
pub mod git;
pub mod paths;
pub mod cli;

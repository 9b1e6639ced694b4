//! The git adapter's reading of git's answers. Running `git` is the host's
//! part.

pub mod process_git;

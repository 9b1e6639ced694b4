//! The command line's argument types.

use vstd::prelude::*;

verus! {

/// The parsed command line.
#[derive(Debug)]
pub struct Cli {
    pub command: Option<Command>,
}

#[derive(Debug)]
pub enum Command {
    /// Open the animated dashboard (also the default with no subcommand).
    Tui(TuiArgs),
    /// Register the current repo.
    Init(InitArgs),
    /// Queue the current worktree for merge.
    Enqueue(EnqueueArgs),
    /// Print the live queue.
    Status(StatusArgs),
    /// Cancel a queued or in-flight entry.
    Cancel(IdArg),
    /// Re-enqueue a Failed or NeedsHelp entry.
    Retry(IdArg),
    /// Attach to (or open) the agent session for a NeedsHelp entry.
    Resolve(IdArg),
    /// Print CI and merge logs for an entry.
    Logs(IdArg),
    /// Manage registered repos.
    Repos(ReposArgs),
    /// Environment sanity check.
    Doctor,
}

#[derive(Debug)]
pub struct InitArgs {
    /// Default branch to merge into; defaults to whatever HEAD points at.
    pub default_branch: Option<String>,
    /// Optional lint command.
    pub lint: Option<String>,
    /// Optional test command.
    pub test: Option<String>,
    /// Optional build command.
    pub build: Option<String>,
}

#[derive(Debug, Default)]
pub struct TuiArgs {
    /// Run the dashboard with in-memory showcase data and no workers.
    pub demo: bool,
}

#[derive(Debug)]
pub struct EnqueueArgs {
    /// Override the target branch (defaults to the repo's default).
    pub target: Option<String>,
    /// Optional human-readable message attached to the queue entry.
    pub message: Option<String>,
}

#[derive(Debug)]
pub struct StatusArgs {
    /// Filter to one registered repo (root path).
    pub repo: Option<String>,
    /// Output format.
    pub format: OutputFormat,
}

#[derive(Debug, Clone, Copy, PartialEq, Eq, Structural)]
pub enum OutputFormat {
    Human,
    Json,
}

#[derive(Debug)]
pub struct IdArg {
    /// Queue entry id.
    pub id: String,
}

#[derive(Debug)]
pub struct ReposArgs {
    pub command: ReposCommand,
}

#[derive(Debug)]
pub enum ReposCommand {
    /// List registered repos.
    List,
    /// Deregister a repo (cascades to its queue entries).
    Remove(IdArg),
}

} // verus!

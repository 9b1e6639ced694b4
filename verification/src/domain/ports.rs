//! Values exchanged with the store, git and the agents.

use vstd::prelude::*;

use crate::domain::ids::RepoId;
use crate::domain::queue::QueueStatus;

verus! {

/// Which queue entries a listing returns: those of one repository (or of
/// all), with one of the given statuses (or any; an empty list also means
/// any).
#[derive(Debug, Clone)]
pub struct EntryFilter {
    pub repo_id: Option<RepoId>,
    pub statuses: Option<Vec<QueueStatus>>,
}

impl Default for EntryFilter {
    fn default() -> (r: EntryFilter)
        ensures
            r.repo_id is None,
            r.statuses is None,
    {
        EntryFilter { repo_id: None, statuses: None }
    }
}

impl EntryFilter {
    /// Whether an entry of `repo` in status `status` passes the filter.
    pub open spec fn admits(self, repo: RepoId, status: QueueStatus) -> bool {
        &&& (self.repo_id matches Some(r) ==> r == repo)
        &&& (self.statuses matches Some(v) ==> v@.len() == 0 || v@.contains(status))
    }

    /// Every entry.
    pub fn all() -> (r: Self)
        ensures
            r.repo_id is None,
            r.statuses is None,
    {
        EntryFilter::default()
    }

    /// The entries of one repository.
    pub fn by_repo(repo: RepoId) -> (r: Self)
        ensures
            r.repo_id == Some(repo),
            r.statuses is None,
    {
        EntryFilter { repo_id: Some(repo), statuses: None }
    }

    /// The same filter, narrowed to the given statuses.
    pub fn with_status(self, statuses: Vec<QueueStatus>) -> (r: Self)
        ensures
            r.repo_id == self.repo_id,
            r.statuses == Some(statuses),
    {
        let mut f = self;
        f.statuses = Some(statuses);
        f
    }
}

/// What a rebase attempt reported.
#[derive(Debug, Clone, PartialEq, Eq)]
pub enum RebaseOutcome {
    Success,
    Conflict,
    OtherError(String),
}

/// What a fast-forward attempt reported.
#[derive(Debug, Clone, PartialEq, Eq)]
pub enum FastForwardOutcome {
    Success,
    NonFastForward,
    OtherError(String),
}

/// What an agent is told about a conflict.
#[derive(Debug, Clone)]
pub struct ConflictPrompt {
    pub repo_name: String,
    pub source_branch: String,
    pub target_branch: String,
    pub conflicted_files: Vec<String>,
    pub ci_command_hint: Option<String>,
}

/// A session and window of the terminal multiplexer; agents place
/// themselves inside it.
#[derive(Debug, Clone)]
pub struct TmuxHandle {
    pub session: String,
    pub window: String,
}

} // verus!

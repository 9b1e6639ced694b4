//! Registered repositories and their CI configuration.

use vstd::prelude::*;

use crate::domain::agent_backend::AgentBackend;
use crate::domain::ids::RepoId;

verus! {

/// What `std::time::Duration::from_secs` makes of a number of seconds.
pub uninterp spec fn duration_of_secs(secs: u64) -> std::time::Duration;

/// Calls `std::time::Duration::from_secs`; the result is named by
/// `duration_of_secs`.
#[verifier::external_body]
pub(crate) fn secs(n: u64) -> (d: std::time::Duration)
    ensures
        d == duration_of_secs(n),
{
    std::time::Duration::from_secs(n)
}

/// What `std::time::Duration::from_millis` makes of a number of
/// milliseconds.
pub uninterp spec fn duration_of_millis(ms: u64) -> std::time::Duration;

/// Calls `std::time::Duration::from_millis`; the result is named by
/// `duration_of_millis`. A whole number of seconds in milliseconds is the
/// same duration as `from_secs` of those seconds (durations compare by
/// their length, as std documents).
#[verifier::external_body]
pub(crate) fn millis(n: u64) -> (d: std::time::Duration)
    ensures
        d == duration_of_millis(n),
        n % 1000 == 0 ==> d == duration_of_secs((n / 1000) as u64),
{
    std::time::Duration::from_millis(n)
}

/// Calls `std::time::Duration::as_millis`, the whole milliseconds of a
/// duration. Claimed for durations made by `from_millis` or `from_secs`:
/// their milliseconds, or their seconds times 1000. Of other durations
/// nothing is stated.
#[verifier::external_body]
pub(crate) fn whole_millis(d: std::time::Duration) -> (r: u128)
    ensures
        forall|m: u64| d == #[trigger] duration_of_millis(m) ==> r == m,
        forall|s: u64| d == #[trigger] duration_of_secs(s) ==> r == s * 1000,
{
    d.as_millis()
}

/// The default pause before a dirty target worktree is checked again.
pub open spec fn default_dirty_retry() -> std::time::Duration {
    duration_of_secs(30)
}

/// A repository registered with the queue.
#[derive(Debug, Clone)]
pub struct RegisteredRepo {
    pub id: RepoId,
    /// The repository's root, which is also the target worktree.
    pub root_path: String,
    pub default_branch: String,
    pub ci: RepoCiConfig,
    pub agent_backend: AgentBackend,
    pub created_at: time::OffsetDateTime,
    pub updated_at: time::OffsetDateTime,
}

/// Per-repository CI gate: the commands run, in order lint, test, build,
/// each optional, and how long to wait before retrying a dirty target.
#[derive(Debug, Clone)]
pub struct RepoCiConfig {
    pub lint_command: Option<String>,
    pub test_command: Option<String>,
    pub build_command: Option<String>,
    pub dirty_retry: std::time::Duration,
}

impl Default for RepoCiConfig {
    fn default() -> (r: RepoCiConfig)
        ensures
            r.lint_command is None,
            r.test_command is None,
            r.build_command is None,
            r.dirty_retry == default_dirty_retry(),
    {
        RepoCiConfig {
            lint_command: None,
            test_command: None,
            build_command: None,
            dirty_retry: secs(30),
        }
    }
}

} // verus!

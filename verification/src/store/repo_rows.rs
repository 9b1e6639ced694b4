//! Rows of the `registered_repos` table.

use vstd::prelude::*;

use crate::domain::agent_backend::{backend_name, AgentBackend};
use crate::domain::ids::{uuid_parse_text, RepoId};
use crate::domain::repo::{
    duration_of_millis, duration_of_secs, millis, whole_millis, RegisteredRepo, RepoCiConfig,
};
use crate::error::{Error, ErrorView};
use crate::paths::view_opt;
use crate::store::rows::{
    datetime_of_unix, id_error, lemma_time_round_trip, read_time, storable_time, time_written,
    timestamp_error, timestamp_in_range, write_time,
};
use crate::text::owned;

verus! {

/// A row of the `registered_repos` table.
#[derive(Debug, Clone)]
pub struct RepoRow {
    pub id: String,
    pub root_path: String,
    pub default_branch: String,
    pub lint_command: Option<String>,
    pub test_command: Option<String>,
    pub build_command: Option<String>,
    pub dirty_retry_ms: i64,
    pub agent_backend: String,
    pub created_at: i64,
    pub updated_at: i64,
}

/// Whether some backend is named `s`.
pub open spec fn is_backend_name(s: Seq<char>) -> bool {
    exists|b: AgentBackend| backend_name(b) == s
}

/// The milliseconds of a stored retry pause: a negative count reads as 0.
pub open spec fn retry_millis(ms: i64) -> u64 {
    if ms >= 0 {
        ms as u64
    } else {
        0u64
    }
}

/// Whether a pause is what a stored count of milliseconds reads as: that
/// many milliseconds, which for a whole number of seconds is the same as
/// those seconds.
pub open spec fn retry_read_as(d: std::time::Duration, ms: i64) -> bool {
    &&& d == duration_of_millis(retry_millis(ms))
    &&& retry_millis(ms) % 1000 == 0 ==> d == duration_of_secs((retry_millis(ms) / 1000) as u64)
}

/// The first column of a repository row that cannot be read, in the order
/// the columns are read, with its error; none when the whole row reads.
pub open spec fn repo_row_error(row: RepoRow) -> Option<ErrorView> {
    if uuid_parse_text(row.id@) is None {
        Some(id_error(row.id@))
    } else if !is_backend_name(row.agent_backend@) {
        Some(ErrorView::Invalid("unknown agent backend: "@ + row.agent_backend@))
    } else if !timestamp_in_range(row.created_at) {
        Some(timestamp_error(row.created_at))
    } else if !timestamp_in_range(row.updated_at) {
        Some(timestamp_error(row.updated_at))
    } else {
        None
    }
}

/// Whether a repository is what a row reads as, column by column.
pub open spec fn repo_read_from(r: RegisteredRepo, row: RepoRow) -> bool {
    &&& uuid_parse_text(row.id@) == Some(r.id.0)
    &&& r.root_path@ == row.root_path@
    &&& r.default_branch@ == row.default_branch@
    &&& view_opt(r.ci.lint_command) == view_opt(row.lint_command)
    &&& view_opt(r.ci.test_command) == view_opt(row.test_command)
    &&& view_opt(r.ci.build_command) == view_opt(row.build_command)
    &&& retry_read_as(r.ci.dirty_retry, row.dirty_retry_ms)
    &&& backend_name(r.agent_backend) == row.agent_backend@
    &&& r.created_at == datetime_of_unix(row.created_at)
    &&& r.updated_at == datetime_of_unix(row.updated_at)
}

/// The stored form of a retry pause whose whole milliseconds are `ms`: the
/// largest `i64` when they do not fit.
pub open spec fn retry_written(ms: int) -> i64 {
    if ms <= i64::MAX {
        ms as i64
    } else {
        i64::MAX
    }
}

/// Whether a row is what a repository is written as, column by column.
/// The pause is written by its whole milliseconds where they are known
/// (for pauses made from milliseconds or seconds).
pub open spec fn repo_written_as(r: RegisteredRepo, row: RepoRow) -> bool {
    &&& uuid_parse_text(row.id@) == Some(r.id.0)
    &&& row.root_path@ == r.root_path@
    &&& row.default_branch@ == r.default_branch@
    &&& view_opt(row.lint_command) == view_opt(r.ci.lint_command)
    &&& view_opt(row.test_command) == view_opt(r.ci.test_command)
    &&& view_opt(row.build_command) == view_opt(r.ci.build_command)
    &&& (forall|m: u64| r.ci.dirty_retry == #[trigger] duration_of_millis(m) ==> row.dirty_retry_ms
        == retry_written(m as int))
    &&& (forall|s: u64| r.ci.dirty_retry == #[trigger] duration_of_secs(s) ==> row.dirty_retry_ms
        == retry_written(s * 1000))
    &&& row.agent_backend@ == backend_name(r.agent_backend)
    &&& time_written(r.created_at, row.created_at)
    &&& time_written(r.updated_at, row.updated_at)
}

/// Whether a pause is one the store keeps exactly: a whole number of
/// milliseconds, or of seconds, that fits the column.
pub open spec fn storable_retry(d: std::time::Duration) -> bool {
    ||| exists|m: u64| m <= i64::MAX && d == #[trigger] duration_of_millis(m)
    ||| exists|s: u64| s * 1000 <= i64::MAX && d == #[trigger] duration_of_secs(s)
}

/// Whether two repositories hold the same values.
pub open spec fn same_repo(a: RegisteredRepo, b: RegisteredRepo) -> bool {
    &&& a.id == b.id
    &&& a.root_path@ == b.root_path@
    &&& a.default_branch@ == b.default_branch@
    &&& view_opt(a.ci.lint_command) == view_opt(b.ci.lint_command)
    &&& view_opt(a.ci.test_command) == view_opt(b.ci.test_command)
    &&& view_opt(a.ci.build_command) == view_opt(b.ci.build_command)
    &&& a.ci.dirty_retry == b.ci.dirty_retry
    &&& a.agent_backend == b.agent_backend
    &&& a.created_at == b.created_at
    &&& a.updated_at == b.updated_at
}

/// Reads a registered repository from its row. It fails with the error of
/// the first column that cannot be read.
pub fn repo_from_row(row: RepoRow) -> (r: Result<RegisteredRepo, Error>)
    ensures
        match r {
            Ok(repo) => repo_row_error(row) is None && repo_read_from(repo, row),
            Err(err) => repo_row_error(row) == Some(err@),
        },
{
    let RepoRow {
        id,
        root_path,
        default_branch,
        lint_command,
        test_command,
        build_command,
        dirty_retry_ms,
        agent_backend,
        created_at,
        updated_at,
    } = row;
    let id = match RepoId::parse_str(id.as_str()) {
        Ok(i) => i,
        Err(e) => return Err(e),
    };
    let ms: u64 = if dirty_retry_ms >= 0 {
        dirty_retry_ms as u64
    } else {
        0
    };
    let dirty_retry = millis(ms);
    assert(ms == retry_millis(dirty_retry_ms));
    let agent_backend = match AgentBackend::parse(agent_backend.as_str()) {
        Ok(b) => b,
        Err(e) => return Err(e),
    };
    let created_at = match read_time(created_at) {
        Ok(t) => t,
        Err(e) => return Err(e),
    };
    let updated_at = match read_time(updated_at) {
        Ok(t) => t,
        Err(e) => return Err(e),
    };
    Ok(RegisteredRepo {
        id,
        root_path,
        default_branch,
        ci: RepoCiConfig { lint_command, test_command, build_command, dirty_retry },
        agent_backend,
        created_at,
        updated_at,
    })
}

/// A copy of an optional text.
fn copy_opt(t: &Option<String>) -> (r: Option<String>)
    ensures
        view_opt(r) == view_opt(*t),
{
    match t {
        Some(s) => Some(owned(s.as_str())),
        None => None,
    }
}

/// Writes a registered repository as a row.
pub fn repo_to_row(r: &RegisteredRepo) -> (row: RepoRow)
    ensures
        repo_written_as(*r, row),
{
    let ms = whole_millis(r.ci.dirty_retry);
    let dirty_retry_ms: i64 = if ms <= 9223372036854775807u128 {
        ms as i64
    } else {
        9223372036854775807i64
    };
    RepoRow {
        id: r.id.to_string(),
        root_path: owned(r.root_path.as_str()),
        default_branch: owned(r.default_branch.as_str()),
        lint_command: copy_opt(&r.ci.lint_command),
        test_command: copy_opt(&r.ci.test_command),
        build_command: copy_opt(&r.ci.build_command),
        dirty_retry_ms,
        agent_backend: owned(r.agent_backend.as_str()),
        created_at: write_time(r.created_at),
        updated_at: write_time(r.updated_at),
    }
}

/// What the store reads back of the row it wrote for a repository is that
/// repository, provided its times and retry pause are ones the store keeps
/// exactly.
pub proof fn lemma_repo_round_trip(r: RegisteredRepo, row: RepoRow)
    requires
        repo_written_as(r, row),
        storable_time(r.created_at),
        storable_time(r.updated_at),
        storable_retry(r.ci.dirty_retry),
    ensures
        repo_row_error(row) is None,
        forall|d: RegisteredRepo| repo_read_from(d, row) ==> same_repo(d, r),
{
    lemma_time_round_trip(r.created_at, row.created_at);
    lemma_time_round_trip(r.updated_at, row.updated_at);
    assert(backend_name(r.agent_backend) == row.agent_backend@);
    assert forall|d: RegisteredRepo| repo_read_from(d, row) implies same_repo(d, r) by {
        lemma_backend_names_distinct(d.agent_backend, r.agent_backend);
        if exists|m: u64| m <= i64::MAX && r.ci.dirty_retry == #[trigger] duration_of_millis(m) {
            let m = choose|m: u64| m <= i64::MAX && r.ci.dirty_retry == #[trigger] duration_of_millis(m);
            assert(row.dirty_retry_ms == m);
        } else {
            let s = choose|s: u64| s * 1000 <= i64::MAX && r.ci.dirty_retry == #[trigger] duration_of_secs(s);
            assert(row.dirty_retry_ms == s * 1000);
            assert(retry_millis(row.dirty_retry_ms) / 1000 == s);
        }
    }
}

/// Different backends have different names.
pub proof fn lemma_backend_names_distinct(a: AgentBackend, b: AgentBackend)
    ensures
        backend_name(a) == backend_name(b) ==> a == b,
{
}

} // verus!

//! Rows of the store's tables as plain column values, and how records are
//! written to and read back from them. Times are kept as whole Unix
//! seconds; statuses, outcomes and reasons by name; ids as UUID text.

use vstd::prelude::*;

use crate::domain::ids::{hyphenated_text, uuid_parse_text, ConflictSessionId, QueueEntryId, RepoId};
use crate::domain::queue::{
    outcome_name, reason_name, status_name, MergeFailureReason, QueueEntry, QueueStatus,
    StepOutcome,
};
use crate::error::{Error, ErrorView};
use crate::paths::view_opt;
use crate::store::codec::{
    lemma_outcome_names_distinct, lemma_reason_names_distinct, lemma_status_names_distinct,
    parse_failure_reason, parse_outcome, parse_status,
};
use crate::text::{joined, owned, push_signed_decimal, signed_decimal};

verus! {

/// What `time::OffsetDateTime::from_unix_timestamp` makes of a number of
/// seconds it accepts: that instant, in UTC.
pub uninterp spec fn datetime_of_unix(secs: i64) -> time::OffsetDateTime;

/// The seconds the `time` crate accepts: the instants from the start of
/// year -9999 to the end of year 9999.
pub open spec fn timestamp_in_range(secs: i64) -> bool {
    -377705116800 <= secs <= 253402300799
}

/// Calls `time::OffsetDateTime::from_unix_timestamp`. Its source accepts
/// exactly the seconds of `timestamp_in_range` and refuses the others with
/// an error whose text is "timestamp was not in range"; claimed here, with
/// the result named by `datetime_of_unix`.
#[verifier::external_body]
fn datetime_from_unix(secs: i64) -> (r: Result<time::OffsetDateTime, String>)
    ensures
        match r {
            Ok(t) => timestamp_in_range(secs) && t == datetime_of_unix(secs),
            Err(m) => !timestamp_in_range(secs) && m@ == "timestamp was not in range"@,
        },
{
    match time::OffsetDateTime::from_unix_timestamp(secs) {
        Ok(t) => Ok(t),
        Err(e) => Err(e.to_string()),
    }
}

/// Calls `time::OffsetDateTime::unix_timestamp`, the whole seconds since
/// the epoch. Claimed only where the instant came from
/// `from_unix_timestamp`: then it gives those seconds back. Of other
/// instants (with a fraction of a second, say) nothing is stated.
#[verifier::external_body]
fn unix_seconds(t: time::OffsetDateTime) -> (r: i64)
    ensures
        forall|s: i64| timestamp_in_range(s) && t == #[trigger] datetime_of_unix(s) ==> r == s,
{
    t.unix_timestamp()
}

/// The error for a stored time the `time` crate refuses.
pub open spec fn timestamp_error(secs: i64) -> ErrorView {
    ErrorView::Other(
        "invalid timestamp "@ + signed_decimal(secs as int) + ": "@ + "timestamp was not in range"@,
    )
}

/// The error for stored id text that is not a UUID.
pub open spec fn id_error(s: Seq<char>) -> ErrorView {
    ErrorView::Invalid("invalid id: "@ + s)
}

/// Reads a stored time.
pub fn read_time(secs: i64) -> (r: Result<time::OffsetDateTime, Error>)
    ensures
        timestamp_in_range(secs) ==> r == Ok::<time::OffsetDateTime, Error>(datetime_of_unix(secs)),
        !timestamp_in_range(secs) ==> (r matches Err(e) && e@ == timestamp_error(secs)),
{
    match datetime_from_unix(secs) {
        Ok(t) => Ok(t),
        Err(m) => {
            let mut text = String::from_str("invalid timestamp ");
            push_signed_decimal(&mut text, secs);
            text.append(": ");
            text.append(m.as_str());
            Err(Error::Other(text))
        },
    }
}

/// An optional stored time, read.
pub open spec fn opt_time(ts: Option<i64>) -> Option<time::OffsetDateTime> {
    match ts {
        Some(s) => Some(datetime_of_unix(s)),
        None => None,
    }
}

/// Whether an optional stored time can be read.
pub open spec fn opt_time_ok(ts: Option<i64>) -> bool {
    ts matches Some(s) ==> timestamp_in_range(s)
}

/// Reads an optional stored time.
pub fn read_opt_time(ts: Option<i64>) -> (r: Result<Option<time::OffsetDateTime>, Error>)
    ensures
        opt_time_ok(ts) ==> r == Ok::<Option<time::OffsetDateTime>, Error>(opt_time(ts)),
        !opt_time_ok(ts) ==> (r matches Err(e) && e@ == timestamp_error(ts->0)),
{
    match ts {
        None => Ok(None),
        Some(s) => match read_time(s) {
            Ok(t) => Ok(Some(t)),
            Err(e) => Err(e),
        },
    }
}

/// Whether a stored time was written for an instant: where the instant is
/// one the store can hold, the seconds are its seconds.
pub open spec fn time_written(t: time::OffsetDateTime, secs: i64) -> bool {
    forall|s: i64| timestamp_in_range(s) && t == #[trigger] datetime_of_unix(s) ==> secs == s
}

/// Whether an optional stored time was written for an optional instant.
pub open spec fn opt_time_written(t: Option<time::OffsetDateTime>, ts: Option<i64>) -> bool {
    match (t, ts) {
        (None, None) => true,
        (Some(x), Some(s)) => time_written(x, s),
        _ => false,
    }
}

/// Whether an instant is one the store keeps exactly: whole seconds, in
/// UTC, within the range the `time` crate accepts.
pub open spec fn storable_time(t: time::OffsetDateTime) -> bool {
    exists|s: i64| timestamp_in_range(s) && t == #[trigger] datetime_of_unix(s)
}

/// `storable_time` of an optional instant.
pub open spec fn storable_opt_time(t: Option<time::OffsetDateTime>) -> bool {
    t matches Some(x) ==> storable_time(x)
}

/// Writes a time.
pub fn write_time(t: time::OffsetDateTime) -> (r: i64)
    ensures
        time_written(t, r),
{
    unix_seconds(t)
}

/// Writes an optional time.
pub fn write_opt_time(t: Option<time::OffsetDateTime>) -> (r: Option<i64>)
    ensures
        opt_time_written(t, r),
{
    match t {
        Some(x) => Some(unix_seconds(x)),
        None => None,
    }
}

/// Whether some status is named `s`.
pub open spec fn is_status_name(s: Seq<char>) -> bool {
    exists|x: QueueStatus| status_name(x) == s
}

/// Whether some step outcome is named `s`.
pub open spec fn is_outcome_name(s: Seq<char>) -> bool {
    exists|x: StepOutcome| outcome_name(x) == s
}

/// Whether some failure reason is named `s`.
pub open spec fn is_reason_name(s: Seq<char>) -> bool {
    exists|x: MergeFailureReason| reason_name(x) == s
}

/// Whether an optional outcome and an optional stored name agree.
pub open spec fn outcome_stored_as(o: Option<StepOutcome>, t: Option<String>) -> bool {
    match (o, t) {
        (None, None) => true,
        (Some(x), Some(s)) => outcome_name(x) == s@,
        _ => false,
    }
}

/// Whether an optional reason and an optional stored name agree.
pub open spec fn reason_stored_as(o: Option<MergeFailureReason>, t: Option<String>) -> bool {
    match (o, t) {
        (None, None) => true,
        (Some(x), Some(s)) => reason_name(x) == s@,
        _ => false,
    }
}

/// Whether an optional session id and an optional stored text agree.
pub open spec fn session_stored_as(c: Option<ConflictSessionId>, t: Option<String>) -> bool {
    match (c, t) {
        (None, None) => true,
        (Some(x), Some(s)) => uuid_parse_text(s@) == Some(x.0),
        _ => false,
    }
}

/// A stored process id, read: a value outside `u32` reads as 0.
pub open spec fn pid_read(v: Option<i64>) -> Option<u32> {
    match v {
        Some(p) => Some(
            if 0 <= p <= u32::MAX {
                p as u32
            } else {
                0u32
            },
        ),
        None => None,
    }
}

/// A process id, written.
pub open spec fn pid_written(p: Option<u32>) -> Option<i64> {
    match p {
        Some(x) => Some(x as i64),
        None => None,
    }
}

/// A row of the `queue_entries` table.
#[derive(Debug, Clone)]
pub struct EntryRow {
    pub id: String,
    pub repo_id: String,
    pub source_worktree: String,
    pub source_branch: String,
    pub target_branch: String,
    pub status: String,
    pub last_outcome: Option<String>,
    pub enqueued_at: i64,
    pub started_at: Option<i64>,
    pub finished_at: Option<i64>,
    pub failure_reason: Option<String>,
    pub ci_log_dir: Option<String>,
    pub merge_log_path: Option<String>,
    pub conflict_session_id: Option<String>,
    pub message: Option<String>,
    pub claimed_by_pid: Option<i64>,
    pub claimed_at: Option<i64>,
}

/// The first column of an entry row that cannot be read, in the order the
/// columns are read, with its error; none when the whole row reads.
pub open spec fn entry_row_error(row: EntryRow) -> Option<ErrorView> {
    if uuid_parse_text(row.id@) is None {
        Some(id_error(row.id@))
    } else if uuid_parse_text(row.repo_id@) is None {
        Some(id_error(row.repo_id@))
    } else if !is_status_name(row.status@) {
        Some(ErrorView::Other("unknown status "@ + row.status@))
    } else if row.last_outcome is Some && !is_outcome_name(row.last_outcome->0@) {
        Some(ErrorView::Other("unknown outcome "@ + row.last_outcome->0@))
    } else if !timestamp_in_range(row.enqueued_at) {
        Some(timestamp_error(row.enqueued_at))
    } else if !opt_time_ok(row.started_at) {
        Some(timestamp_error(row.started_at->0))
    } else if !opt_time_ok(row.finished_at) {
        Some(timestamp_error(row.finished_at->0))
    } else if row.failure_reason is Some && !is_reason_name(row.failure_reason->0@) {
        Some(ErrorView::Other("unknown failure reason "@ + row.failure_reason->0@))
    } else if row.conflict_session_id is Some && uuid_parse_text(
        row.conflict_session_id->0@,
    ) is None {
        Some(id_error(row.conflict_session_id->0@))
    } else if !opt_time_ok(row.claimed_at) {
        Some(timestamp_error(row.claimed_at->0))
    } else {
        None
    }
}

/// Whether an entry is what a row reads as, column by column.
pub open spec fn entry_read_from(e: QueueEntry, row: EntryRow) -> bool {
    &&& uuid_parse_text(row.id@) == Some(e.id.0)
    &&& uuid_parse_text(row.repo_id@) == Some(e.repo_id.0)
    &&& e.source_worktree@ == row.source_worktree@
    &&& e.source_branch@ == row.source_branch@
    &&& e.target_branch@ == row.target_branch@
    &&& status_name(e.status) == row.status@
    &&& outcome_stored_as(e.last_outcome, row.last_outcome)
    &&& e.enqueued_at == datetime_of_unix(row.enqueued_at)
    &&& e.started_at == opt_time(row.started_at)
    &&& e.finished_at == opt_time(row.finished_at)
    &&& reason_stored_as(e.failure_reason, row.failure_reason)
    &&& view_opt(e.ci_log_dir) == view_opt(row.ci_log_dir)
    &&& view_opt(e.merge_log_path) == view_opt(row.merge_log_path)
    &&& session_stored_as(e.conflict_session_id, row.conflict_session_id)
    &&& view_opt(e.message) == view_opt(row.message)
    &&& e.claimed_by_pid == pid_read(row.claimed_by_pid)
    &&& e.claimed_at == opt_time(row.claimed_at)
}

/// Whether a row is what an entry is written as, column by column.
pub open spec fn entry_written_as(e: QueueEntry, row: EntryRow) -> bool {
    &&& uuid_parse_text(row.id@) == Some(e.id.0)
    &&& uuid_parse_text(row.repo_id@) == Some(e.repo_id.0)
    &&& row.source_worktree@ == e.source_worktree@
    &&& row.source_branch@ == e.source_branch@
    &&& row.target_branch@ == e.target_branch@
    &&& row.status@ == status_name(e.status)
    &&& outcome_stored_as(e.last_outcome, row.last_outcome)
    &&& time_written(e.enqueued_at, row.enqueued_at)
    &&& opt_time_written(e.started_at, row.started_at)
    &&& opt_time_written(e.finished_at, row.finished_at)
    &&& reason_stored_as(e.failure_reason, row.failure_reason)
    &&& view_opt(row.ci_log_dir) == view_opt(e.ci_log_dir)
    &&& view_opt(row.merge_log_path) == view_opt(e.merge_log_path)
    &&& session_stored_as(e.conflict_session_id, row.conflict_session_id)
    &&& view_opt(row.message) == view_opt(e.message)
    &&& row.claimed_by_pid == pid_written(e.claimed_by_pid)
    &&& opt_time_written(e.claimed_at, row.claimed_at)
}

/// Whether two entries hold the same values (texts compared by their
/// characters).
pub open spec fn same_entry(a: QueueEntry, b: QueueEntry) -> bool {
    &&& a.id == b.id
    &&& a.repo_id == b.repo_id
    &&& a.source_worktree@ == b.source_worktree@
    &&& a.source_branch@ == b.source_branch@
    &&& a.target_branch@ == b.target_branch@
    &&& a.status == b.status
    &&& a.last_outcome == b.last_outcome
    &&& a.enqueued_at == b.enqueued_at
    &&& a.started_at == b.started_at
    &&& a.finished_at == b.finished_at
    &&& a.failure_reason == b.failure_reason
    &&& view_opt(a.ci_log_dir) == view_opt(b.ci_log_dir)
    &&& view_opt(a.merge_log_path) == view_opt(b.merge_log_path)
    &&& a.conflict_session_id == b.conflict_session_id
    &&& view_opt(a.message) == view_opt(b.message)
    &&& a.claimed_by_pid == b.claimed_by_pid
    &&& a.claimed_at == b.claimed_at
}

/// Whether every time of an entry is one the store keeps exactly.
pub open spec fn entry_times_storable(e: QueueEntry) -> bool {
    &&& storable_time(e.enqueued_at)
    &&& storable_opt_time(e.started_at)
    &&& storable_opt_time(e.finished_at)
    &&& storable_opt_time(e.claimed_at)
}

/// Reads an optional stored outcome name.
fn read_outcome(t: Option<String>) -> (r: Result<Option<StepOutcome>, Error>)
    ensures
        match r {
            Ok(o) => (t matches Some(s) ==> is_outcome_name(s@)) && outcome_stored_as(o, t),
            Err(e) => t matches Some(s) && !is_outcome_name(s@) && e@ == ErrorView::Other(
                "unknown outcome "@ + s@,
            ),
        },
{
    match t {
        None => Ok(None),
        Some(s) => match parse_outcome(s.as_str()) {
            Ok(o) => Ok(Some(o)),
            Err(e) => Err(e),
        },
    }
}

/// Reads an optional stored failure-reason name.
fn read_reason(t: Option<String>) -> (r: Result<Option<MergeFailureReason>, Error>)
    ensures
        match r {
            Ok(o) => (t matches Some(s) ==> is_reason_name(s@)) && reason_stored_as(o, t),
            Err(e) => t matches Some(s) && !is_reason_name(s@) && e@ == ErrorView::Other(
                "unknown failure reason "@ + s@,
            ),
        },
{
    match t {
        None => Ok(None),
        Some(s) => match parse_failure_reason(s.as_str()) {
            Ok(o) => Ok(Some(o)),
            Err(e) => Err(e),
        },
    }
}

/// Reads an optional stored session id.
fn read_session_id(t: Option<String>) -> (r: Result<Option<ConflictSessionId>, Error>)
    ensures
        match r {
            Ok(c) => (t matches Some(s) ==> uuid_parse_text(s@) is Some) && session_stored_as(c, t),
            Err(e) => t matches Some(s) && uuid_parse_text(s@) is None && e@ == id_error(s@),
        },
{
    match t {
        None => Ok(None),
        Some(s) => match ConflictSessionId::parse_str(s.as_str()) {
            Ok(c) => Ok(Some(c)),
            Err(e) => Err(e),
        },
    }
}

/// Reads a stored process id; a value outside `u32` reads as 0.
fn read_pid(v: Option<i64>) -> (r: Option<u32>)
    ensures
        r == pid_read(v),
{
    match v {
        Some(p) => {
            if 0 <= p && p <= 4294967295 {
                Some(p as u32)
            } else {
                Some(0)
            }
        },
        None => None,
    }
}

/// Reads a queue entry from its row. It fails with the error of the first
/// column that cannot be read.
pub fn entry_from_row(row: EntryRow) -> (r: Result<QueueEntry, Error>)
    ensures
        match r {
            Ok(e) => entry_row_error(row) is None && entry_read_from(e, row),
            Err(err) => entry_row_error(row) == Some(err@),
        },
{
    let ghost row0 = row;
    let EntryRow {
        id,
        repo_id,
        source_worktree,
        source_branch,
        target_branch,
        status,
        last_outcome,
        enqueued_at,
        started_at,
        finished_at,
        failure_reason,
        ci_log_dir,
        merge_log_path,
        conflict_session_id,
        message,
        claimed_by_pid,
        claimed_at,
    } = row;
    let id = match QueueEntryId::parse_str(id.as_str()) {
        Ok(i) => i,
        Err(e) => return Err(e),
    };
    let repo_id = match RepoId::parse_str(repo_id.as_str()) {
        Ok(i) => i,
        Err(e) => return Err(e),
    };
    let status = match parse_status(status.as_str()) {
        Ok(s) => s,
        Err(e) => return Err(e),
    };
    let last_outcome = match read_outcome(last_outcome) {
        Ok(o) => o,
        Err(e) => return Err(e),
    };
    let enqueued_at = match read_time(enqueued_at) {
        Ok(t) => t,
        Err(e) => return Err(e),
    };
    let started_at = match read_opt_time(started_at) {
        Ok(t) => t,
        Err(e) => return Err(e),
    };
    let finished_at = match read_opt_time(finished_at) {
        Ok(t) => t,
        Err(e) => return Err(e),
    };
    let failure_reason = match read_reason(failure_reason) {
        Ok(o) => o,
        Err(e) => return Err(e),
    };
    let conflict_session_id = match read_session_id(conflict_session_id) {
        Ok(c) => c,
        Err(e) => return Err(e),
    };
    let claimed_by_pid = read_pid(claimed_by_pid);
    let claimed_at = match read_opt_time(claimed_at) {
        Ok(t) => t,
        Err(e) => return Err(e),
    };
    Ok(QueueEntry {
        id,
        repo_id,
        source_worktree,
        source_branch,
        target_branch,
        status,
        last_outcome,
        enqueued_at,
        started_at,
        finished_at,
        failure_reason,
        ci_log_dir,
        merge_log_path,
        conflict_session_id,
        message,
        claimed_by_pid,
        claimed_at,
    })
}

/// A copy of an optional text.
fn copy_opt(t: &Option<String>) -> (r: Option<String>)
    ensures
        view_opt(r) == view_opt(*t),
{
    match t {
        Some(s) => Some(owned(s.as_str())),
        None => None,
    }
}

/// Writes a queue entry as a row.
pub fn entry_to_row(e: &QueueEntry) -> (r: EntryRow)
    ensures
        entry_written_as(*e, r),
{
    let last_outcome = match e.last_outcome {
        Some(o) => Some(owned(o.as_str())),
        None => None,
    };
    let failure_reason = match e.failure_reason {
        Some(x) => Some(owned(x.as_str())),
        None => None,
    };
    let conflict_session_id = match e.conflict_session_id {
        Some(c) => Some(c.to_string()),
        None => None,
    };
    let claimed_by_pid = match e.claimed_by_pid {
        Some(p) => Some(p as i64),
        None => None,
    };
    EntryRow {
        id: e.id.to_string(),
        repo_id: e.repo_id.to_string(),
        source_worktree: owned(e.source_worktree.as_str()),
        source_branch: owned(e.source_branch.as_str()),
        target_branch: owned(e.target_branch.as_str()),
        status: owned(e.status.as_str()),
        last_outcome,
        enqueued_at: write_time(e.enqueued_at),
        started_at: write_opt_time(e.started_at),
        finished_at: write_opt_time(e.finished_at),
        failure_reason,
        ci_log_dir: copy_opt(&e.ci_log_dir),
        merge_log_path: copy_opt(&e.merge_log_path),
        conflict_session_id,
        message: copy_opt(&e.message),
        claimed_by_pid,
        claimed_at: write_opt_time(e.claimed_at),
    }
}

/// A stored time written for a storable instant is in range, and reads back
/// as that instant.
pub(crate) proof fn lemma_time_round_trip(t: time::OffsetDateTime, secs: i64)
    requires
        time_written(t, secs),
        storable_time(t),
    ensures
        timestamp_in_range(secs),
        datetime_of_unix(secs) == t,
{
    let s = choose|s: i64| timestamp_in_range(s) && t == #[trigger] datetime_of_unix(s);
    assert(secs == s);
}

/// `lemma_time_round_trip` for optional times.
pub(crate) proof fn lemma_opt_time_round_trip(t: Option<time::OffsetDateTime>, ts: Option<i64>)
    requires
        opt_time_written(t, ts),
        storable_opt_time(t),
    ensures
        opt_time_ok(ts),
        opt_time(ts) == t,
{
    if let Some(x) = t {
        lemma_time_round_trip(x, ts->0);
    }
}

/// What the store reads back of the row it wrote for an entry is that
/// entry, provided its times are ones the store keeps exactly (whole
/// seconds in UTC within the supported years): the row reads without
/// error, and whatever it reads as holds the entry's values.
pub proof fn lemma_entry_round_trip(e: QueueEntry, row: EntryRow)
    requires
        entry_written_as(e, row),
        entry_times_storable(e),
    ensures
        entry_row_error(row) is None,
        forall|d: QueueEntry| entry_read_from(d, row) ==> same_entry(d, e),
{
    lemma_time_round_trip(e.enqueued_at, row.enqueued_at);
    lemma_opt_time_round_trip(e.started_at, row.started_at);
    lemma_opt_time_round_trip(e.finished_at, row.finished_at);
    lemma_opt_time_round_trip(e.claimed_at, row.claimed_at);
    assert(is_status_name(row.status@)) by {
        assert(status_name(e.status) == row.status@);
    }
    if let Some(o) = e.last_outcome {
        assert(outcome_name(o) == row.last_outcome->0@);
    }
    if let Some(x) = e.failure_reason {
        assert(reason_name(x) == row.failure_reason->0@);
    }
    assert forall|d: QueueEntry| entry_read_from(d, row) implies same_entry(d, e) by {
        lemma_status_names_distinct(d.status, e.status);
        if let (Some(a), Some(b)) = (d.last_outcome, e.last_outcome) {
            lemma_outcome_names_distinct(a, b);
        }
        if let (Some(a), Some(b)) = (d.failure_reason, e.failure_reason) {
            lemma_reason_names_distinct(a, b);
        }
        if let Some(p) = e.claimed_by_pid {
            assert(row.claimed_by_pid == Some(p as i64));
        }
    }
}

/// The error of an update that found no entry with the id.
pub fn missing_entry(id: QueueEntryId) -> (e: Error)
    ensures
        e@ == ErrorView::NotFound("entry "@ + hyphenated_text(id.0)),
{
    let t = id.to_string();
    Error::NotFound(joined("entry ", t.as_str()))
}

/// The error of an update that found no repository with the id.
pub fn missing_repo(id: RepoId) -> (e: Error)
    ensures
        e@ == ErrorView::NotFound("repo "@ + hyphenated_text(id.0)),
{
    let t = id.to_string();
    Error::NotFound(joined("repo ", t.as_str()))
}

} // verus!

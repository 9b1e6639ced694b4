use std::time::Duration;

use mergequeue::domain::agent_backend::AgentBackend;
use mergequeue::domain::conflict::{ConflictOutcome, ConflictSession};
use mergequeue::domain::ids::{ConflictSessionId, QueueEntryId, RepoId};
use mergequeue::domain::ports::EntryFilter;
use mergequeue::domain::queue::{MergeFailureReason, QueueEntry, QueueStatus, StepOutcome};
use mergequeue::domain::repo::{RegisteredRepo, RepoCiConfig};
use mergequeue::error::Error;
use mergequeue::store::codec::{parse_conflict_outcome, parse_failure_reason, parse_outcome, parse_status};
use mergequeue::store::lock::{lock_holder_pid, parse_u32};
use mergequeue::store::migrations::{pending_migrations, SUPPORTED_VERSION};
use mergequeue::store::queries::{entry_list_query, sweep_query};
use mergequeue::store::repo_rows::{repo_from_row, repo_to_row};
use mergequeue::store::rows::{
    entry_from_row, entry_to_row, missing_entry, missing_repo, read_time, EntryRow,
};
use mergequeue::store::session_rows::{conflict_from_row, conflict_to_row};

fn at(secs: i64) -> time::OffsetDateTime {
    time::OffsetDateTime::from_unix_timestamp(secs).unwrap()
}

fn sample_entry() -> QueueEntry {
    QueueEntry {
        id: QueueEntryId(0x1234_5678_9abc_4def_8123_4567_89ab_cdef),
        repo_id: RepoId(0x0fed_cba9_8765_4321_8fed_cba9_8765_4321),
        source_worktree: "/work/feat".into(),
        source_branch: "feat/x".into(),
        target_branch: "main".into(),
        status: QueueStatus::CIRunning,
        last_outcome: Some(StepOutcome::LintPassed),
        enqueued_at: at(1_700_000_000),
        started_at: Some(at(1_700_000_010)),
        finished_at: None,
        failure_reason: Some(MergeFailureReason::CITestsFailed),
        ci_log_dir: Some("/state/runs/x".into()),
        merge_log_path: None,
        conflict_session_id: Some(ConflictSessionId(7)),
        message: Some("hello".into()),
        claimed_by_pid: Some(42),
        claimed_at: Some(at(1_700_000_011)),
    }
}

fn sample_row() -> EntryRow {
    entry_to_row(&sample_entry())
}

#[test]
fn entry_row_round_trip() {
    let e = sample_entry();
    let row = entry_to_row(&e);
    assert_eq!(row.status, "CIRunning");
    assert_eq!(row.last_outcome.as_deref(), Some("LintPassed"));
    assert_eq!(row.failure_reason.as_deref(), Some("CITestsFailed"));
    assert_eq!(row.enqueued_at, 1_700_000_000);
    assert_eq!(row.claimed_by_pid, Some(42));
    assert_eq!(row.id, "12345678-9abc-4def-8123-456789abcdef");
    let d = entry_from_row(row).unwrap();
    assert_eq!(d.id, e.id);
    assert_eq!(d.repo_id, e.repo_id);
    assert_eq!(d.source_worktree, e.source_worktree);
    assert_eq!(d.source_branch, e.source_branch);
    assert_eq!(d.target_branch, e.target_branch);
    assert_eq!(d.status, e.status);
    assert_eq!(d.last_outcome, e.last_outcome);
    assert_eq!(d.enqueued_at, e.enqueued_at);
    assert_eq!(d.started_at, e.started_at);
    assert_eq!(d.finished_at, e.finished_at);
    assert_eq!(d.failure_reason, e.failure_reason);
    assert_eq!(d.ci_log_dir, e.ci_log_dir);
    assert_eq!(d.conflict_session_id, e.conflict_session_id);
    assert_eq!(d.message, e.message);
    assert_eq!(d.claimed_by_pid, e.claimed_by_pid);
    assert_eq!(d.claimed_at, e.claimed_at);
}

#[test]
fn entry_row_bad_id_is_first_error() {
    let mut row = sample_row();
    row.id = "not-a-uuid".into();
    row.status = "Nope".into();
    match entry_from_row(row) {
        Err(Error::Invalid(m)) => assert_eq!(m, "invalid id: not-a-uuid"),
        other => panic!("unexpected {other:?}"),
    }
}

#[test]
fn entry_row_unknown_status() {
    let mut row = sample_row();
    row.status = "Nope".into();
    match entry_from_row(row) {
        Err(Error::Other(m)) => assert_eq!(m, "unknown status Nope"),
        other => panic!("unexpected {other:?}"),
    }
}

#[test]
fn entry_row_unknown_outcome_and_reason() {
    let mut row = sample_row();
    row.last_outcome = Some("Later".into());
    match entry_from_row(row) {
        Err(Error::Other(m)) => assert_eq!(m, "unknown outcome Later"),
        other => panic!("unexpected {other:?}"),
    }
    let mut row = sample_row();
    row.failure_reason = Some("Bad".into());
    match entry_from_row(row) {
        Err(Error::Other(m)) => assert_eq!(m, "unknown failure reason Bad"),
        other => panic!("unexpected {other:?}"),
    }
}

#[test]
fn entry_row_time_out_of_range() {
    let mut row = sample_row();
    row.started_at = Some(-400_000_000_000);
    match entry_from_row(row) {
        Err(Error::Other(m)) => {
            assert_eq!(m, "invalid timestamp -400000000000: timestamp was not in range")
        }
        other => panic!("unexpected {other:?}"),
    }
}

#[test]
fn entry_row_pid_outside_u32_reads_as_zero() {
    let mut row = sample_row();
    row.claimed_by_pid = Some(-5);
    assert_eq!(entry_from_row(row).unwrap().claimed_by_pid, Some(0));
}

#[test]
fn read_time_bounds() {
    assert!(read_time(253_402_300_799).is_ok());
    assert!(read_time(-377_705_116_800).is_ok());
    match read_time(253_402_300_800) {
        Err(Error::Other(m)) => {
            assert_eq!(m, "invalid timestamp 253402300800: timestamp was not in range")
        }
        other => panic!("unexpected {other:?}"),
    }
}

fn sample_repo() -> RegisteredRepo {
    RegisteredRepo {
        id: RepoId(99),
        root_path: "/code/repo".into(),
        default_branch: "main".into(),
        ci: RepoCiConfig {
            lint_command: Some("cargo clippy".into()),
            test_command: None,
            build_command: Some("cargo build".into()),
            dirty_retry: Duration::from_secs(30),
        },
        agent_backend: AgentBackend::Opencode,
        created_at: at(1_600_000_000),
        updated_at: at(1_600_000_100),
    }
}

#[test]
fn repo_row_round_trip() {
    let r = sample_repo();
    let row = repo_to_row(&r);
    assert_eq!(row.dirty_retry_ms, 30_000);
    assert_eq!(row.agent_backend, "opencode");
    let d = repo_from_row(row).unwrap();
    assert_eq!(d.id, r.id);
    assert_eq!(d.root_path, r.root_path);
    assert_eq!(d.ci.lint_command, r.ci.lint_command);
    assert_eq!(d.ci.test_command, r.ci.test_command);
    assert_eq!(d.ci.build_command, r.ci.build_command);
    assert_eq!(d.ci.dirty_retry, Duration::from_secs(30));
    assert_eq!(d.created_at, r.created_at);
    assert_eq!(d.updated_at, r.updated_at);
}

#[test]
fn repo_row_negative_retry_and_bad_backend() {
    let mut row = repo_to_row(&sample_repo());
    row.dirty_retry_ms = -1;
    assert_eq!(repo_from_row(row).unwrap().ci.dirty_retry, Duration::ZERO);
    let mut row = repo_to_row(&sample_repo());
    row.agent_backend = "emacs".into();
    match repo_from_row(row) {
        Err(Error::Invalid(m)) => assert_eq!(m, "unknown agent backend: emacs"),
        other => panic!("unexpected {other:?}"),
    }
}

#[test]
fn conflict_row_round_trip() {
    let s = ConflictSession {
        id: ConflictSessionId(5),
        queue_entry_id: QueueEntryId(6),
        agent_backend: AgentBackend::Opencode,
        tmux_session: "mergesmith-test".into(),
        tmux_window: "test-window".into(),
        started_at: at(1_650_000_000),
        ended_at: Some(at(1_650_000_500)),
        outcome: Some(ConflictOutcome::Abandoned),
    };
    let row = conflict_to_row(&s);
    assert_eq!(row.outcome.as_deref(), Some("Abandoned"));
    let d = conflict_from_row(row).unwrap();
    assert_eq!(d.id, s.id);
    assert_eq!(d.queue_entry_id, s.queue_entry_id);
    assert_eq!(d.tmux_session, s.tmux_session);
    assert_eq!(d.tmux_window, s.tmux_window);
    assert_eq!(d.started_at, s.started_at);
    assert_eq!(d.ended_at, s.ended_at);
    assert_eq!(d.outcome, s.outcome);
}

#[test]
fn conflict_row_unknown_outcome() {
    let s = ConflictSession {
        id: ConflictSessionId(5),
        queue_entry_id: QueueEntryId(6),
        agent_backend: AgentBackend::Opencode,
        tmux_session: "s".into(),
        tmux_window: "w".into(),
        started_at: at(1),
        ended_at: None,
        outcome: None,
    };
    let mut row = conflict_to_row(&s);
    row.outcome = Some("Gone".into());
    match conflict_from_row(row) {
        Err(Error::Other(m)) => assert_eq!(m, "unknown conflict outcome Gone"),
        other => panic!("unexpected {other:?}"),
    }
}

#[test]
fn missing_record_errors() {
    match missing_entry(QueueEntryId(1)) {
        Error::NotFound(m) => assert_eq!(m, "entry 00000000-0000-0000-0000-000000000001"),
        other => panic!("unexpected {other:?}"),
    }
    match missing_repo(RepoId(2)) {
        Error::NotFound(m) => assert_eq!(m, "repo 00000000-0000-0000-0000-000000000002"),
        other => panic!("unexpected {other:?}"),
    }
}

#[test]
fn list_query_unfiltered() {
    let (sql, binds) = entry_list_query(&EntryFilter::all());
    assert_eq!(sql, "SELECT * FROM queue_entries ORDER BY enqueued_at");
    assert!(binds.is_empty());
}

#[test]
fn list_query_by_repo_and_status() {
    let f = EntryFilter::by_repo(RepoId(2)).with_status(vec![QueueStatus::Queued, QueueStatus::Merged]);
    let (sql, binds) = entry_list_query(&f);
    assert_eq!(
        sql,
        "SELECT * FROM queue_entries WHERE repo_id = ?1 AND status IN (?2,?3) ORDER BY enqueued_at"
    );
    assert_eq!(binds, vec!["00000000-0000-0000-0000-000000000002", "Queued", "Merged"]);
}

#[test]
fn list_query_status_only_and_empty_status_list() {
    let f = EntryFilter::all().with_status(vec![QueueStatus::Failed]);
    let (sql, binds) = entry_list_query(&f);
    assert_eq!(sql, "SELECT * FROM queue_entries WHERE status IN (?1) ORDER BY enqueued_at");
    assert_eq!(binds, vec!["Failed"]);
    let f = EntryFilter::by_repo(RepoId(3)).with_status(vec![]);
    let (sql, binds) = entry_list_query(&f);
    assert_eq!(sql, "SELECT * FROM queue_entries WHERE repo_id = ?1 ORDER BY enqueued_at");
    assert_eq!(binds.len(), 1);
}

#[test]
fn sweep_query_placeholders() {
    let (sql, binds) = sweep_query(&vec![]);
    assert!(sql.ends_with("AND claimed_by_pid IS NOT NULL"));
    assert!(binds.is_empty());
    let (sql, binds) = sweep_query(&vec![100, 200]);
    assert!(sql.ends_with(" AND claimed_by_pid NOT IN (?1,?2)"));
    assert_eq!(binds, vec![100i64, 200]);
}

#[test]
fn migrations_pending() {
    assert_eq!(SUPPORTED_VERSION, 2);
    assert_eq!(pending_migrations(0, &vec![1, 2]).unwrap(), vec![0, 1]);
    assert_eq!(pending_migrations(1, &vec![1, 2]).unwrap(), vec![1]);
    assert!(pending_migrations(2, &vec![1, 2]).unwrap().is_empty());
    match pending_migrations(3, &vec![1, 2]) {
        Err(Error::SchemaTooNew { found, supported }) => {
            assert_eq!(found, 3);
            assert_eq!(supported, 2);
        }
        other => panic!("unexpected {other:?}"),
    }
}

#[test]
fn codec_names() {
    assert_eq!(parse_status("NeedsHelp").unwrap(), QueueStatus::NeedsHelp);
    assert!(parse_status("queued").is_err());
    assert_eq!(parse_outcome("FastForwardRejected").unwrap(), StepOutcome::FastForwardRejected);
    assert_eq!(
        parse_failure_reason("UncleanShutdown").unwrap(),
        MergeFailureReason::UncleanShutdown
    );
    assert_eq!(parse_conflict_outcome("AgentCrashed").unwrap(), ConflictOutcome::AgentCrashed);
}

#[test]
fn lock_pid_contents() {
    assert_eq!(lock_holder_pid("4242\n"), 4242);
    assert_eq!(lock_holder_pid("  17  "), 17);
    assert_eq!(lock_holder_pid("garbage"), 0);
    assert_eq!(lock_holder_pid(""), 0);
    assert_eq!(parse_u32("+7"), Some(7));
    assert_eq!(parse_u32("4294967296"), None);
}

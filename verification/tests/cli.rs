use mergequeue::cli::commands::{
    branch_refusal, cancel_entry, entry_log_dir, new_queue_entry, new_registered_repo,
    pick_repo_for_worktree, resolve_id, resolve_repo_id, retry_entry, still_open, truncate,
};
use mergequeue::domain::agent_backend::AgentBackend;
use mergequeue::domain::conflict::ConflictSession;
use mergequeue::domain::ids::{ConflictSessionId, QueueEntryId, RepoId};
use mergequeue::domain::queue::{MergeFailureReason, QueueEntry, QueueStatus, StepOutcome};
use mergequeue::domain::repo::RegisteredRepo;
use mergequeue::error::Error;

fn at(secs: i64) -> time::OffsetDateTime {
    time::OffsetDateTime::from_unix_timestamp(secs).unwrap()
}

fn repo(id: u128, root: &str) -> RegisteredRepo {
    new_registered_repo(root.into(), "main".into(), None, None, None, at(1)).with_id(id)
}

trait WithId {
    fn with_id(self, id: u128) -> Self;
}

impl WithId for RegisteredRepo {
    fn with_id(mut self, id: u128) -> Self {
        self.id = RepoId(id);
        self
    }
}

fn queued() -> QueueEntry {
    let r = repo(1, "/code/r");
    new_queue_entry(&r, "/work/x".into(), "feat/x".into(), None, Some("m".into()), at(5))
}

#[test]
fn new_entry_defaults_to_repo_branch() {
    let e = queued();
    assert_eq!(e.target_branch, "main");
    assert_eq!(e.status, QueueStatus::Queued);
    assert_eq!(e.last_outcome, None);
    assert_eq!(e.enqueued_at, at(5));
    let r = repo(1, "/code/r");
    let e2 = new_queue_entry(&r, "/w".into(), "b".into(), Some("dev".into()), None, at(6));
    assert_eq!(e2.target_branch, "dev");
}

#[test]
fn new_repo_defaults() {
    let r = new_registered_repo("/c".into(), "trunk".into(), Some("l".into()), None, None, at(3));
    assert_eq!(r.ci.dirty_retry, std::time::Duration::from_secs(30));
    assert_eq!(r.agent_backend, AgentBackend::Opencode);
    assert_eq!(r.created_at, at(3));
    assert_eq!(r.updated_at, at(3));
    assert_eq!(r.ci.lint_command.as_deref(), Some("l"));
}

#[test]
fn cancel_only_non_terminal() {
    let mut e = queued();
    assert!(cancel_entry(&mut e, at(9)));
    assert_eq!(e.status, QueueStatus::Cancelled);
    assert_eq!(e.failure_reason, Some(MergeFailureReason::UserCancelled));
    assert_eq!(e.finished_at, Some(at(9)));
    assert!(!cancel_entry(&mut e, at(10)));
    assert_eq!(e.finished_at, Some(at(9)));
}

#[test]
fn retry_from_needs_help_resumes_after_agent() {
    let mut e = queued();
    e.status = QueueStatus::NeedsHelp;
    e.conflict_session_id = Some(ConflictSessionId(4));
    e.failure_reason = Some(MergeFailureReason::RebaseUnresolvable);
    assert_eq!(retry_entry(&mut e), Some(Some(ConflictSessionId(4))));
    assert_eq!(e.status, QueueStatus::Queued);
    assert_eq!(e.last_outcome, Some(StepOutcome::AgentResolvedConflict));
    assert_eq!(e.failure_reason, None);
    let mut f = queued();
    f.status = QueueStatus::Failed;
    assert_eq!(retry_entry(&mut f), Some(None));
    assert_eq!(f.last_outcome, None);
    let mut g = queued();
    assert_eq!(retry_entry(&mut g), None);
}

#[test]
fn ids_resolve_by_prefix() {
    let a = QueueEntryId(0xabcd0000_0000_4000_8000_000000000001);
    let b = QueueEntryId(0xabce0000_0000_4000_8000_000000000002);
    let known = vec![a, b];
    assert_eq!(resolve_id("abcd", &known).unwrap(), a);
    assert_eq!(resolve_id("abcd0000-0000-4000-8000-000000000001", &known).unwrap(), a);
    match resolve_id("abc", &known) {
        Err(Error::Invalid(m)) => assert_eq!(m, "id `abc` is too short (need ≥4 chars or full UUID)"),
        other => panic!("unexpected {other:?}"),
    }
    match resolve_id("abc0", &known) {
        Err(Error::NotFound(m)) => assert_eq!(m, "entry abc0"),
        other => panic!("unexpected {other:?}"),
    }
    let c = QueueEntryId(0xabcd1000_0000_4000_8000_000000000003);
    match resolve_id("abcd", &vec![a, c]) {
        Err(Error::Invalid(m)) => assert_eq!(m, "id `abcd` is ambiguous (2 matches)"),
        other => panic!("unexpected {other:?}"),
    }
}

#[test]
fn repos_resolve_by_prefix_or_root() {
    let repos = vec![repo(0x1111 << 112, "/code/a"), repo(0x2222 << 112, "/code/b")];
    assert_eq!(resolve_repo_id("2222", &repos).unwrap(), RepoId(0x2222 << 112));
    assert_eq!(resolve_repo_id("/code/a", &repos).unwrap(), RepoId(0x1111 << 112));
    assert!(matches!(resolve_repo_id("/code/c", &repos), Err(Error::NotFound(_))));
}

#[test]
fn worktree_picks_exact_then_ancestor() {
    let repos = vec![repo(1, "/code"), repo(2, "/code/app")];
    assert_eq!(pick_repo_for_worktree(&repos, "/code/app").unwrap().id, RepoId(2));
    assert_eq!(pick_repo_for_worktree(&repos, "/code/app/wt").unwrap().id, RepoId(1));
    assert!(pick_repo_for_worktree(&repos, "/elsewhere").is_none());
}

#[test]
fn refuses_own_target() {
    assert_eq!(
        branch_refusal("main", "main").as_deref(),
        Some("cannot enqueue: source branch `main` is the target branch.")
    );
    assert!(branch_refusal("feat", "main").is_none());
}

#[test]
fn log_dir_falls_back_to_runs() {
    let mut e = queued();
    e.id = QueueEntryId(1);
    assert_eq!(entry_log_dir(&e, "/state"), "/state/runs/00000000-0000-0000-0000-000000000001");
    e.ci_log_dir = Some("/x/y".into());
    assert_eq!(entry_log_dir(&e, "/state"), "/x/y");
}

#[test]
fn truncates_with_ellipsis() {
    assert_eq!(truncate("short", 24), "short");
    assert_eq!(truncate("abcdefghij", 5), "abcd…");
    assert_eq!(truncate("abcde", 5), "abcde");
}

#[test]
fn retried_session_closed_only_while_open() {
    let mut s = ConflictSession {
        id: ConflictSessionId(1),
        queue_entry_id: QueueEntryId(2),
        agent_backend: AgentBackend::Opencode,
        tmux_session: "s".into(),
        tmux_window: "w".into(),
        started_at: at(1),
        ended_at: None,
        outcome: None,
    };
    assert!(still_open(&s));
    s.ended_at = Some(at(2));
    assert!(!still_open(&s));
}

#[test]
fn truncate_empty_text_to_zero() {
    assert_eq!(truncate("", 0), "");
}

#[test]
fn fresh_entries_have_version_4_ids() {
    let t = queued().id.to_string();
    assert_eq!(t.chars().nth(14), Some('4'));
}

use std::time::Duration;

use mergequeue::agents::prompts::RenderedPrompt;
use mergequeue::agents::resolve::{missing_session, recorded_session, repoint_session, reuse_window};
use mergequeue::agents::tmux::{attach_verb, interpret_attach, ProcessTmux};
use mergequeue::domain::agent_backend::AgentBackend;
use mergequeue::domain::conflict::ConflictSession;
use mergequeue::domain::ids::{ConflictSessionId, QueueEntryId, RepoId};
use mergequeue::domain::ports::{FastForwardOutcome, RebaseOutcome, TmuxHandle};
use mergequeue::domain::queue::{MergeFailureReason, QueueEntry, QueueStatus, StepOutcome};
use mergequeue::domain::repo::{RegisteredRepo, RepoCiConfig};
use mergequeue::domain::state_machine::{NextAction, TerminalStatus};
use mergequeue::engine::ci::CiRunner;
use mergequeue::engine::details::{
    dirty_target_detail, record_step_detail, record_terminal_detail, QueueEntryDetailStatus,
};
use mergequeue::engine::handoff::{ci_command_hint, conflict_prompt, handoff_details, handoff_outcome, HandoffAttempt};
use mergequeue::engine::pool::{plan_reconciliation, WorkerTable};
use mergequeue::engine::recovery::{is_abandoned, session_window};
use mergequeue::engine::worker::{
    begin_processing, fast_forward_step_outcome, finalize_entry, next_step, precheck_outcome,
    prepare_step, rebase_step_outcome, record_step,
};
use mergequeue::error::Error;
use mergequeue::git::process_git::ProcessGit;
use mergequeue::paths::state_root_from;

fn at(secs: i64) -> time::OffsetDateTime {
    time::OffsetDateTime::from_unix_timestamp(secs).unwrap()
}

fn entry() -> QueueEntry {
    QueueEntry {
        id: QueueEntryId(0xabcdef12_3456_4789_8abc_def012345678),
        repo_id: RepoId(1),
        source_worktree: "/work/a".into(),
        source_branch: "feat/a".into(),
        target_branch: "main".into(),
        status: QueueStatus::Rebasing,
        last_outcome: Some(StepOutcome::PrecheckOk),
        enqueued_at: at(10),
        started_at: Some(at(11)),
        finished_at: None,
        failure_reason: None,
        ci_log_dir: None,
        merge_log_path: None,
        conflict_session_id: None,
        message: None,
        claimed_by_pid: Some(7),
        claimed_at: Some(at(11)),
    }
}

fn repo(lint: bool) -> RegisteredRepo {
    RegisteredRepo {
        id: RepoId(1),
        root_path: "/code/mergequeue".into(),
        default_branch: "main".into(),
        ci: RepoCiConfig {
            lint_command: if lint { Some("cargo clippy".into()) } else { None },
            test_command: Some("cargo test".into()),
            build_command: None,
            dirty_retry: Duration::from_secs(30),
        },
        agent_backend: AgentBackend::Opencode,
        created_at: at(1),
        updated_at: at(1),
    }
}

#[test]
fn precheck_decisions() {
    assert_eq!(precheck_outcome(true, true), StepOutcome::PrecheckDirtyTarget);
    assert_eq!(precheck_outcome(true, false), StepOutcome::PrecheckOk);
    assert_eq!(precheck_outcome(false, true), StepOutcome::PrecheckOk);
}

#[test]
fn dirty_target_returns_to_queue_without_claim() {
    let mut e = entry();
    assert!(begin_processing(&mut e, StepOutcome::PrecheckDirtyTarget));
    assert_eq!(e.status, QueueStatus::Queued);
    assert_eq!(e.claimed_by_pid, None);
    assert_eq!(e.last_outcome, Some(StepOutcome::PrecheckDirtyTarget));
}

#[test]
fn happy_path_without_ci_reaches_merged() {
    let cfg = RepoCiConfig::default();
    let mut e = entry();
    assert!(!begin_processing(&mut e, StepOutcome::PrecheckOk));
    let a = next_step(&e, &cfg).unwrap();
    assert_eq!(a, NextAction::Rebase);
    record_step(&mut e, a, rebase_step_outcome(&RebaseOutcome::Success));
    let a = next_step(&e, &cfg).unwrap();
    assert_eq!(a, NextAction::FastForward);
    record_step(&mut e, a, fast_forward_step_outcome(&FastForwardOutcome::Success));
    let a = next_step(&e, &cfg).unwrap();
    assert_eq!(a, NextAction::Finalize(TerminalStatus::Merged));
    finalize_entry(&mut e, TerminalStatus::Merged, at(99));
    assert_eq!(e.status, QueueStatus::Merged);
    assert_eq!(e.finished_at, Some(at(99)));
    assert_eq!(e.claimed_by_pid, None);
    assert_eq!(e.failure_reason, None);
}

#[test]
fn other_rebase_errors_become_conflicts() {
    assert_eq!(
        rebase_step_outcome(&RebaseOutcome::OtherError("boom".into())),
        StepOutcome::RebaseConflict
    );
    assert_eq!(
        fast_forward_step_outcome(&FastForwardOutcome::OtherError("x".into())),
        StepOutcome::FastForwardRejected
    );
}

#[test]
fn next_step_outside_domain_is_none() {
    let mut e = entry();
    e.status = QueueStatus::Merged;
    e.last_outcome = Some(StepOutcome::RebaseOk);
    assert!(next_step(&e, &RepoCiConfig::default()).is_none());
    e.last_outcome = None;
    assert!(next_step(&e, &RepoCiConfig::default()).is_none());
}

#[test]
fn ci_step_sets_log_dir() {
    let mut e = entry();
    prepare_step(&mut e, NextAction::RunLint, "/state/runs");
    assert_eq!(
        e.ci_log_dir.as_deref(),
        Some("/state/runs/abcdef12-3456-4789-8abc-def012345678")
    );
    let mut f = entry();
    prepare_step(&mut f, NextAction::Rebase, "/state/runs");
    assert_eq!(f.ci_log_dir, None);
}

#[test]
fn ci_runner_paths() {
    let ci = CiRunner::new("/state/runs");
    let e = entry();
    assert_eq!(ci.entry_dir(&e), "/state/runs/abcdef12-3456-4789-8abc-def012345678");
    assert_eq!(
        ci.log_path(&e, "test"),
        "/state/runs/abcdef12-3456-4789-8abc-def012345678/ci-test.log"
    );
}

#[test]
fn step_and_terminal_notes() {
    let mut e = entry();
    e.ci_log_dir = Some("/r/x".into());
    let n = record_step_detail(&e, NextAction::RunLint, StepOutcome::LintFailed).unwrap();
    assert_eq!(n.status, QueueEntryDetailStatus::Blocked);
    assert_eq!(n.title, "Lint failed");
    assert_eq!(n.detail.as_deref(), Some("log: /r/x/ci-lint.log"));
    let n = record_step_detail(&e, NextAction::Rebase, StepOutcome::RebaseOk).unwrap();
    assert_eq!(n.detail.as_deref(), Some("feat/a onto main"));
    assert!(record_step_detail(&e, NextAction::Rebase, StepOutcome::LintPassed).is_none());
    let (h, n) = record_terminal_detail(&e, TerminalStatus::Failed(MergeFailureReason::CILintFailed));
    assert_eq!(h, "Blocked: CILintFailed");
    assert!(n.is_none());
    let (h, n) = record_terminal_detail(&e, TerminalStatus::Merged);
    assert_eq!(h, "Merged successfully");
    assert_eq!(n.unwrap().detail.as_deref(), Some("feat/a -> main"));
}

#[test]
fn dirty_target_note() {
    let (h, n) = dirty_target_detail("/code/repo", "30s");
    assert_eq!(h, "Waiting for target worktree to be clean");
    assert_eq!(n.title, "Target worktree is dirty");
    assert_eq!(
        n.detail.as_deref(),
        Some("/code/repo has uncommitted changes; will retry after 30s")
    );
}

#[test]
fn handoff_prompt_and_notes() {
    let r = repo(true);
    let p = conflict_prompt(&r, &entry(), vec!["src/lib.rs".into()]);
    assert_eq!(p.repo_name, "mergequeue");
    assert_eq!(p.ci_command_hint.as_deref(), Some("cargo clippy && cargo test"));
    assert_eq!(ci_command_hint(&repo(false)).as_deref(), Some("cargo test"));
    let (h, files, agent) = handoff_details(
        &vec!["a.rs".into(), "b.rs".into()],
        true,
        "mergequeue-1",
        "conflict-abc",
        None,
        AgentBackend::Opencode,
    );
    assert_eq!(h, "Needs help resolving merge conflicts");
    assert_eq!(files.detail.as_deref(), Some("a.rs, b.rs"));
    assert_eq!(agent.title, "opencode handoff");
    assert_eq!(agent.detail.as_deref(), Some("Attach with `t` to tmux mergequeue-1:conflict-abc"));
    let (_, files, agent) =
        handoff_details(&vec![], false, "s", "w", None, AgentBackend::Opencode);
    assert_eq!(files.detail, None);
    assert_eq!(
        agent.detail.as_deref(),
        Some("Agent did not launch automatically: unknown error")
    );
}

#[test]
fn reconcile_plan_converges() {
    let running = vec![RepoId(1), RepoId(2)];
    let desired = vec![RepoId(2), RepoId(3)];
    let plan = plan_reconciliation(&running, &desired, true);
    assert_eq!(plan.stopped, vec![RepoId(1)]);
    assert_eq!(plan.started, vec![RepoId(3)]);
    let after = vec![RepoId(2), RepoId(3)];
    let again = plan_reconciliation(&after, &desired, true);
    assert!(again.started.is_empty() && again.stopped.is_empty());
    let closing = plan_reconciliation(&running, &desired, false);
    assert!(closing.started.is_empty());
    assert_eq!(closing.stopped, vec![RepoId(1)]);
}

fn session() -> ConflictSession {
    ConflictSession {
        id: ConflictSessionId(3),
        queue_entry_id: QueueEntryId(4),
        agent_backend: AgentBackend::Opencode,
        tmux_session: "mergequeue-1".into(),
        tmux_window: "conflict-dead".into(),
        started_at: at(5),
        ended_at: None,
        outcome: None,
    }
}

#[test]
fn closes_only_sessions_whose_window_is_gone() {
    assert!(is_abandoned(&Ok(false)));
    assert!(!is_abandoned(&Ok(true)));
    assert!(!is_abandoned(&Err(Error::Tmux("tmux not on PATH".into()))));
    let h = session_window(&session());
    assert_eq!(h.session, "mergequeue-1");
    assert_eq!(h.window, "conflict-dead");
}

#[test]
fn resolve_reuses_only_live_windows() {
    assert!(reuse_window(&Ok(true)));
    assert!(!reuse_window(&Ok(false)));
    assert!(!reuse_window(&Err(Error::Tmux("x".into()))));
    match recorded_session(&entry()) {
        Err(Error::Invalid(m)) => assert_eq!(m, "entry abcdef has no conflict session recorded"),
        other => panic!("unexpected {other:?}"),
    }
    let mut e = entry();
    repoint_session(&mut e, ConflictSessionId(9));
    assert_eq!(recorded_session(&e).unwrap(), ConflictSessionId(9));
    match missing_session(ConflictSessionId(9)) {
        Error::NotFound(m) => assert_eq!(m, "conflict session 00000000-0000-0000-0000-000000000009"),
        other => panic!("unexpected {other:?}"),
    }
}

#[test]
fn combined_puts_rule_between_parts() {
    let r = RenderedPrompt { system: "sys  \n".into(), user: "usr".into() };
    assert_eq!(r.combined(), "sys\n\n---\n\nusr");
    assert!(r.combined().contains("\n---\n"));
}

#[test]
fn tmux_answers() {
    assert!(ProcessTmux::interpret_window_listing(true, "mergequeue\nconflict-a\n", "conflict-a"));
    assert!(!ProcessTmux::interpret_window_listing(true, "conflict-ab\n", "conflict-a"));
    assert!(!ProcessTmux::interpret_window_listing(false, "conflict-a\n", "conflict-a"));
    match ProcessTmux::interpret_send_keys("s:w", false, " no server \n") {
        Err(Error::Tmux(m)) => assert_eq!(m, "send-keys -t s:w failed: no server"),
        other => panic!("unexpected {other:?}"),
    }
    let h = TmuxHandle { session: "s".into(), window: "w".into() };
    assert_eq!(ProcessTmux::target(&h), "s:w");
}

#[test]
fn git_answers() {
    assert_eq!(ProcessGit::interpret_status(true, " M a.rs\n", "").unwrap(), true);
    assert_eq!(ProcessGit::interpret_status(true, "  \n", "").unwrap(), false);
    assert_eq!(
        ProcessGit::interpret_rebase(false, "CONFLICT (content): a.rs", ""),
        RebaseOutcome::Conflict
    );
    assert_eq!(
        ProcessGit::interpret_rebase(false, "", " fatal: bad ref \n"),
        RebaseOutcome::OtherError("fatal: bad ref".into())
    );
    assert_eq!(
        ProcessGit::interpret_fast_forward(false, "", "fatal: Not possible to fast-forward, aborting."),
        FastForwardOutcome::NonFastForward
    );
    assert_eq!(ProcessGit::interpret_fast_forward(true, "", ""), FastForwardOutcome::Success);
    assert_eq!(
        ProcessGit::interpret_conflicted_files(true, "a.rs\nb/c.rs\n", "").unwrap(),
        vec!["a.rs".to_string(), "b/c.rs".to_string()]
    );
    assert!(ProcessGit::interpret_conflicted_files(true, "\n", "").unwrap().is_empty());
    match ProcessGit::interpret_toplevel(true, "  \n", "/tmp/x") {
        Err(Error::NotAGitRepo(p)) => assert_eq!(p, "/tmp/x"),
        other => panic!("unexpected {other:?}"),
    }
    assert!(ProcessGit::interpret_inside_work_tree(true, "true\n"));
}

#[test]
fn state_root_resolution() {
    assert_eq!(
        state_root_from(Some("/tmp/ms-override-xyz".into()), None, None, false).unwrap(),
        "/tmp/ms-override-xyz"
    );
    assert_eq!(
        state_root_from(Some("".into()), Some("/home/u".into()), None, false).unwrap(),
        "/home/u/.local/share/mergequeue"
    );
    assert_eq!(
        state_root_from(None, Some("/home/u".into()), Some("/xdg".into()), false).unwrap(),
        "/xdg/mergequeue"
    );
    assert_eq!(
        state_root_from(None, Some("/Users/u".into()), Some("/xdg".into()), true).unwrap(),
        "/Users/u/Library/Application Support/MergeQueue"
    );
    assert!(matches!(state_root_from(None, None, None, false), Err(Error::StateRootMissing)));
}

#[test]
fn handoff_outcome_by_stage() {
    let started = handoff_outcome(HandoffAttempt::Started(TmuxHandle {
        session: "s1".into(),
        window: "w1".into(),
    }));
    assert!(started.agent_started && started.error.is_none());
    assert_eq!(started.tmux_session, "s1");
    assert_eq!(started.tmux_window, "w1");
    let agent_failed = handoff_outcome(HandoffAttempt::AgentFailed(
        TmuxHandle { session: "s1".into(), window: "w1".into() },
        "agent: `opencode` not found on PATH".into(),
    ));
    assert!(!agent_failed.agent_started);
    assert_eq!(agent_failed.tmux_session, "s1");
    assert_eq!(agent_failed.tmux_window, "w1");
    assert_eq!(agent_failed.error.as_deref(), Some("agent: `opencode` not found on PATH"));
    let window_failed = handoff_outcome(HandoffAttempt::WindowFailed("tmux: spawn: not found".into()));
    assert!(!window_failed.agent_started);
    assert_eq!(window_failed.tmux_session, "");
    assert_eq!(window_failed.tmux_window, "");
    assert_eq!(window_failed.error.as_deref(), Some("tmux: spawn: not found"));
}

#[test]
fn attach_choices() {
    assert_eq!(attach_verb(true), "switch-client");
    assert_eq!(attach_verb(false), "attach-session");
    assert!(interpret_attach(true, "").is_ok());
    match interpret_attach(false, "  \n") {
        Err(Error::Tmux(m)) => assert_eq!(m, "attach failed"),
        other => panic!("unexpected {other:?}"),
    }
    match interpret_attach(false, " no client \n") {
        Err(Error::Tmux(m)) => assert_eq!(m, "attach failed: no client"),
        other => panic!("unexpected {other:?}"),
    }
}

#[test]
fn invalid_transition_has_no_step() {
    let mut e = entry();
    e.status = QueueStatus::Queued;
    e.last_outcome = Some(StepOutcome::LintPassed);
    assert!(next_step(&e, &RepoCiConfig::default()).is_none());
    e.last_outcome = Some(StepOutcome::UserCancelled);
    assert_eq!(
        next_step(&e, &RepoCiConfig::default()),
        Some(NextAction::Finalize(TerminalStatus::Cancelled))
    );
}

fn round(table: &mut WorkerTable<u32>, desired: &Vec<RepoId>, accepting: bool) -> (Vec<(RepoId, u32)>, Vec<RepoId>) {
    let removed = table.take_unregistered(desired);
    let started = table
        .start_missing(desired, accepting, |id| Ok::<u32, String>(id.0 as u32 * 10))
        .unwrap();
    (removed, started)
}

#[test]
fn worker_table_reconciles_and_then_stays() {
    let mut table: WorkerTable<u32> = WorkerTable::new();
    let (removed, started) = round(&mut table, &vec![RepoId(1), RepoId(2)], true);
    assert!(removed.is_empty());
    assert_eq!(started, vec![RepoId(1), RepoId(2)]);
    assert_eq!(table.len(), 2);
    let (removed, started) = round(&mut table, &vec![RepoId(2), RepoId(3)], true);
    assert_eq!(removed, vec![(RepoId(1), 10)]);
    assert_eq!(started, vec![RepoId(3)]);
    assert_eq!(table.running(), vec![RepoId(2), RepoId(3)]);
    let (removed, started) = round(&mut table, &vec![RepoId(2), RepoId(3)], true);
    assert!(removed.is_empty() && started.is_empty());
    assert_eq!(table.running(), vec![RepoId(2), RepoId(3)]);
    let (removed, started) = round(&mut table, &vec![RepoId(4)], false);
    assert!(started.is_empty());
    assert_eq!(removed, vec![(RepoId(2), 20), (RepoId(3), 30)]);
    assert_eq!(table.len(), 0);
}

#[test]
fn worker_table_keeps_started_workers_on_failure() {
    let mut table: WorkerTable<u32> = WorkerTable::new();
    let r = table.start_missing(&vec![RepoId(1), RepoId(2)], true, |id| {
        if id == RepoId(2) { Err("spawn failed".to_string()) } else { Ok(1) }
    });
    assert_eq!(r.unwrap_err(), "spawn failed");
    assert_eq!(table.running(), vec![RepoId(1)]);
    assert_eq!(table.into_pairs(), vec![(RepoId(1), 1)]);
}

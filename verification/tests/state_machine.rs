use std::time::Duration;

use mergequeue::domain::queue::{MergeFailureReason, QueueStatus, StepOutcome};
use mergequeue::domain::repo::RepoCiConfig;
use mergequeue::domain::state_machine::{
    advance_status, transition, transition_checked, NextAction, TerminalStatus,
};

fn cfg_all() -> RepoCiConfig {
    RepoCiConfig {
        lint_command: Some("lint".into()),
        test_command: Some("test".into()),
        build_command: Some("build".into()),
        dirty_retry: Duration::from_secs(30),
    }
}

fn cfg_none() -> RepoCiConfig {
    RepoCiConfig::default()
}

fn cfg_only_test() -> RepoCiConfig {
    RepoCiConfig {
        test_command: Some("test".into()),
        ..Default::default()
    }
}

fn cfg_no_lint() -> RepoCiConfig {
    RepoCiConfig {
        test_command: Some("test".into()),
        build_command: Some("build".into()),
        ..Default::default()
    }
}

#[test]
fn queued_precheck_ok_routes_to_rebase() {
    assert_eq!(
        transition(QueueStatus::Queued, StepOutcome::PrecheckOk, &cfg_all()),
        NextAction::Rebase,
    );
}

#[test]
fn queued_dirty_target_sleeps_for_configured_retry() {
    let cfg = RepoCiConfig {
        dirty_retry: Duration::from_secs(7),
        ..Default::default()
    };
    assert_eq!(
        transition(QueueStatus::Queued, StepOutcome::PrecheckDirtyTarget, &cfg),
        NextAction::Sleep(Duration::from_secs(7)),
    );
}

#[test]
fn rebase_ok_with_all_ci_runs_lint_first() {
    assert_eq!(
        transition(QueueStatus::Rebasing, StepOutcome::RebaseOk, &cfg_all()),
        NextAction::RunLint,
    );
}

#[test]
fn rebase_ok_with_no_lint_skips_to_test() {
    assert_eq!(
        transition(QueueStatus::Rebasing, StepOutcome::RebaseOk, &cfg_no_lint()),
        NextAction::RunTest,
    );
}

#[test]
fn rebase_ok_with_only_test_runs_test() {
    assert_eq!(
        transition(QueueStatus::Rebasing, StepOutcome::RebaseOk, &cfg_only_test()),
        NextAction::RunTest,
    );
}

#[test]
fn rebase_ok_with_no_ci_jumps_to_fast_forward() {
    assert_eq!(
        transition(QueueStatus::Rebasing, StepOutcome::RebaseOk, &cfg_none()),
        NextAction::FastForward,
    );
}

#[test]
fn rebase_conflict_handoff() {
    assert_eq!(
        transition(QueueStatus::Rebasing, StepOutcome::RebaseConflict, &cfg_all()),
        NextAction::HandoffToAgent,
    );
}

#[test]
fn lint_passed_routes_to_test_when_configured() {
    assert_eq!(
        transition(QueueStatus::CIRunning, StepOutcome::LintPassed, &cfg_all()),
        NextAction::RunTest,
    );
}

#[test]
fn lint_passed_with_no_test_routes_to_build() {
    let cfg = RepoCiConfig {
        lint_command: Some("l".into()),
        build_command: Some("b".into()),
        ..Default::default()
    };
    assert_eq!(
        transition(QueueStatus::CIRunning, StepOutcome::LintPassed, &cfg),
        NextAction::RunBuild,
    );
}

#[test]
fn lint_passed_with_only_lint_jumps_to_fast_forward() {
    let cfg = RepoCiConfig {
        lint_command: Some("l".into()),
        ..Default::default()
    };
    assert_eq!(
        transition(QueueStatus::CIRunning, StepOutcome::LintPassed, &cfg),
        NextAction::FastForward,
    );
}

#[test]
fn lint_failed_terminates_with_correct_reason() {
    assert_eq!(
        transition(QueueStatus::CIRunning, StepOutcome::LintFailed, &cfg_all()),
        NextAction::Finalize(TerminalStatus::Failed(MergeFailureReason::CILintFailed)),
    );
}

#[test]
fn test_failed_terminates_with_correct_reason() {
    assert_eq!(
        transition(QueueStatus::CIRunning, StepOutcome::TestFailed, &cfg_all()),
        NextAction::Finalize(TerminalStatus::Failed(MergeFailureReason::CITestsFailed)),
    );
}

#[test]
fn build_failed_terminates_with_correct_reason() {
    assert_eq!(
        transition(QueueStatus::CIRunning, StepOutcome::BuildFailed, &cfg_all()),
        NextAction::Finalize(TerminalStatus::Failed(MergeFailureReason::CIBuildFailed)),
    );
}

#[test]
fn build_passed_goes_to_fast_forward() {
    assert_eq!(
        transition(QueueStatus::CIRunning, StepOutcome::BuildPassed, &cfg_all()),
        NextAction::FastForward,
    );
}

#[test]
fn ff_ok_finalizes_merged() {
    assert_eq!(
        transition(QueueStatus::Merging, StepOutcome::FastForwardOk, &cfg_all()),
        NextAction::Finalize(TerminalStatus::Merged),
    );
}

#[test]
fn ff_rejected_finalizes_failed() {
    assert_eq!(
        transition(QueueStatus::Merging, StepOutcome::FastForwardRejected, &cfg_all()),
        NextAction::Finalize(TerminalStatus::Failed(MergeFailureReason::FastForwardFailed)),
    );
}

#[test]
fn agent_resolved_from_needs_help_retries_rebase() {
    assert_eq!(
        transition(QueueStatus::NeedsHelp, StepOutcome::AgentResolvedConflict, &cfg_all()),
        NextAction::Rebase,
    );
}

#[test]
fn user_cancel_from_any_non_terminal_state_terminates() {
    for s in [
        QueueStatus::Queued,
        QueueStatus::Rebasing,
        QueueStatus::CIRunning,
        QueueStatus::Merging,
        QueueStatus::NeedsHelp,
    ] {
        assert_eq!(
            transition(s, StepOutcome::UserCancelled, &cfg_all()),
            NextAction::Finalize(TerminalStatus::Cancelled),
        );
    }
}

#[test]
fn advance_status_table() {
    assert_eq!(advance_status(QueueStatus::Queued, NextAction::Rebase), QueueStatus::Rebasing);
    assert_eq!(advance_status(QueueStatus::Rebasing, NextAction::RunLint), QueueStatus::CIRunning);
    assert_eq!(
        advance_status(QueueStatus::CIRunning, NextAction::FastForward),
        QueueStatus::Merging,
    );
    assert_eq!(
        advance_status(QueueStatus::Merging, NextAction::Finalize(TerminalStatus::Merged)),
        QueueStatus::Merged,
    );
    assert_eq!(
        advance_status(QueueStatus::Rebasing, NextAction::HandoffToAgent),
        QueueStatus::NeedsHelp,
    );
    assert_eq!(
        advance_status(QueueStatus::Queued, NextAction::Sleep(Duration::from_secs(1))),
        QueueStatus::Queued,
    );
}

#[test]
fn terminal_status_failure_reason_matches() {
    assert_eq!(
        TerminalStatus::Failed(MergeFailureReason::CITestsFailed).failure_reason(),
        Some(MergeFailureReason::CITestsFailed),
    );
    assert_eq!(TerminalStatus::Merged.failure_reason(), None);
    assert_eq!(TerminalStatus::Cancelled.failure_reason(), None);
}

#[test]
fn cancel_from_terminal_status_also_finalizes_cancelled() {
    assert_eq!(
        transition(QueueStatus::Merged, StepOutcome::UserCancelled, &cfg_none()),
        NextAction::Finalize(TerminalStatus::Cancelled),
    );
}

#[test]
fn needs_help_terminal_maps_to_needs_help_status() {
    let t = TerminalStatus::NeedsHelp(MergeFailureReason::RebaseUnresolvable);
    assert_eq!(QueueStatus::from(t), QueueStatus::NeedsHelp);
    assert_eq!(t.failure_reason(), Some(MergeFailureReason::RebaseUnresolvable));
    assert_eq!(
        advance_status(QueueStatus::Rebasing, NextAction::Finalize(t)),
        QueueStatus::NeedsHelp,
    );
}

#[test]
fn full_ci_pipeline_walks_every_configured_step_in_order() {
    let cfg = cfg_all();
    let mut status = QueueStatus::Queued;
    let mut outcome = StepOutcome::PrecheckOk;
    let mut seen = Vec::new();
    loop {
        let action = transition(status, outcome, &cfg);
        seen.push(action);
        outcome = match action {
            NextAction::Rebase => StepOutcome::RebaseOk,
            NextAction::RunLint => StepOutcome::LintPassed,
            NextAction::RunTest => StepOutcome::TestPassed,
            NextAction::RunBuild => StepOutcome::BuildPassed,
            NextAction::FastForward => StepOutcome::FastForwardOk,
            _ => break,
        };
        status = advance_status(status, action);
    }
    assert_eq!(
        seen,
        vec![
            NextAction::Rebase,
            NextAction::RunLint,
            NextAction::RunTest,
            NextAction::RunBuild,
            NextAction::FastForward,
            NextAction::Finalize(TerminalStatus::Merged),
        ]
    );
}

#[test]
fn checked_transition_refuses_pairs_outside_the_machine() {
    assert_eq!(transition_checked(QueueStatus::Queued, StepOutcome::LintPassed, &cfg_all()), None);
    assert_eq!(transition_checked(QueueStatus::Merged, StepOutcome::RebaseOk, &cfg_all()), None);
    assert_eq!(
        transition_checked(QueueStatus::Merged, StepOutcome::UserCancelled, &cfg_all()),
        Some(NextAction::Finalize(TerminalStatus::Cancelled))
    );
    assert_eq!(
        transition_checked(QueueStatus::Queued, StepOutcome::PrecheckOk, &cfg_all()),
        Some(NextAction::Rebase)
    );
}

//! The single-repository worker's decisions: what happens to a claimed
//! entry at each turn of the loop. The host runs the loop, executes each
//! action through git, the CI runner, the store and the clock, and feeds
//! the results back here.

use vstd::prelude::*;

use crate::domain::ids::{hyphenated_text, ConflictSessionId};
use crate::domain::ports::{FastForwardOutcome, RebaseOutcome};
use crate::domain::queue::{MergeFailureReason, QueueEntry, QueueStatus, StepOutcome};
use crate::domain::repo::RepoCiConfig;
use crate::domain::state_machine::{
    advance_status, ci_passed, is_defined_transition, lemma_reported_outcomes_stay_defined, next_action,
    reports, status_after, terminal_queue_status, terminal_reason, transition_checked, NextAction,
    TerminalStatus,
};
use crate::paths::{join_path, joined_path};

verus! {

/// The fields of an entry other than status, last outcome, claim and log
/// directory are the same in both.
pub open spec fn same_identity(a: QueueEntry, b: QueueEntry) -> bool {
    &&& a.id == b.id
    &&& a.repo_id == b.repo_id
    &&& a.source_worktree == b.source_worktree
    &&& a.source_branch == b.source_branch
    &&& a.target_branch == b.target_branch
    &&& a.enqueued_at == b.enqueued_at
    &&& a.started_at == b.started_at
    &&& a.merge_log_path == b.merge_log_path
    &&& a.message == b.message
}

/// The outcome of the precheck: a missing source worktree is let through
/// (the rebase will fail loudly); a dirty target blocks the merge.
pub open spec fn precheck_result(source_exists: bool, target_dirty: bool) -> StepOutcome {
    if source_exists && target_dirty {
        StepOutcome::PrecheckDirtyTarget
    } else {
        StepOutcome::PrecheckOk
    }
}

/// Decides the precheck from whether the source worktree exists and, when
/// it does, whether the target worktree is dirty (the host asks git only
/// in that case; otherwise `target_dirty` is ignored).
pub fn precheck_outcome(source_exists: bool, target_dirty: bool) -> (r: StepOutcome)
    ensures
        r == precheck_result(source_exists, target_dirty),
{
    if !source_exists {
        return StepOutcome::PrecheckOk;
    }
    if target_dirty {
        return StepOutcome::PrecheckDirtyTarget;
    }
    StepOutcome::PrecheckOk
}

/// Starts processing a claimed entry with the precheck's outcome. The entry
/// is driven from `Queued` in memory. When the target is dirty the claim
/// is dropped too, and the result says so: the host stores the entry and
/// sleeps for the configured retry.
pub fn begin_processing(entry: &mut QueueEntry, precheck: StepOutcome) -> (dirty: bool)
    requires
        precheck is PrecheckOk || precheck is PrecheckDirtyTarget,
    ensures
        dirty == (precheck is PrecheckDirtyTarget),
        final(entry).status == QueueStatus::Queued,
        final(entry).last_outcome == Some(precheck),
        dirty ==> final(entry).claimed_by_pid is None && final(entry).claimed_at is None,
        !dirty ==> final(entry).claimed_by_pid == old(entry).claimed_by_pid
            && final(entry).claimed_at == old(entry).claimed_at,
        is_defined_transition(final(entry).status, precheck),
        same_identity(*final(entry), *old(entry)),
        final(entry).finished_at == old(entry).finished_at,
        final(entry).failure_reason == old(entry).failure_reason,
        final(entry).ci_log_dir == old(entry).ci_log_dir,
        final(entry).conflict_session_id == old(entry).conflict_session_id,
{
    entry.last_outcome = Some(precheck);
    entry.status = QueueStatus::Queued;
    if matches!(precheck, StepOutcome::PrecheckDirtyTarget) {
        entry.claimed_by_pid = None;
        entry.claimed_at = None;
        return true;
    }
    false
}

/// The next action for an entry: the state machine applied to its status
/// and last outcome. Nothing when there is no last outcome or the pair is
/// outside the machine's domain (a bug of the host).
pub fn next_step(entry: &QueueEntry, cfg: &RepoCiConfig) -> (r: Option<NextAction>)
    ensures
        match r {
            Some(a) => entry.last_outcome matches Some(o) && is_defined_transition(entry.status, o)
                && a == next_action(entry.status, o, *cfg),
            None => !(entry.last_outcome matches Some(o) && is_defined_transition(
                entry.status,
                o,
            )),
        },
{
    match entry.last_outcome {
        Some(o) => transition_checked(entry.status, o, cfg),
        None => None,
    }
}

/// Whether an action runs a CI step.
pub open spec fn is_ci_action(a: NextAction) -> bool {
    a is RunLint || a is RunTest || a is RunBuild
}

/// Before a CI step runs, the entry's log directory is set to
/// `<runs_dir>/<entry id>`; other actions leave the entry alone.
pub fn prepare_step(entry: &mut QueueEntry, action: NextAction, runs_dir: &str)
    ensures
        is_ci_action(action) ==> (final(entry).ci_log_dir matches Some(d) && d@ == joined_path(
            runs_dir@,
            hyphenated_text(old(entry).id.0),
        )),
        !is_ci_action(action) ==> final(entry).ci_log_dir == old(entry).ci_log_dir,
        same_identity(*final(entry), *old(entry)),
        final(entry).status == old(entry).status,
        final(entry).last_outcome == old(entry).last_outcome,
        final(entry).claimed_by_pid == old(entry).claimed_by_pid,
        final(entry).claimed_at == old(entry).claimed_at,
        final(entry).finished_at == old(entry).finished_at,
        final(entry).failure_reason == old(entry).failure_reason,
        final(entry).conflict_session_id == old(entry).conflict_session_id,
{
    if matches!(action, NextAction::RunLint | NextAction::RunTest | NextAction::RunBuild) {
        let id = entry.id.to_string();
        proof {
            crate::domain::ids::lemma_hyphenated_is_relative(entry.id.0);
        }
        entry.ci_log_dir = Some(join_path(runs_dir, id.as_str()));
    }
}

/// Records an executed step: the status the action leads to and the
/// outcome it reported. An outcome the action can report keeps the entry
/// inside the state machine's domain, so the next turn has an action.
pub fn record_step(entry: &mut QueueEntry, action: NextAction, outcome: StepOutcome)
    ensures
        final(entry).status == status_after(old(entry).status, action),
        final(entry).last_outcome == Some(outcome),
        reports(action, outcome) ==> is_defined_transition(final(entry).status, outcome),
        same_identity(*final(entry), *old(entry)),
        final(entry).claimed_by_pid == old(entry).claimed_by_pid,
        final(entry).claimed_at == old(entry).claimed_at,
        final(entry).finished_at == old(entry).finished_at,
        final(entry).failure_reason == old(entry).failure_reason,
        final(entry).ci_log_dir == old(entry).ci_log_dir,
        final(entry).conflict_session_id == old(entry).conflict_session_id,
{
    proof {
        if reports(action, outcome) {
            lemma_reported_outcomes_stay_defined(entry.status, action, outcome);
        }
    }
    entry.status = advance_status(entry.status, action);
    entry.last_outcome = Some(outcome);
}

/// Finalizes an entry: the terminal status, its failure reason, the finish
/// time, and no claim.
pub fn finalize_entry(entry: &mut QueueEntry, terminal: TerminalStatus, now: time::OffsetDateTime)
    ensures
        final(entry).status == terminal_queue_status(terminal),
        final(entry).failure_reason == terminal_reason(terminal),
        final(entry).finished_at == Some(now),
        final(entry).claimed_by_pid is None,
        final(entry).claimed_at is None,
        same_identity(*final(entry), *old(entry)),
        final(entry).last_outcome == old(entry).last_outcome,
        final(entry).ci_log_dir == old(entry).ci_log_dir,
        final(entry).conflict_session_id == old(entry).conflict_session_id,
{
    entry.status = QueueStatus::from(terminal);
    entry.failure_reason = terminal.failure_reason();
    entry.finished_at = Some(now);
    entry.claimed_by_pid = None;
    entry.claimed_at = None;
}

/// Hands an entry to a conflict session: it needs help because the rebase
/// could not be resolved, it records the session, and it holds no claim.
pub fn handoff_entry(entry: &mut QueueEntry, session: ConflictSessionId)
    ensures
        final(entry).status == QueueStatus::NeedsHelp,
        final(entry).failure_reason == Some(MergeFailureReason::RebaseUnresolvable),
        final(entry).conflict_session_id == Some(session),
        final(entry).claimed_by_pid is None,
        final(entry).claimed_at is None,
        same_identity(*final(entry), *old(entry)),
        final(entry).last_outcome == old(entry).last_outcome,
        final(entry).finished_at == old(entry).finished_at,
        final(entry).ci_log_dir == old(entry).ci_log_dir,
{
    entry.status = QueueStatus::NeedsHelp;
    entry.failure_reason = Some(MergeFailureReason::RebaseUnresolvable);
    entry.conflict_session_id = Some(session);
    entry.claimed_by_pid = None;
    entry.claimed_at = None;
}

/// The step outcome of a rebase. Errors other than conflicts also hand the
/// entry to an agent rather than failing it: the agent is told what went
/// wrong.
pub fn rebase_step_outcome(r: &RebaseOutcome) -> (o: StepOutcome)
    ensures
        o == (if r is Success {
            StepOutcome::RebaseOk
        } else {
            StepOutcome::RebaseConflict
        }),
        reports(NextAction::Rebase, o),
{
    match r {
        RebaseOutcome::Success => StepOutcome::RebaseOk,
        RebaseOutcome::Conflict => StepOutcome::RebaseConflict,
        RebaseOutcome::OtherError(_) => StepOutcome::RebaseConflict,
    }
}

/// The step outcome of a fast-forward: anything but success is a rejection.
pub fn fast_forward_step_outcome(r: &FastForwardOutcome) -> (o: StepOutcome)
    ensures
        o == (if r is Success {
            StepOutcome::FastForwardOk
        } else {
            StepOutcome::FastForwardRejected
        }),
        reports(NextAction::FastForward, o),
{
    match r {
        FastForwardOutcome::Success => StepOutcome::FastForwardOk,
        _ => StepOutcome::FastForwardRejected,
    }
}

/// The step outcome of a CI step that passed (its command exited zero) or
/// failed.
pub open spec fn ci_result(action: NextAction, passed: bool) -> StepOutcome {
    match action {
        NextAction::RunLint => if passed {
            StepOutcome::LintPassed
        } else {
            StepOutcome::LintFailed
        },
        NextAction::RunTest => if passed {
            StepOutcome::TestPassed
        } else {
            StepOutcome::TestFailed
        },
        _ => if passed {
            StepOutcome::BuildPassed
        } else {
            StepOutcome::BuildFailed
        },
    }
}

pub fn ci_step_outcome(action: NextAction, passed: bool) -> (o: StepOutcome)
    requires
        is_ci_action(action),
    ensures
        o == ci_result(action, passed),
        reports(action, o),
        ci_passed(o) == passed,
{
    match action {
        NextAction::RunLint => if passed {
            StepOutcome::LintPassed
        } else {
            StepOutcome::LintFailed
        },
        NextAction::RunTest => if passed {
            StepOutcome::TestPassed
        } else {
            StepOutcome::TestFailed
        },
        _ => if passed {
            StepOutcome::BuildPassed
        } else {
            StepOutcome::BuildFailed
        },
    }
}

/// A CI step's outcome belongs to the step that ran and has the polarity
/// of its command's exit: each CI action reports its own passed outcome
/// when the command exited zero and its own failed outcome otherwise.
pub proof fn lemma_ci_result_polarity(action: NextAction, passed: bool)
    requires
        is_ci_action(action),
    ensures
        reports(action, ci_result(action, passed)),
        ci_passed(ci_result(action, passed)) == passed,
{
}

/// The command a CI step runs, with the name of its log (`lint`, `test`,
/// `build`). The state machine only chooses a step whose command is
/// configured.
pub fn ci_command(cfg: &RepoCiConfig, action: NextAction) -> (r: Option<(&'static str, &String)>)
    requires
        is_ci_action(action),
    ensures
        action is RunLint ==> (cfg.lint_command is Some <==> r is Some) && (r matches Some(p) ==> p.0@
            == "lint"@ && *p.1 == cfg.lint_command->0),
        action is RunTest ==> (cfg.test_command is Some <==> r is Some) && (r matches Some(p) ==> p.0@
            == "test"@ && *p.1 == cfg.test_command->0),
        action is RunBuild ==> (cfg.build_command is Some <==> r is Some) && (r matches Some(p) ==> p.0@
            == "build"@ && *p.1 == cfg.build_command->0),
{
    match action {
        NextAction::RunLint => match &cfg.lint_command {
            Some(c) => Some(("lint", c)),
            None => None,
        },
        NextAction::RunTest => match &cfg.test_command {
            Some(c) => Some(("test", c)),
            None => None,
        },
        _ => match &cfg.build_command {
            Some(c) => Some(("build", c)),
            None => None,
        },
    }
}

} // verus!

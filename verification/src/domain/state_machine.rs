//! The merge-queue state machine, encoded as data.
//!
//! `transition` maps the persisted status of an entry and the outcome of
//! the step just executed to the next action. It performs no I/O; the
//! caller executes the action and feeds the next outcome back.

use vstd::prelude::*;

use crate::domain::queue::{MergeFailureReason, QueueStatus, StepOutcome};
use crate::domain::repo::RepoCiConfig;

verus! {

/// What the caller should do next for an entry.
#[derive(Debug, Clone, Copy, PartialEq, Eq)]
pub enum NextAction {
    Precheck,
    Rebase,
    RunLint,
    RunTest,
    RunBuild,
    FastForward,
    HandoffToAgent,
    Sleep(std::time::Duration),
    Finalize(TerminalStatus),
}

/// How an entry leaves the pipeline.
#[derive(Debug, Clone, Copy, PartialEq, Eq, Structural)]
pub enum TerminalStatus {
    Merged,
    Failed(MergeFailureReason),
    NeedsHelp(MergeFailureReason),
    Cancelled,
}

/// The status persisted for a terminal outcome.
pub open spec fn terminal_queue_status(t: TerminalStatus) -> QueueStatus {
    match t {
        TerminalStatus::Merged => QueueStatus::Merged,
        TerminalStatus::Failed(_) => QueueStatus::Failed,
        TerminalStatus::NeedsHelp(_) => QueueStatus::NeedsHelp,
        TerminalStatus::Cancelled => QueueStatus::Cancelled,
    }
}

/// The failure reason a terminal outcome carries, if any.
pub open spec fn terminal_reason(t: TerminalStatus) -> Option<MergeFailureReason> {
    match t {
        TerminalStatus::Failed(r) => Some(r),
        TerminalStatus::NeedsHelp(r) => Some(r),
        TerminalStatus::Merged => None,
        TerminalStatus::Cancelled => None,
    }
}

impl vstd::std_specs::convert::FromSpecImpl<TerminalStatus> for QueueStatus {
    open spec fn obeys_from_spec() -> bool {
        true
    }

    open spec fn from_spec(t: TerminalStatus) -> QueueStatus {
        terminal_queue_status(t)
    }
}

impl From<TerminalStatus> for QueueStatus {
    fn from(t: TerminalStatus) -> (r: QueueStatus) {
        match t {
            TerminalStatus::Merged => QueueStatus::Merged,
            TerminalStatus::Failed(_) => QueueStatus::Failed,
            TerminalStatus::NeedsHelp(_) => QueueStatus::NeedsHelp,
            TerminalStatus::Cancelled => QueueStatus::Cancelled,
        }
    }
}

impl TerminalStatus {
    pub fn failure_reason(&self) -> (r: Option<MergeFailureReason>)
        ensures
            r == terminal_reason(*self),
    {
        match self {
            TerminalStatus::Failed(r) => Some(*r),
            TerminalStatus::NeedsHelp(r) => Some(*r),
            TerminalStatus::Merged => None,
            TerminalStatus::Cancelled => None,
        }
    }
}

/// The pairs of status and outcome the shell can produce. A user
/// cancellation may arrive in any status; every other outcome belongs to
/// the status whose step produces it.
pub open spec fn is_defined_transition(s: QueueStatus, o: StepOutcome) -> bool {
    ||| o is UserCancelled
    ||| s is Queued && (o is PrecheckOk || o is PrecheckDirtyTarget)
    ||| s is Rebasing && (o is RebaseOk || o is RebaseConflict)
    ||| s is CIRunning && (o is LintPassed || o is LintFailed || o is TestPassed
        || o is TestFailed || o is BuildPassed || o is BuildFailed)
    ||| s is Merging && (o is FastForwardOk || o is FastForwardRejected)
    ||| s is NeedsHelp && o is AgentResolvedConflict
}

/// The first configured CI step, or the fast-forward when none is.
pub open spec fn first_ci_action(cfg: RepoCiConfig) -> NextAction {
    if cfg.lint_command is Some {
        NextAction::RunLint
    } else if cfg.test_command is Some {
        NextAction::RunTest
    } else if cfg.build_command is Some {
        NextAction::RunBuild
    } else {
        NextAction::FastForward
    }
}

/// The configured CI step that follows lint, or the fast-forward.
pub open spec fn after_lint_action(cfg: RepoCiConfig) -> NextAction {
    if cfg.test_command is Some {
        NextAction::RunTest
    } else if cfg.build_command is Some {
        NextAction::RunBuild
    } else {
        NextAction::FastForward
    }
}

/// The configured CI step that follows the tests, or the fast-forward.
pub open spec fn after_test_action(cfg: RepoCiConfig) -> NextAction {
    if cfg.build_command is Some {
        NextAction::RunBuild
    } else {
        NextAction::FastForward
    }
}

/// The transition table.
pub open spec fn next_action(s: QueueStatus, o: StepOutcome, cfg: RepoCiConfig) -> NextAction
    recommends
        is_defined_transition(s, o),
{
    if o is UserCancelled {
        NextAction::Finalize(TerminalStatus::Cancelled)
    } else {
        match (s, o) {
            (QueueStatus::Queued, StepOutcome::PrecheckOk) => NextAction::Rebase,
            (QueueStatus::Queued, StepOutcome::PrecheckDirtyTarget) => NextAction::Sleep(
                cfg.dirty_retry,
            ),
            (QueueStatus::Rebasing, StepOutcome::RebaseOk) => first_ci_action(cfg),
            (QueueStatus::Rebasing, StepOutcome::RebaseConflict) => NextAction::HandoffToAgent,
            (QueueStatus::CIRunning, StepOutcome::LintPassed) => after_lint_action(cfg),
            (QueueStatus::CIRunning, StepOutcome::LintFailed) => NextAction::Finalize(
                TerminalStatus::Failed(MergeFailureReason::CILintFailed),
            ),
            (QueueStatus::CIRunning, StepOutcome::TestPassed) => after_test_action(cfg),
            (QueueStatus::CIRunning, StepOutcome::TestFailed) => NextAction::Finalize(
                TerminalStatus::Failed(MergeFailureReason::CITestsFailed),
            ),
            (QueueStatus::CIRunning, StepOutcome::BuildPassed) => NextAction::FastForward,
            (QueueStatus::CIRunning, StepOutcome::BuildFailed) => NextAction::Finalize(
                TerminalStatus::Failed(MergeFailureReason::CIBuildFailed),
            ),
            (QueueStatus::Merging, StepOutcome::FastForwardOk) => NextAction::Finalize(
                TerminalStatus::Merged,
            ),
            (QueueStatus::Merging, StepOutcome::FastForwardRejected) => NextAction::Finalize(
                TerminalStatus::Failed(MergeFailureReason::FastForwardFailed),
            ),
            (QueueStatus::NeedsHelp, StepOutcome::AgentResolvedConflict) => NextAction::Rebase,
            _ => NextAction::Precheck,
        }
    }
}

/// The persisted status once an action has been executed.
pub open spec fn status_after(s: QueueStatus, a: NextAction) -> QueueStatus {
    match a {
        NextAction::Precheck => s,
        NextAction::Sleep(_) => s,
        NextAction::Rebase => QueueStatus::Rebasing,
        NextAction::RunLint => QueueStatus::CIRunning,
        NextAction::RunTest => QueueStatus::CIRunning,
        NextAction::RunBuild => QueueStatus::CIRunning,
        NextAction::FastForward => QueueStatus::Merging,
        NextAction::HandoffToAgent => QueueStatus::NeedsHelp,
        NextAction::Finalize(t) => terminal_queue_status(t),
    }
}

/// The state machine. A pair of status and outcome that the shell cannot
/// produce is outside its domain (the shell would have a bug).
pub fn transition(current: QueueStatus, outcome: StepOutcome, cfg: &RepoCiConfig) -> (r: NextAction)
    requires
        is_defined_transition(current, outcome),
    ensures
        r == next_action(current, outcome, *cfg),
{
    if matches!(outcome, StepOutcome::UserCancelled) {
        return NextAction::Finalize(TerminalStatus::Cancelled);
    }
    match (current, outcome) {
        (QueueStatus::Queued, StepOutcome::PrecheckOk) => NextAction::Rebase,
        (QueueStatus::Queued, StepOutcome::PrecheckDirtyTarget) => NextAction::Sleep(
            cfg.dirty_retry,
        ),
        (QueueStatus::Rebasing, StepOutcome::RebaseOk) => first_ci_step(cfg),
        (QueueStatus::Rebasing, StepOutcome::RebaseConflict) => NextAction::HandoffToAgent,
        (QueueStatus::CIRunning, StepOutcome::LintPassed) => after_lint(cfg),
        (QueueStatus::CIRunning, StepOutcome::LintFailed) => NextAction::Finalize(
            TerminalStatus::Failed(MergeFailureReason::CILintFailed),
        ),
        (QueueStatus::CIRunning, StepOutcome::TestPassed) => after_test(cfg),
        (QueueStatus::CIRunning, StepOutcome::TestFailed) => NextAction::Finalize(
            TerminalStatus::Failed(MergeFailureReason::CITestsFailed),
        ),
        (QueueStatus::CIRunning, StepOutcome::BuildPassed) => NextAction::FastForward,
        (QueueStatus::CIRunning, StepOutcome::BuildFailed) => NextAction::Finalize(
            TerminalStatus::Failed(MergeFailureReason::CIBuildFailed),
        ),
        (QueueStatus::Merging, StepOutcome::FastForwardOk) => NextAction::Finalize(
            TerminalStatus::Merged,
        ),
        (QueueStatus::Merging, StepOutcome::FastForwardRejected) => NextAction::Finalize(
            TerminalStatus::Failed(MergeFailureReason::FastForwardFailed),
        ),
        (QueueStatus::NeedsHelp, StepOutcome::AgentResolvedConflict) => NextAction::Rebase,
        _ => {
            proof {
                assert(false);
            }
            NextAction::Precheck
        },
    }
}

/// Maps an action to the persisted status after the shell has executed it.
pub fn advance_status(current: QueueStatus, action: NextAction) -> (r: QueueStatus)
    ensures
        r == status_after(current, action),
{
    match action {
        NextAction::Precheck => current,
        NextAction::Sleep(_) => current,
        NextAction::Rebase => QueueStatus::Rebasing,
        NextAction::RunLint => QueueStatus::CIRunning,
        NextAction::RunTest => QueueStatus::CIRunning,
        NextAction::RunBuild => QueueStatus::CIRunning,
        NextAction::FastForward => QueueStatus::Merging,
        NextAction::HandoffToAgent => QueueStatus::NeedsHelp,
        NextAction::Finalize(t) => QueueStatus::from(t),
    }
}

/// First CI step that's configured, or `FastForward` if none are.
fn first_ci_step(cfg: &RepoCiConfig) -> (r: NextAction)
    ensures
        r == first_ci_action(*cfg),
{
    if cfg.lint_command.is_some() {
        NextAction::RunLint
    } else if cfg.test_command.is_some() {
        NextAction::RunTest
    } else if cfg.build_command.is_some() {
        NextAction::RunBuild
    } else {
        NextAction::FastForward
    }
}

fn after_lint(cfg: &RepoCiConfig) -> (r: NextAction)
    ensures
        r == after_lint_action(*cfg),
{
    if cfg.test_command.is_some() {
        NextAction::RunTest
    } else if cfg.build_command.is_some() {
        NextAction::RunBuild
    } else {
        NextAction::FastForward
    }
}

fn after_test(cfg: &RepoCiConfig) -> (r: NextAction)
    ensures
        r == after_test_action(*cfg),
{
    if cfg.build_command.is_some() {
        NextAction::RunBuild
    } else {
        NextAction::FastForward
    }
}

/// The actions that run a step of the pipeline and report an outcome.
pub open spec fn is_step_action(a: NextAction) -> bool {
    a is Rebase || a is RunLint || a is RunTest || a is RunBuild || a is FastForward
}

/// Whether executing `a` can report `o`.
pub open spec fn reports(a: NextAction, o: StepOutcome) -> bool {
    match a {
        NextAction::Rebase => o is RebaseOk || o is RebaseConflict,
        NextAction::RunLint => o is LintPassed || o is LintFailed,
        NextAction::RunTest => o is TestPassed || o is TestFailed,
        NextAction::RunBuild => o is BuildPassed || o is BuildFailed,
        NextAction::FastForward => o is FastForwardOk || o is FastForwardRejected,
        _ => false,
    }
}

/// Whether an outcome reports a CI command that exited zero.
pub open spec fn ci_passed(o: StepOutcome) -> bool {
    o is LintPassed || o is TestPassed || o is BuildPassed
}

/// How far along precheck, rebase, lint, test, build and fast-forward an
/// outcome stands.
pub open spec fn stage(o: StepOutcome) -> nat {
    match o {
        StepOutcome::RebaseOk | StepOutcome::RebaseConflict => 1,
        StepOutcome::LintPassed | StepOutcome::LintFailed => 2,
        StepOutcome::TestPassed | StepOutcome::TestFailed => 3,
        StepOutcome::BuildPassed | StepOutcome::BuildFailed => 4,
        StepOutcome::FastForwardOk | StepOutcome::FastForwardRejected => 5,
        _ => 0,
    }
}

/// A user cancellation ends an entry in whatever status it stands.
pub proof fn lemma_cancel_finalizes(s: QueueStatus, cfg: RepoCiConfig)
    ensures
        is_defined_transition(s, StepOutcome::UserCancelled),
        next_action(s, StepOutcome::UserCancelled, cfg) == NextAction::Finalize(
            TerminalStatus::Cancelled,
        ),
{
}

/// Whatever executing a step reports is a defined input of the machine in
/// the status that step leads to, and that status is not final: the shell
/// never feeds the machine a pair outside its domain.
pub proof fn lemma_reported_outcomes_stay_defined(s: QueueStatus, a: NextAction, o: StepOutcome)
    requires
        reports(a, o),
    ensures
        is_defined_transition(status_after(s, a), o),
        !status_after(s, a).spec_is_terminal(),
{
}

/// Each executed step moves the entry strictly further along the pipeline,
/// so an entry reaches a finalize, a hand-off or a sleep after at most five
/// executed steps.
pub proof fn lemma_steps_make_progress(
    s: QueueStatus,
    o: StepOutcome,
    cfg: RepoCiConfig,
    o2: StepOutcome,
)
    requires
        is_defined_transition(s, o),
        reports(next_action(s, o, cfg), o2),
    ensures
        is_step_action(next_action(s, o, cfg)),
        stage(o) < stage(o2) <= 5,
{
}

/// A CI step is only ever chosen when its command is configured.
pub proof fn lemma_ci_steps_are_configured(s: QueueStatus, o: StepOutcome, cfg: RepoCiConfig)
    requires
        is_defined_transition(s, o),
    ensures
        next_action(s, o, cfg) is RunLint ==> cfg.lint_command is Some,
        next_action(s, o, cfg) is RunTest ==> cfg.test_command is Some,
        next_action(s, o, cfg) is RunBuild ==> cfg.build_command is Some,
{
}

/// The fast-forward is only chosen once the last configured step of the
/// CI gate has passed (or the rebase succeeded and no step is configured).
pub proof fn lemma_fast_forward_behind_ci_gate(s: QueueStatus, o: StepOutcome, cfg: RepoCiConfig)
    requires
        is_defined_transition(s, o),
        next_action(s, o, cfg) is FastForward,
    ensures
        o is RebaseOk && cfg.lint_command is None && cfg.test_command is None
            && cfg.build_command is None
        || o is LintPassed && cfg.test_command is None && cfg.build_command is None
        || o is TestPassed && cfg.build_command is None
        || o is BuildPassed,
{
}

/// An entry is merged only after a successful fast-forward, and a failure
/// names the step that failed.
pub proof fn lemma_terminal_outcomes(s: QueueStatus, o: StepOutcome, cfg: RepoCiConfig)
    requires
        is_defined_transition(s, o),
    ensures
        next_action(s, o, cfg) == NextAction::Finalize(TerminalStatus::Merged) <==> (s is Merging
            && o is FastForwardOk),
        next_action(s, o, cfg) == NextAction::Finalize(
            TerminalStatus::Failed(MergeFailureReason::CILintFailed),
        ) <==> o is LintFailed,
        next_action(s, o, cfg) == NextAction::Finalize(
            TerminalStatus::Failed(MergeFailureReason::CITestsFailed),
        ) <==> o is TestFailed,
        next_action(s, o, cfg) == NextAction::Finalize(
            TerminalStatus::Failed(MergeFailureReason::CIBuildFailed),
        ) <==> o is BuildFailed,
        next_action(s, o, cfg) == NextAction::Finalize(
            TerminalStatus::Failed(MergeFailureReason::FastForwardFailed),
        ) <==> o is FastForwardRejected,
        next_action(s, o, cfg) == NextAction::Finalize(TerminalStatus::Cancelled) <==> o is UserCancelled,
        next_action(s, o, cfg) is HandoffToAgent <==> o is RebaseConflict,
        next_action(s, o, cfg) is Sleep <==> o is PrecheckDirtyTarget,
{
}

/// A successful precheck and an agent's resolution of a conflict are the
/// only ways into the rebase; a dirty target worktree makes the entry wait
/// for the repository's configured retry interval.
pub proof fn lemma_rebase_entry_and_wait(s: QueueStatus, o: StepOutcome, cfg: RepoCiConfig)
    requires
        is_defined_transition(s, o),
    ensures
        next_action(s, o, cfg) is Rebase <==> (o is PrecheckOk || o is AgentResolvedConflict),
        o is PrecheckDirtyTarget ==> next_action(s, o, cfg) == NextAction::Sleep(cfg.dirty_retry),
{
}

/// Where an action stands among the steps after the rebase, counted from
/// the lint step at one up to the fast-forward at four (zero for any other
/// action).
pub open spec fn step_position(a: NextAction) -> nat {
    match a {
        NextAction::RunLint => 1,
        NextAction::RunTest => 2,
        NextAction::RunBuild => 3,
        NextAction::FastForward => 4,
        _ => 0,
    }
}

/// Where a successful outcome leaves an entry among those steps: after the
/// rebase 0, after lint 1, after the tests 2, after the build 3.
pub open spec fn passed_position(o: StepOutcome) -> nat {
    match o {
        StepOutcome::LintPassed => 1,
        StepOutcome::TestPassed => 2,
        StepOutcome::BuildPassed => 3,
        _ => 0,
    }
}

/// Whether the CI step at position `k` (lint, then the tests, then the
/// build, counted from one) has a command configured.
pub open spec fn ci_step_configured(cfg: RepoCiConfig, k: nat) -> bool {
    if k == 1 {
        cfg.lint_command is Some
    } else if k == 2 {
        cfg.test_command is Some
    } else if k == 3 {
        cfg.build_command is Some
    } else {
        false
    }
}

/// A successful rebase or a passing CI step moves the entry on to the next
/// configured CI step (lint, test, build, in that order), skipping those
/// with no command, or to the fast-forward once none remains; it never
/// ends, hands off or cancels the entry.
pub proof fn lemma_success_advances_pipeline(s: QueueStatus, o: StepOutcome, cfg: RepoCiConfig)
    requires
        is_defined_transition(s, o),
        o is RebaseOk || ci_passed(o),
    ensures
        1 <= step_position(next_action(s, o, cfg)) <= 4,
        passed_position(o) < step_position(next_action(s, o, cfg)),
        step_position(next_action(s, o, cfg)) <= 3 ==> ci_step_configured(
            cfg,
            step_position(next_action(s, o, cfg)),
        ),
        forall|k: nat|
            passed_position(o) < k < step_position(next_action(s, o, cfg)) ==> !ci_step_configured(
                cfg,
                k,
            ),
{
}

/// After a finalize the persisted status is final, except for a hand-off
/// to a human; waiting and prechecking leave the status as it was.
pub proof fn lemma_status_after_finalize(s: QueueStatus, t: TerminalStatus, d: std::time::Duration)
    ensures
        status_after(s, NextAction::Finalize(t)).spec_is_terminal() <==> !(t is NeedsHelp),
        status_after(s, NextAction::Sleep(d)) == s,
        status_after(s, NextAction::Precheck) == s,
{
}

/// Outside a cancellation, a status accepts only the outcomes of the step
/// it stands for (so `transition` is defined exactly there): `Queued` the
/// precheck's, `Rebasing` the rebase's, `CIRunning` the CI steps',
/// `Merging` the fast-forward's, `NeedsHelp` the agent's resolution; the
/// final statuses accept none. A cancellation is accepted everywhere.
pub proof fn lemma_transition_domain(s: QueueStatus, o: StepOutcome)
    ensures
        o is UserCancelled ==> is_defined_transition(s, o),
        !(o is UserCancelled) ==> (is_defined_transition(s, o) <==> match s {
            QueueStatus::Queued => o is PrecheckOk || o is PrecheckDirtyTarget,
            QueueStatus::Rebasing => o is RebaseOk || o is RebaseConflict,
            QueueStatus::CIRunning => o is LintPassed || o is LintFailed || o is TestPassed
                || o is TestFailed || o is BuildPassed || o is BuildFailed,
            QueueStatus::Merging => o is FastForwardOk || o is FastForwardRejected,
            QueueStatus::NeedsHelp => o is AgentResolvedConflict,
            QueueStatus::Merged | QueueStatus::Failed | QueueStatus::Cancelled => false,
        }),
{
}

/// The state machine applied to any pair: the next action on a pair of its
/// domain, nothing on one outside it (a pair that the shell can only
/// produce through a bug of its own).
pub fn transition_checked(current: QueueStatus, outcome: StepOutcome, cfg: &RepoCiConfig) -> (r:
    Option<NextAction>)
    ensures
        match r {
            Some(a) => is_defined_transition(current, outcome) && a == next_action(current, outcome, *cfg),
            None => !is_defined_transition(current, outcome),
        },
{
    let defined = match outcome {
        StepOutcome::UserCancelled => true,
        StepOutcome::PrecheckOk | StepOutcome::PrecheckDirtyTarget => matches!(current, QueueStatus::Queued),
        StepOutcome::RebaseOk | StepOutcome::RebaseConflict => matches!(current, QueueStatus::Rebasing),
        StepOutcome::LintPassed | StepOutcome::LintFailed | StepOutcome::TestPassed
        | StepOutcome::TestFailed | StepOutcome::BuildPassed | StepOutcome::BuildFailed => matches!(
            current,
            QueueStatus::CIRunning
        ),
        StepOutcome::FastForwardOk | StepOutcome::FastForwardRejected => matches!(
            current,
            QueueStatus::Merging
        ),
        StepOutcome::AgentResolvedConflict => matches!(current, QueueStatus::NeedsHelp),
    };
    if defined {
        Some(transition(current, outcome, cfg))
    } else {
        None
    }
}

} // verus!

//! Queue statuses, step outcomes, failure reasons, and the queue entry.

use vstd::prelude::*;

use crate::domain::ids::{ConflictSessionId, QueueEntryId, RepoId};

verus! {

/// Where a queue entry stands in its life.
#[derive(Debug, Clone, Copy, PartialEq, Eq, Hash, Structural)]
pub enum QueueStatus {
    Queued,
    Rebasing,
    CIRunning,
    Merging,
    NeedsHelp,
    Merged,
    Failed,
    Cancelled,
}

/// The name under which a status is shown and stored.
pub open spec fn status_name(s: QueueStatus) -> Seq<char> {
    match s {
        QueueStatus::Queued => "Queued"@,
        QueueStatus::Rebasing => "Rebasing"@,
        QueueStatus::CIRunning => "CIRunning"@,
        QueueStatus::Merging => "Merging"@,
        QueueStatus::NeedsHelp => "NeedsHelp"@,
        QueueStatus::Merged => "Merged"@,
        QueueStatus::Failed => "Failed"@,
        QueueStatus::Cancelled => "Cancelled"@,
    }
}

impl QueueStatus {
    pub open spec fn spec_is_terminal(self) -> bool {
        self is Merged || self is Failed || self is Cancelled
    }

    /// Merged, Failed and Cancelled are final; every other status can still move.
    pub fn is_terminal(&self) -> (r: bool)
        ensures
            r == self.spec_is_terminal(),
    {
        matches!(self, QueueStatus::Merged | QueueStatus::Failed | QueueStatus::Cancelled)
    }

    pub fn as_str(&self) -> (r: &'static str)
        ensures
            r@ == status_name(*self),
    {
        match self {
            QueueStatus::Queued => "Queued",
            QueueStatus::Rebasing => "Rebasing",
            QueueStatus::CIRunning => "CIRunning",
            QueueStatus::Merging => "Merging",
            QueueStatus::NeedsHelp => "NeedsHelp",
            QueueStatus::Merged => "Merged",
            QueueStatus::Failed => "Failed",
            QueueStatus::Cancelled => "Cancelled",
        }
    }

    /// Every status, in declaration order.
    pub fn all() -> (r: [QueueStatus; 8])
        ensures
            r@ == seq![
                QueueStatus::Queued,
                QueueStatus::Rebasing,
                QueueStatus::CIRunning,
                QueueStatus::Merging,
                QueueStatus::NeedsHelp,
                QueueStatus::Merged,
                QueueStatus::Failed,
                QueueStatus::Cancelled,
            ],
    {
        let r = [
            QueueStatus::Queued,
            QueueStatus::Rebasing,
            QueueStatus::CIRunning,
            QueueStatus::Merging,
            QueueStatus::NeedsHelp,
            QueueStatus::Merged,
            QueueStatus::Failed,
            QueueStatus::Cancelled,
        ];
        assert(r@ =~= seq![
            QueueStatus::Queued,
            QueueStatus::Rebasing,
            QueueStatus::CIRunning,
            QueueStatus::Merging,
            QueueStatus::NeedsHelp,
            QueueStatus::Merged,
            QueueStatus::Failed,
            QueueStatus::Cancelled,
        ]);
        r
    }
}

/// What executing one step reported back.
#[derive(Debug, Clone, Copy, PartialEq, Eq, Hash, Structural)]
pub enum StepOutcome {
    PrecheckOk,
    PrecheckDirtyTarget,
    RebaseOk,
    RebaseConflict,
    LintPassed,
    LintFailed,
    TestPassed,
    TestFailed,
    BuildPassed,
    BuildFailed,
    FastForwardOk,
    FastForwardRejected,
    AgentResolvedConflict,
    UserCancelled,
}

/// The name under which an outcome is shown and stored.
pub open spec fn outcome_name(o: StepOutcome) -> Seq<char> {
    match o {
        StepOutcome::PrecheckOk => "PrecheckOk"@,
        StepOutcome::PrecheckDirtyTarget => "PrecheckDirtyTarget"@,
        StepOutcome::RebaseOk => "RebaseOk"@,
        StepOutcome::RebaseConflict => "RebaseConflict"@,
        StepOutcome::LintPassed => "LintPassed"@,
        StepOutcome::LintFailed => "LintFailed"@,
        StepOutcome::TestPassed => "TestPassed"@,
        StepOutcome::TestFailed => "TestFailed"@,
        StepOutcome::BuildPassed => "BuildPassed"@,
        StepOutcome::BuildFailed => "BuildFailed"@,
        StepOutcome::FastForwardOk => "FastForwardOk"@,
        StepOutcome::FastForwardRejected => "FastForwardRejected"@,
        StepOutcome::AgentResolvedConflict => "AgentResolvedConflict"@,
        StepOutcome::UserCancelled => "UserCancelled"@,
    }
}

impl StepOutcome {
    pub fn as_str(&self) -> (r: &'static str)
        ensures
            r@ == outcome_name(*self),
    {
        match self {
            StepOutcome::PrecheckOk => "PrecheckOk",
            StepOutcome::PrecheckDirtyTarget => "PrecheckDirtyTarget",
            StepOutcome::RebaseOk => "RebaseOk",
            StepOutcome::RebaseConflict => "RebaseConflict",
            StepOutcome::LintPassed => "LintPassed",
            StepOutcome::LintFailed => "LintFailed",
            StepOutcome::TestPassed => "TestPassed",
            StepOutcome::TestFailed => "TestFailed",
            StepOutcome::BuildPassed => "BuildPassed",
            StepOutcome::BuildFailed => "BuildFailed",
            StepOutcome::FastForwardOk => "FastForwardOk",
            StepOutcome::FastForwardRejected => "FastForwardRejected",
            StepOutcome::AgentResolvedConflict => "AgentResolvedConflict",
            StepOutcome::UserCancelled => "UserCancelled",
        }
    }
}

/// Why an entry stopped short of being merged.
#[derive(Debug, Clone, Copy, PartialEq, Eq, Hash, Structural)]
pub enum MergeFailureReason {
    TargetWorktreeDirty,
    RebaseUnresolvable,
    CILintFailed,
    CITestsFailed,
    CIBuildFailed,
    FastForwardFailed,
    WorktreeGone,
    UserCancelled,
    UncleanShutdown,
}

/// The name under which a failure reason is shown and stored.
pub open spec fn reason_name(r: MergeFailureReason) -> Seq<char> {
    match r {
        MergeFailureReason::TargetWorktreeDirty => "TargetWorktreeDirty"@,
        MergeFailureReason::RebaseUnresolvable => "RebaseUnresolvable"@,
        MergeFailureReason::CILintFailed => "CILintFailed"@,
        MergeFailureReason::CITestsFailed => "CITestsFailed"@,
        MergeFailureReason::CIBuildFailed => "CIBuildFailed"@,
        MergeFailureReason::FastForwardFailed => "FastForwardFailed"@,
        MergeFailureReason::WorktreeGone => "WorktreeGone"@,
        MergeFailureReason::UserCancelled => "UserCancelled"@,
        MergeFailureReason::UncleanShutdown => "UncleanShutdown"@,
    }
}

impl MergeFailureReason {
    pub fn as_str(&self) -> (r: &'static str)
        ensures
            r@ == reason_name(*self),
    {
        match self {
            MergeFailureReason::TargetWorktreeDirty => "TargetWorktreeDirty",
            MergeFailureReason::RebaseUnresolvable => "RebaseUnresolvable",
            MergeFailureReason::CILintFailed => "CILintFailed",
            MergeFailureReason::CITestsFailed => "CITestsFailed",
            MergeFailureReason::CIBuildFailed => "CIBuildFailed",
            MergeFailureReason::FastForwardFailed => "FastForwardFailed",
            MergeFailureReason::WorktreeGone => "WorktreeGone",
            MergeFailureReason::UserCancelled => "UserCancelled",
            MergeFailureReason::UncleanShutdown => "UncleanShutdown",
        }
    }
}

/// One unit of work: a source worktree's branch waiting to be merged into
/// a target branch. Paths are held as text.
#[derive(Debug, Clone)]
pub struct QueueEntry {
    pub id: QueueEntryId,
    pub repo_id: RepoId,
    pub source_worktree: String,
    pub source_branch: String,
    pub target_branch: String,
    pub status: QueueStatus,
    pub last_outcome: Option<StepOutcome>,
    pub enqueued_at: time::OffsetDateTime,
    pub started_at: Option<time::OffsetDateTime>,
    pub finished_at: Option<time::OffsetDateTime>,
    pub failure_reason: Option<MergeFailureReason>,
    pub ci_log_dir: Option<String>,
    pub merge_log_path: Option<String>,
    pub conflict_session_id: Option<ConflictSessionId>,
    pub message: Option<String>,
    pub claimed_by_pid: Option<u32>,
    pub claimed_at: Option<time::OffsetDateTime>,
}

} // verus!

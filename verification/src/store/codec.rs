//! Reading the stored text codes of statuses, outcomes and reasons back.

use vstd::prelude::*;

use crate::domain::conflict::{conflict_outcome_name, ConflictOutcome};
use crate::domain::queue::{
    outcome_name, reason_name, status_name, MergeFailureReason, QueueStatus, StepOutcome,
};
use crate::error::{Error, ErrorView};
use crate::text::{joined, text_eq};

verus! {

/// Reads a status from its name.
pub fn parse_status(s: &str) -> (r: Result<QueueStatus, Error>)
    ensures
        forall|x: QueueStatus| status_name(x) == s@ ==> r == Ok::<QueueStatus, Error>(x),
        match r {
            Ok(st) => status_name(st) == s@,
            Err(e) => (forall|st: QueueStatus| status_name(st) != s@)
                && e@ == ErrorView::Other("unknown status "@ + s@),
        },
{
    let r = if text_eq(s, "Queued") {
        Ok(QueueStatus::Queued)
    } else if text_eq(s, "Rebasing") {
        Ok(QueueStatus::Rebasing)
    } else if text_eq(s, "CIRunning") {
        Ok(QueueStatus::CIRunning)
    } else if text_eq(s, "Merging") {
        Ok(QueueStatus::Merging)
    } else if text_eq(s, "NeedsHelp") {
        Ok(QueueStatus::NeedsHelp)
    } else if text_eq(s, "Merged") {
        Ok(QueueStatus::Merged)
    } else if text_eq(s, "Failed") {
        Ok(QueueStatus::Failed)
    } else if text_eq(s, "Cancelled") {
        Ok(QueueStatus::Cancelled)
    } else {
        Err(Error::Other(joined("unknown status ", s)))
    };
    proof {
        assert forall|x: QueueStatus| status_name(x) == s@ implies r == Ok::<QueueStatus, Error>(x) by {
            match r {
                Ok(p) => lemma_status_names_distinct(x, p),
                Err(_) => {},
            }
        }
    }
    r
}

/// Reads a step outcome from its name.
pub fn parse_outcome(s: &str) -> (r: Result<StepOutcome, Error>)
    ensures
        forall|x: StepOutcome| outcome_name(x) == s@ ==> r == Ok::<StepOutcome, Error>(x),
        match r {
            Ok(o) => outcome_name(o) == s@,
            Err(e) => (forall|o: StepOutcome| outcome_name(o) != s@)
                && e@ == ErrorView::Other("unknown outcome "@ + s@),
        },
{
    let r = if text_eq(s, "PrecheckOk") {
        Ok(StepOutcome::PrecheckOk)
    } else if text_eq(s, "PrecheckDirtyTarget") {
        Ok(StepOutcome::PrecheckDirtyTarget)
    } else if text_eq(s, "RebaseOk") {
        Ok(StepOutcome::RebaseOk)
    } else if text_eq(s, "RebaseConflict") {
        Ok(StepOutcome::RebaseConflict)
    } else if text_eq(s, "LintPassed") {
        Ok(StepOutcome::LintPassed)
    } else if text_eq(s, "LintFailed") {
        Ok(StepOutcome::LintFailed)
    } else if text_eq(s, "TestPassed") {
        Ok(StepOutcome::TestPassed)
    } else if text_eq(s, "TestFailed") {
        Ok(StepOutcome::TestFailed)
    } else if text_eq(s, "BuildPassed") {
        Ok(StepOutcome::BuildPassed)
    } else if text_eq(s, "BuildFailed") {
        Ok(StepOutcome::BuildFailed)
    } else if text_eq(s, "FastForwardOk") {
        Ok(StepOutcome::FastForwardOk)
    } else if text_eq(s, "FastForwardRejected") {
        Ok(StepOutcome::FastForwardRejected)
    } else if text_eq(s, "AgentResolvedConflict") {
        Ok(StepOutcome::AgentResolvedConflict)
    } else if text_eq(s, "UserCancelled") {
        Ok(StepOutcome::UserCancelled)
    } else {
        Err(Error::Other(joined("unknown outcome ", s)))
    };
    proof {
        assert forall|x: StepOutcome| outcome_name(x) == s@ implies r == Ok::<StepOutcome, Error>(x) by {
            match r {
                Ok(p) => lemma_outcome_names_distinct(x, p),
                Err(_) => {},
            }
        }
    }
    r
}

/// Reads a failure reason from its name.
pub fn parse_failure_reason(s: &str) -> (r: Result<MergeFailureReason, Error>)
    ensures
        forall|x: MergeFailureReason| reason_name(x) == s@ ==> r == Ok::<MergeFailureReason, Error>(x),
        match r {
            Ok(x) => reason_name(x) == s@,
            Err(e) => (forall|x: MergeFailureReason| reason_name(x) != s@)
                && e@ == ErrorView::Other("unknown failure reason "@ + s@),
        },
{
    let r = if text_eq(s, "TargetWorktreeDirty") {
        Ok(MergeFailureReason::TargetWorktreeDirty)
    } else if text_eq(s, "RebaseUnresolvable") {
        Ok(MergeFailureReason::RebaseUnresolvable)
    } else if text_eq(s, "CILintFailed") {
        Ok(MergeFailureReason::CILintFailed)
    } else if text_eq(s, "CITestsFailed") {
        Ok(MergeFailureReason::CITestsFailed)
    } else if text_eq(s, "CIBuildFailed") {
        Ok(MergeFailureReason::CIBuildFailed)
    } else if text_eq(s, "FastForwardFailed") {
        Ok(MergeFailureReason::FastForwardFailed)
    } else if text_eq(s, "WorktreeGone") {
        Ok(MergeFailureReason::WorktreeGone)
    } else if text_eq(s, "UserCancelled") {
        Ok(MergeFailureReason::UserCancelled)
    } else if text_eq(s, "UncleanShutdown") {
        Ok(MergeFailureReason::UncleanShutdown)
    } else {
        Err(Error::Other(joined("unknown failure reason ", s)))
    };
    proof {
        assert forall|x: MergeFailureReason| reason_name(x) == s@ implies r == Ok::<MergeFailureReason, Error>(x) by {
            match r {
                Ok(p) => lemma_reason_names_distinct(x, p),
                Err(_) => {},
            }
        }
    }
    r
}

/// Reads a conflict-session outcome from its name.
pub fn parse_conflict_outcome(s: &str) -> (r: Result<ConflictOutcome, Error>)
    ensures
        forall|x: ConflictOutcome| conflict_outcome_name(x) == s@ ==> r == Ok::<ConflictOutcome, Error>(x),
        match r {
            Ok(x) => conflict_outcome_name(x) == s@,
            Err(e) => (forall|x: ConflictOutcome| conflict_outcome_name(x) != s@)
                && e@ == ErrorView::Other("unknown conflict outcome "@ + s@),
        },
{
    let r = if text_eq(s, "Resolved") {
        Ok(ConflictOutcome::Resolved)
    } else if text_eq(s, "Abandoned") {
        Ok(ConflictOutcome::Abandoned)
    } else if text_eq(s, "AgentCrashed") {
        Ok(ConflictOutcome::AgentCrashed)
    } else {
        Err(Error::Other(joined("unknown conflict outcome ", s)))
    };
    proof {
        assert forall|x: ConflictOutcome| conflict_outcome_name(x) == s@ implies r == Ok::<ConflictOutcome, Error>(x) by {
            match r {
                Ok(p) => lemma_conflict_outcome_names_distinct(x, p),
                Err(_) => {},
            }
        }
    }
    r
}

/// Different statuses have different names, so the name of a status reads
/// back as that status.
pub proof fn lemma_status_names_distinct(a: QueueStatus, b: QueueStatus)
    ensures
        status_name(a) == status_name(b) ==> a == b,
{
    reveal_strlit("Queued");
    reveal_strlit("Rebasing");
    reveal_strlit("CIRunning");
    reveal_strlit("Merging");
    reveal_strlit("NeedsHelp");
    reveal_strlit("Merged");
    reveal_strlit("Failed");
    reveal_strlit("Cancelled");
    if status_name(a) == status_name(b) {
        assert(status_name(a).len() == status_name(b).len());
        assert(status_name(a)[0] == status_name(b)[0]);
        assert(status_name(a)[1] == status_name(b)[1]);
    }
}

/// Different outcomes have different names.
pub proof fn lemma_outcome_names_distinct(a: StepOutcome, b: StepOutcome)
    ensures
        outcome_name(a) == outcome_name(b) ==> a == b,
{
    reveal_strlit("PrecheckOk");
    reveal_strlit("PrecheckDirtyTarget");
    reveal_strlit("RebaseOk");
    reveal_strlit("RebaseConflict");
    reveal_strlit("LintPassed");
    reveal_strlit("LintFailed");
    reveal_strlit("TestPassed");
    reveal_strlit("TestFailed");
    reveal_strlit("BuildPassed");
    reveal_strlit("BuildFailed");
    reveal_strlit("FastForwardOk");
    reveal_strlit("FastForwardRejected");
    reveal_strlit("AgentResolvedConflict");
    reveal_strlit("UserCancelled");
    if outcome_name(a) == outcome_name(b) {
        assert(outcome_name(a).len() == outcome_name(b).len());
        assert(outcome_name(a)[0] == outcome_name(b)[0]);
        assert(outcome_name(a)[4] == outcome_name(b)[4]);
        assert(outcome_name(a)[5] == outcome_name(b)[5]);
    }
}

/// Different failure reasons have different names.
pub proof fn lemma_reason_names_distinct(a: MergeFailureReason, b: MergeFailureReason)
    ensures
        reason_name(a) == reason_name(b) ==> a == b,
{
    reveal_strlit("TargetWorktreeDirty");
    reveal_strlit("RebaseUnresolvable");
    reveal_strlit("CILintFailed");
    reveal_strlit("CITestsFailed");
    reveal_strlit("CIBuildFailed");
    reveal_strlit("FastForwardFailed");
    reveal_strlit("WorktreeGone");
    reveal_strlit("UserCancelled");
    reveal_strlit("UncleanShutdown");
    if reason_name(a) == reason_name(b) {
        assert(reason_name(a).len() == reason_name(b).len());
        assert(reason_name(a)[0] == reason_name(b)[0]);
        assert(reason_name(a)[2] == reason_name(b)[2]);
    }
}

/// Different session outcomes have different names.
pub proof fn lemma_conflict_outcome_names_distinct(a: ConflictOutcome, b: ConflictOutcome)
    ensures
        conflict_outcome_name(a) == conflict_outcome_name(b) ==> a == b,
{
    reveal_strlit("Resolved");
    reveal_strlit("Abandoned");
    reveal_strlit("AgentCrashed");
    if conflict_outcome_name(a) == conflict_outcome_name(b) {
        assert(conflict_outcome_name(a).len() == conflict_outcome_name(b).len());
    }
}

} // verus!

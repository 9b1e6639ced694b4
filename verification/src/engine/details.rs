//! The human-readable progress notes the worker attaches to an entry.

use vstd::prelude::*;

use crate::domain::queue::{reason_name, QueueEntry, StepOutcome};
use crate::domain::state_machine::{NextAction, TerminalStatus};
use crate::engine::ci::log_file_name;
use crate::paths::{join_path, joined_path};
use crate::text::{joined, joined3};

verus! {

/// How a progress note reads: a step that succeeded, one that blocks the
/// entry, or plain information.
#[derive(Debug, Clone, Copy, PartialEq, Eq, Structural)]
pub enum QueueEntryDetailStatus {
    Success,
    Blocked,
    Info,
}

/// One progress note.
#[derive(Debug, Clone)]
pub struct StepDetail {
    pub status: QueueEntryDetailStatus,
    pub title: String,
    pub detail: Option<String>,
}

/// A progress note with its texts as character sequences.
pub struct StepDetailView {
    pub status: QueueEntryDetailStatus,
    pub title: Seq<char>,
    pub detail: Option<Seq<char>>,
}

impl View for StepDetail {
    type V = StepDetailView;

    open spec fn view(&self) -> StepDetailView {
        StepDetailView {
            status: self.status,
            title: self.title@,
            detail: match self.detail {
                Some(d) => Some(d@),
                None => None,
            },
        }
    }
}

pub open spec fn note(
    status: QueueEntryDetailStatus,
    title: Seq<char>,
    detail: Option<Seq<char>>,
) -> StepDetailView {
    StepDetailView { status, title, detail }
}

/// The note pointing at a CI step's log, when the entry has a log directory.
pub open spec fn log_note(entry: QueueEntry, step: Seq<char>) -> Option<Seq<char>> {
    match entry.ci_log_dir {
        Some(dir) => Some("log: "@ + joined_path(dir@, log_file_name(step))),
        None => None,
    }
}

/// The headline an entry gets before anything else is said of it.
pub open spec fn default_headline_text(entry: QueueEntry) -> Seq<char> {
    "Merging "@ + entry.source_branch@ + " into "@ + entry.target_branch@
}

/// The note for an executed step and the outcome it reported, if any.
pub open spec fn step_note(action: NextAction, outcome: StepOutcome, entry: QueueEntry) -> Option<
    StepDetailView,
> {
    let ok = QueueEntryDetailStatus::Success;
    let blocked = QueueEntryDetailStatus::Blocked;
    match (action, outcome) {
        (NextAction::Rebase, StepOutcome::RebaseOk) => Some(
            note(
                ok,
                "Rebase completed"@,
                Some(entry.source_branch@ + " onto "@ + entry.target_branch@),
            ),
        ),
        (NextAction::Rebase, StepOutcome::RebaseConflict) => Some(
            note(blocked, "Rebase blocked"@, Some("Conflicts need an agent or human resolution"@)),
        ),
        (NextAction::RunLint, StepOutcome::LintPassed) => Some(
            note(ok, "Lint passed"@, log_note(entry, "lint"@)),
        ),
        (NextAction::RunLint, StepOutcome::LintFailed) => Some(
            note(blocked, "Lint failed"@, log_note(entry, "lint"@)),
        ),
        (NextAction::RunTest, StepOutcome::TestPassed) => Some(
            note(ok, "Tests passed"@, log_note(entry, "test"@)),
        ),
        (NextAction::RunTest, StepOutcome::TestFailed) => Some(
            note(blocked, "Tests failed"@, log_note(entry, "test"@)),
        ),
        (NextAction::RunBuild, StepOutcome::BuildPassed) => Some(
            note(ok, "Build passed"@, log_note(entry, "build"@)),
        ),
        (NextAction::RunBuild, StepOutcome::BuildFailed) => Some(
            note(blocked, "Build failed"@, log_note(entry, "build"@)),
        ),
        (NextAction::FastForward, StepOutcome::FastForwardOk) => Some(
            note(ok, "Fast-forward completed"@, Some(entry.target_branch@ + " advanced"@)),
        ),
        (NextAction::FastForward, StepOutcome::FastForwardRejected) => Some(
            note(
                blocked,
                "Fast-forward rejected"@,
                Some("Target moved while this entry was running"@),
            ),
        ),
        _ => None,
    }
}

/// The headline for a finished entry, with the note that goes with it.
pub open spec fn terminal_note(terminal: TerminalStatus, entry: QueueEntry) -> (
    Seq<char>,
    Option<StepDetailView>,
) {
    match terminal {
        TerminalStatus::Merged => (
            "Merged successfully"@,
            Some(
                note(
                    QueueEntryDetailStatus::Success,
                    "Entry merged"@,
                    Some(entry.source_branch@ + " -> "@ + entry.target_branch@),
                ),
            ),
        ),
        TerminalStatus::Failed(r) => ("Blocked: "@ + reason_name(r), None),
        TerminalStatus::NeedsHelp(r) => ("Needs help: "@ + reason_name(r), None),
        TerminalStatus::Cancelled => (
            "Cancelled"@,
            Some(note(QueueEntryDetailStatus::Info, "Entry cancelled"@, None)),
        ),
    }
}

fn detail(status: QueueEntryDetailStatus, title: &str, text: Option<String>) -> (r: StepDetail)
    ensures
        r@ == note(
            status,
            title@,
            match text {
                Some(t) => Some(t@),
                None => None,
            },
        ),
{
    StepDetail { status, title: String::from_str(title), detail: text }
}

/// The note pointing at a CI step's log.
pub fn log_detail(entry: &QueueEntry, step: &str) -> (r: Option<String>)
    ensures
        match r {
            Some(t) => log_note(*entry, step@) == Some(t@),
            None => log_note(*entry, step@) is None,
        },
{
    match &entry.ci_log_dir {
        Some(dir) => {
            let name = joined3("ci-", step, ".log");
            proof {
                reveal_strlit("ci-");
            }
            let path = join_path(dir.as_str(), name.as_str());
            Some(joined("log: ", path.as_str()))
        },
        None => None,
    }
}

/// The headline an entry gets before anything else is said of it.
pub fn default_headline(entry: &QueueEntry) -> (r: String)
    ensures
        r@ == default_headline_text(*entry),
{
    let mut h = joined3("Merging ", entry.source_branch.as_str(), " into ");
    h.append(entry.target_branch.as_str());
    h
}

/// The note for an executed step and the outcome it reported, if any.
pub fn record_step_detail(entry: &QueueEntry, action: NextAction, outcome: StepOutcome) -> (r:
    Option<StepDetail>)
    ensures
        match r {
            Some(d) => step_note(action, outcome, *entry) == Some(d@),
            None => step_note(action, outcome, *entry) is None,
        },
{
    let ok = QueueEntryDetailStatus::Success;
    let blocked = QueueEntryDetailStatus::Blocked;
    match (action, outcome) {
        (NextAction::Rebase, StepOutcome::RebaseOk) => {
            let t = joined3(entry.source_branch.as_str(), " onto ", entry.target_branch.as_str());
            Some(detail(ok, "Rebase completed", Some(t)))
        },
        (NextAction::Rebase, StepOutcome::RebaseConflict) => Some(
            detail(
                blocked,
                "Rebase blocked",
                Some(String::from_str("Conflicts need an agent or human resolution")),
            ),
        ),
        (NextAction::RunLint, StepOutcome::LintPassed) => Some(
            detail(ok, "Lint passed", log_detail(entry, "lint")),
        ),
        (NextAction::RunLint, StepOutcome::LintFailed) => Some(
            detail(blocked, "Lint failed", log_detail(entry, "lint")),
        ),
        (NextAction::RunTest, StepOutcome::TestPassed) => Some(
            detail(ok, "Tests passed", log_detail(entry, "test")),
        ),
        (NextAction::RunTest, StepOutcome::TestFailed) => Some(
            detail(blocked, "Tests failed", log_detail(entry, "test")),
        ),
        (NextAction::RunBuild, StepOutcome::BuildPassed) => Some(
            detail(ok, "Build passed", log_detail(entry, "build")),
        ),
        (NextAction::RunBuild, StepOutcome::BuildFailed) => Some(
            detail(blocked, "Build failed", log_detail(entry, "build")),
        ),
        (NextAction::FastForward, StepOutcome::FastForwardOk) => {
            let t = joined(entry.target_branch.as_str(), " advanced");
            Some(detail(ok, "Fast-forward completed", Some(t)))
        },
        (NextAction::FastForward, StepOutcome::FastForwardRejected) => Some(
            detail(
                blocked,
                "Fast-forward rejected",
                Some(String::from_str("Target moved while this entry was running")),
            ),
        ),
        _ => None,
    }
}

/// The headline for a finished entry, with the note that goes with it.
pub fn record_terminal_detail(entry: &QueueEntry, terminal: TerminalStatus) -> (r: (
    String,
    Option<StepDetail>,
))
    ensures
        r.0@ == terminal_note(terminal, *entry).0,
        match r.1 {
            Some(d) => terminal_note(terminal, *entry).1 == Some(d@),
            None => terminal_note(terminal, *entry).1 is None,
        },
{
    match terminal {
        TerminalStatus::Merged => {
            let t = joined3(entry.source_branch.as_str(), " -> ", entry.target_branch.as_str());
            (
                String::from_str("Merged successfully"),
                Some(detail(QueueEntryDetailStatus::Success, "Entry merged", Some(t))),
            )
        },
        TerminalStatus::Failed(r) => (joined("Blocked: ", r.as_str()), None),
        TerminalStatus::NeedsHelp(r) => (joined("Needs help: ", r.as_str()), None),
        TerminalStatus::Cancelled => (
            String::from_str("Cancelled"),
            Some(detail(QueueEntryDetailStatus::Info, "Entry cancelled", None)),
        ),
    }
}

/// The headline and note of an entry sent back to wait for a dirty target
/// worktree; `retry_shown` is the retry pause as the host displays it.
pub fn dirty_target_detail(root: &str, retry_shown: &str) -> (r: (String, StepDetail))
    ensures
        r.0@ == "Waiting for target worktree to be clean"@,
        r.1@ == note(
            QueueEntryDetailStatus::Blocked,
            "Target worktree is dirty"@,
            Some(root@ + " has uncommitted changes; will retry after "@ + retry_shown@),
        ),
{
    let t = joined3(root, " has uncommitted changes; will retry after ", retry_shown);
    (
        String::from_str("Waiting for target worktree to be clean"),
        detail(QueueEntryDetailStatus::Blocked, "Target worktree is dirty", Some(t)),
    )
}

} // verus!

//! `ProcessGit`: how the answers of the `git` binary are read.
//!
//! Each `interpret_*` function takes what one git command reported (its
//! exit status and its output, decoded as text) and gives the adapter's
//! result for it.

use vstd::prelude::*;

use crate::domain::ports::{FastForwardOutcome, RebaseOutcome};
use crate::error::{Error, ErrorView};
use crate::text::{
    contains_text, has_substring, joined, joined3, lines_of, split_lines, text_eq, trim,
    trim_text, views,
};

verus! {

/// The combined text git printed, as the adapter inspects it.
pub open spec fn combined_output(stdout: Seq<char>, stderr: Seq<char>) -> Seq<char> {
    trim(stdout) + "\n"@ + trim(stderr)
}

/// Whether a failed rebase's output reports conflicts.
pub open spec fn mentions_conflict(text: Seq<char>) -> bool {
    has_substring(text, "CONFLICT"@) || has_substring(text, "could not apply"@) || has_substring(
        text,
        "merge conflict"@,
    )
}

/// Whether a failed fast-forward's output reports a diverged history.
pub open spec fn mentions_non_fast_forward(text: Seq<char>) -> bool {
    has_substring(text, "Not possible to fast-forward"@) || has_substring(
        text,
        "non-fast-forward"@,
    )
}

/// Shells out to the user's `git` binary (the host runs the commands).
#[derive(Debug, Default, Clone)]
pub struct ProcessGit;

fn combined(stdout: &str, stderr: &str) -> (r: String)
    ensures
        r@ == combined_output(stdout@, stderr@),
{
    joined3(trim_text(stdout), "\n", trim_text(stderr))
}

fn git_failure(what: &str, stderr: &str) -> (e: Error)
    ensures
        e@ == ErrorView::Git(what@ + trim(stderr@)),
{
    Error::Git(joined(what, trim_text(stderr)))
}

impl ProcessGit {
    pub fn new() -> (r: Self) {
        ProcessGit
    }

    /// Reads `git status --porcelain`: the worktree is dirty iff anything
    /// but white space was printed.
    pub fn interpret_status(success: bool, stdout: &str, stderr: &str) -> (r: Result<bool, Error>)
        ensures
            match r {
                Ok(dirty) => success && dirty == (trim(stdout@).len() > 0),
                Err(e) => !success && e@ == ErrorView::Git("git status failed: "@ + trim(stderr@)),
            },
    {
        if !success {
            return Err(git_failure("git status failed: ", stderr));
        }
        Ok(trim_text(stdout).unicode_len() > 0)
    }

    /// Reads `git rev-parse --abbrev-ref HEAD`: the current branch.
    pub fn interpret_current_branch(success: bool, stdout: &str, stderr: &str) -> (r: Result<
        String,
        Error,
    >)
        ensures
            match r {
                Ok(b) => success && b@ == trim(stdout@),
                Err(e) => !success && e@ == ErrorView::Git(
                    "git rev-parse failed: "@ + trim(stderr@),
                ),
            },
    {
        if !success {
            return Err(git_failure("git rev-parse failed: ", stderr));
        }
        Ok(String::from_str(trim_text(stdout)))
    }

    /// Reads `git rev-parse HEAD`: the commit the worktree is at.
    pub fn interpret_head_sha(success: bool, stdout: &str, stderr: &str) -> (r: Result<String, Error>)
        ensures
            match r {
                Ok(b) => success && b@ == trim(stdout@),
                Err(e) => !success && e@ == ErrorView::Git(
                    "git rev-parse HEAD failed: "@ + trim(stderr@),
                ),
            },
    {
        if !success {
            return Err(git_failure("git rev-parse HEAD failed: ", stderr));
        }
        Ok(String::from_str(trim_text(stdout)))
    }

    /// Reads `git rev-parse --is-inside-work-tree` run in an existing
    /// directory: it is a worktree iff git succeeded and printed `true`.
    pub fn interpret_inside_work_tree(success: bool, stdout: &str) -> (r: bool)
        ensures
            r == (success && trim(stdout@) == "true"@),
    {
        success && text_eq(trim_text(stdout), "true")
    }

    /// Reads `git rebase <target>`. A failure whose output mentions a
    /// conflict is a conflict; any other failure carries git's text.
    pub fn interpret_rebase(success: bool, stdout: &str, stderr: &str) -> (r: RebaseOutcome)
        ensures
            success ==> r == RebaseOutcome::Success,
            !success && mentions_conflict(combined_output(stdout@, stderr@)) ==> r
                == RebaseOutcome::Conflict,
            !success && !mentions_conflict(combined_output(stdout@, stderr@)) ==> (r matches RebaseOutcome::OtherError(m)
                && m@ == trim(combined_output(stdout@, stderr@))),
    {
        if success {
            return RebaseOutcome::Success;
        }
        let text = combined(stdout, stderr);
        if contains_text(text.as_str(), "CONFLICT") || contains_text(text.as_str(), "could not apply")
            || contains_text(text.as_str(), "merge conflict") {
            return RebaseOutcome::Conflict;
        }
        RebaseOutcome::OtherError(String::from_str(trim_text(text.as_str())))
    }

    /// Reads `git rebase --abort`.
    pub fn interpret_abort(success: bool, stderr: &str) -> (r: Result<(), Error>)
        ensures
            match r {
                Ok(_) => success,
                Err(e) => !success && e@ == ErrorView::Git(
                    "git rebase --abort failed: "@ + trim(stderr@),
                ),
            },
    {
        if !success {
            return Err(git_failure("git rebase --abort failed: ", stderr));
        }
        Ok(())
    }

    /// Reads `git merge --ff-only <source>`. A failure that reports a
    /// diverged history is a non-fast-forward; any other failure carries
    /// git's text.
    pub fn interpret_fast_forward(success: bool, stdout: &str, stderr: &str) -> (r:
        FastForwardOutcome)
        ensures
            success ==> r == FastForwardOutcome::Success,
            !success && mentions_non_fast_forward(combined_output(stdout@, stderr@)) ==> r
                == FastForwardOutcome::NonFastForward,
            !success && !mentions_non_fast_forward(combined_output(stdout@, stderr@)) ==> (r matches FastForwardOutcome::OtherError(m)
                && m@ == trim(combined_output(stdout@, stderr@))),
    {
        if success {
            return FastForwardOutcome::Success;
        }
        let text = combined(stdout, stderr);
        if contains_text(text.as_str(), "Not possible to fast-forward") || contains_text(
            text.as_str(),
            "non-fast-forward",
        ) {
            return FastForwardOutcome::NonFastForward;
        }
        FastForwardOutcome::OtherError(String::from_str(trim_text(text.as_str())))
    }

    /// Reads `git rev-parse --show-toplevel` run from `start`: the worktree
    /// root, or "not a git repository" when git failed or printed nothing.
    pub fn interpret_toplevel(success: bool, stdout: &str, start: &str) -> (r: Result<String, Error>)
        ensures
            match r {
                Ok(root) => success && root@ == trim(stdout@) && root@.len() > 0,
                Err(e) => (!success || trim(stdout@).len() == 0) && e@ == ErrorView::NotAGitRepo(
                    start@,
                ),
            },
    {
        if !success {
            return Err(Error::NotAGitRepo(String::from_str(start)));
        }
        let s = trim_text(stdout);
        if s.unicode_len() == 0 {
            return Err(Error::NotAGitRepo(String::from_str(start)));
        }
        Ok(String::from_str(s))
    }

    /// Reads `git diff --name-only --diff-filter=U`: one conflicted path per
    /// line, none when nothing was printed.
    pub fn interpret_conflicted_files(success: bool, stdout: &str, stderr: &str) -> (r: Result<
        Vec<String>,
        Error,
    >)
        ensures
            match r {
                Ok(files) => success && views(files@) == lines_of(trim(stdout@)),
                Err(e) => !success && e@ == ErrorView::Git(
                    "git diff (conflicted files) failed: "@ + trim(stderr@),
                ),
            },
    {
        if !success {
            return Err(git_failure("git diff (conflicted files) failed: ", stderr));
        }
        let s = trim_text(stdout);
        Ok(split_lines(s))
    }
}

} // verus!

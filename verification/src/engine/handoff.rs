//! Conflict hand-off: what is opened, what the agent is told, and what the
//! entry records. Opening the window and starting the agent is the host's
//! part; when either fails the entry is still handed off so the engine
//! never gets stuck: the session is recorded with the window that was
//! opened, or with empty names when none could be.

use vstd::prelude::*;

use crate::agents::tmux::{session_name, window_name};
use crate::domain::agent_backend::{backend_name, AgentBackend};
use crate::domain::conflict::ConflictSession;
use crate::domain::ids::{is_random_uuid, short_text, ConflictSessionId};
use crate::domain::ports::{ConflictPrompt, TmuxHandle};
use crate::domain::queue::QueueEntry;
use crate::domain::repo::{RegisteredRepo, RepoCiConfig};
use crate::engine::details::{note, QueueEntryDetailStatus, StepDetail, StepDetailView};
use crate::text::{decimal, joined, joined3, views};

verus! {

/// The configured CI commands, in order lint, test, build.
pub open spec fn present_commands(ci: RepoCiConfig) -> Seq<Seq<char>> {
    (if ci.lint_command is Some {
        seq![ci.lint_command->0@]
    } else {
        seq![]
    }) + (if ci.test_command is Some {
        seq![ci.test_command->0@]
    } else {
        seq![]
    }) + (if ci.build_command is Some {
        seq![ci.build_command->0@]
    } else {
        seq![]
    })
}

/// The texts of `parts` with `sep` between consecutive ones.
pub open spec fn join_with(parts: Seq<Seq<char>>, sep: Seq<char>) -> Seq<char>
    decreases parts.len(),
{
    if parts.len() == 0 {
        seq![]
    } else if parts.len() == 1 {
        parts[0]
    } else {
        join_with(parts.drop_last(), sep) + sep + parts.last()
    }
}

/// The hint given to the agent on how to check its work: the configured
/// CI commands chained with `&&`, or none when none is configured.
pub open spec fn ci_hint_text(ci: RepoCiConfig) -> Option<Seq<char>> {
    if present_commands(ci).len() == 0 {
        None
    } else {
        Some(join_with(present_commands(ci), " && "@))
    }
}

fn append_part(acc: Option<String>, part: &String, sep: &str, Ghost(done): Ghost<Seq<Seq<char>>>) -> (r:
    Option<String>)
    requires
        acc is None <==> done.len() == 0,
        acc matches Some(a) ==> a@ == join_with(done, sep@),
    ensures
        r matches Some(a) && a@ == join_with(done.push(part@), sep@),
{
    assert(done.push(part@).drop_last() =~= done);
    match acc {
        Some(a) => {
            let mut a = a;
            a.append(sep);
            a.append(part.as_str());
            Some(a)
        },
        None => Some(String::from_str(part.as_str())),
    }
}

/// The CI hint for a repository.
pub fn ci_command_hint(repo: &RegisteredRepo) -> (r: Option<String>)
    ensures
        match r {
            Some(t) => ci_hint_text(repo.ci) == Some(t@),
            None => ci_hint_text(repo.ci) is None,
        },
{
    let ci = &repo.ci;
    let ghost mut done: Seq<Seq<char>> = seq![];
    let mut acc: Option<String> = None;
    match &ci.lint_command {
        Some(c) => {
            acc = append_part(acc, c, " && ", Ghost(done));
            proof {
                done = done.push(c@);
            }
        },
        None => {},
    }
    match &ci.test_command {
        Some(c) => {
            acc = append_part(acc, c, " && ", Ghost(done));
            proof {
                done = done.push(c@);
            }
        },
        None => {},
    }
    match &ci.build_command {
        Some(c) => {
            acc = append_part(acc, c, " && ", Ghost(done));
            proof {
                done = done.push(c@);
            }
        },
        None => {},
    }
    assert(done =~= present_commands(repo.ci));
    acc
}

/// Whether `part` stands in `text` at position `i`.
pub open spec fn occurs_at(text: Seq<char>, part: Seq<char>, i: int) -> bool {
    0 <= i && i + part.len() <= text.len() && text.subrange(i, i + part.len()) == part
}

/// The length of a configured command, zero when there is none.
pub open spec fn command_len(c: Option<String>) -> int {
    if c is Some {
        c->0@.len() as int
    } else {
        0
    }
}

/// How many of the CI commands are configured.
pub open spec fn command_count(ci: RepoCiConfig) -> int {
    (if ci.lint_command is Some {
        1int
    } else {
        0
    }) + (if ci.test_command is Some {
        1int
    } else {
        0
    }) + (if ci.build_command is Some {
        1int
    } else {
        0
    })
}

/// Joining two or three parts puts the separator between each pair.
proof fn lemma_join_small(a: Seq<char>, b: Seq<char>, c: Seq<char>, sep: Seq<char>)
    ensures
        join_with(seq![a], sep) == a,
        join_with(seq![a, b], sep) == a + sep + b,
        join_with(seq![a, b, c], sep) == a + sep + b + sep + c,
{
    let s1 = seq![a];
    let s2 = seq![a, b];
    let s3 = seq![a, b, c];
    assert(s2.drop_last() =~= s1);
    assert(s3.drop_last() =~= s2);
    assert(join_with(s1, sep) == a);
    assert(join_with(s2, sep) == join_with(s1, sep) + sep + b);
    assert(join_with(s3, sep) == join_with(s2, sep) + sep + c);
}

/// The CI hint names every configured command, in the order lint, test,
/// build, and is absent exactly when no command is configured: it starts
/// with the lint command, ends with the build command, and holds the test
/// command after the lint command and its ` && ` and before the ` && ` of
/// the build command; its length is that of the commands plus four
/// characters between each two of them.
pub proof fn lemma_ci_hint_lists_commands(ci: RepoCiConfig)
    ensures
        ci_hint_text(ci) is None <==> (ci.lint_command is None && ci.test_command is None
            && ci.build_command is None),
        ci_hint_text(ci) is Some ==> ({
            let h = ci_hint_text(ci)->0;
            &&& h.len() == command_len(ci.lint_command) + command_len(ci.test_command)
                + command_len(ci.build_command) + 4 * (command_count(ci) - 1)
            &&& ci.lint_command is Some ==> occurs_at(h, ci.lint_command->0@, 0)
            &&& ci.build_command is Some ==> occurs_at(
                h,
                ci.build_command->0@,
                h.len() - ci.build_command->0@.len(),
            )
            &&& ci.test_command is Some ==> exists|i: int|
                #[trigger] occurs_at(h, ci.test_command->0@, i) && (ci.lint_command is Some ==> i
                    >= ci.lint_command->0@.len() + 4) && (ci.build_command is Some ==> i
                    + ci.test_command->0@.len() + 4 <= h.len() - ci.build_command->0@.len())
        }),
{
    reveal_strlit(" && ");
    let sep = " && "@;
    let p = present_commands(ci);
    let l = if ci.lint_command is Some {
        ci.lint_command->0@
    } else {
        seq![]
    };
    let t = if ci.test_command is Some {
        ci.test_command->0@
    } else {
        seq![]
    };
    let b = if ci.build_command is Some {
        ci.build_command->0@
    } else {
        seq![]
    };
    lemma_join_small(l, t, b, sep);
    lemma_join_small(l, b, b, sep);
    lemma_join_small(t, b, b, sep);
    if ci.lint_command is Some && ci.test_command is Some && ci.build_command is Some {
        assert(p =~= seq![l, t, b]);
        let h = l + sep + t + sep + b;
        assert(h.subrange(0, l.len() as int) =~= l);
        assert(h.subrange(h.len() - b.len(), h.len() as int) =~= b);
        let i: int = l.len() + 4int;
        assert(h.subrange(i, i + t.len()) =~= t);
        assert(occurs_at(h, t, i));
    } else if ci.lint_command is Some && ci.test_command is Some {
        assert(p =~= seq![l, t]);
        let h = l + sep + t;
        assert(h.subrange(0, l.len() as int) =~= l);
        let i: int = l.len() + 4int;
        assert(h.subrange(i, i + t.len()) =~= t);
        assert(occurs_at(h, t, i));
    } else if ci.lint_command is Some && ci.build_command is Some {
        assert(p =~= seq![l, b]);
        let h = l + sep + b;
        assert(h.subrange(0, l.len() as int) =~= l);
        assert(h.subrange(h.len() - b.len(), h.len() as int) =~= b);
    } else if ci.test_command is Some && ci.build_command is Some {
        assert(p =~= seq![t, b]);
        let h = t + sep + b;
        assert(h.subrange(h.len() - b.len(), h.len() as int) =~= b);
        assert(h.subrange(0, t.len() as int) =~= t);
        assert(occurs_at(h, t, 0));
    } else if ci.lint_command is Some {
        assert(p =~= seq![l]);
        assert(l.subrange(0, l.len() as int) =~= l);
    } else if ci.test_command is Some {
        assert(p =~= seq![t]);
        assert(t.subrange(0, t.len() as int) =~= t);
        assert(occurs_at(t, t, 0));
    } else if ci.build_command is Some {
        assert(p =~= seq![b]);
        assert(b.subrange(0, b.len() as int) =~= b);
    } else {
        assert(p =~= seq![]);
    }
    if ci.test_command is Some {
        let i: int = if ci.lint_command is Some {
            l.len() + 4int
        } else {
            0
        };
        assert(occurs_at(ci_hint_text(ci)->0, ci.test_command->0@, i));
    }
}

/// What `std::path::Path::file_name` gives for a path text: its last
/// component, unless there is none (as for `/` or a path ending in `..`).
pub uninterp spec fn path_file_name(path: Seq<char>) -> Option<Seq<char>>;

/// Calls `Path::file_name` and reads the name back as text. Claimed: the
/// result is the named one (the text came from a `&str`, so reading it back
/// loses nothing).
#[verifier::external_body]
fn file_name_of(path: &str) -> (r: Option<String>)
    ensures
        match r {
            Some(n) => path_file_name(path@) == Some(n@),
            None => path_file_name(path@) is None,
        },
{
    std::path::Path::new(path).file_name().map(|n| n.to_string_lossy().into_owned())
}

/// The repository's name as the agent is told it: the last component of
/// its root, or `repo`.
pub open spec fn repo_name_text(root: Seq<char>) -> Seq<char> {
    match path_file_name(root) {
        Some(n) => n,
        None => "repo"@,
    }
}

/// What the agent is told about a conflicting entry.
pub fn conflict_prompt(repo: &RegisteredRepo, entry: &QueueEntry, conflicted_files: Vec<String>) -> (r:
    ConflictPrompt)
    ensures
        r.repo_name@ == repo_name_text(repo.root_path@),
        r.source_branch@ == entry.source_branch@,
        r.target_branch@ == entry.target_branch@,
        r.conflicted_files == conflicted_files,
        match r.ci_command_hint {
            Some(t) => ci_hint_text(repo.ci) == Some(t@),
            None => ci_hint_text(repo.ci) is None,
        },
{
    let repo_name = match file_name_of(repo.root_path.as_str()) {
        Some(n) => n,
        None => String::from_str("repo"),
    };
    ConflictPrompt {
        repo_name,
        source_branch: String::from_str(entry.source_branch.as_str()),
        target_branch: String::from_str(entry.target_branch.as_str()),
        conflicted_files,
        ci_command_hint: ci_command_hint(repo),
    }
}

/// The session and window a hand-off opens: the process's session, and a
/// window named after the entry's short id.
pub fn handoff_names(tmux_pid: u32, entry: &QueueEntry) -> (r: (String, String))
    ensures
        r.0@ == "mergequeue-"@ + decimal(tmux_pid as nat),
        r.1@ == "conflict-"@ + short_text(entry.id.0),
{
    let short = entry.id.short();
    (session_name(tmux_pid), window_name(short.as_str()))
}

/// A fresh session record for an entry handed to an agent.
pub fn new_conflict_session(
    entry: &QueueEntry,
    backend: AgentBackend,
    tmux_session: String,
    tmux_window: String,
    now: time::OffsetDateTime,
) -> (r: ConflictSession)
    ensures
        is_random_uuid(r.id.0),
        r.queue_entry_id == entry.id,
        r.agent_backend == backend,
        r.tmux_session == tmux_session,
        r.tmux_window == tmux_window,
        r.started_at == now,
        r.ended_at is None,
        r.outcome is None,
{
    ConflictSession {
        id: ConflictSessionId::new(),
        queue_entry_id: entry.id,
        agent_backend: backend,
        tmux_session,
        tmux_window,
        started_at: now,
        ended_at: None,
        outcome: None,
    }
}

/// The notes of a hand-off: a headline, the conflicted files (if any were
/// found), and how to reach the agent (or why it did not start).
pub open spec fn handoff_notes(
    files: Seq<Seq<char>>,
    agent_started: bool,
    session: Seq<char>,
    window: Seq<char>,
    error: Option<Seq<char>>,
    backend: AgentBackend,
) -> (Seq<char>, StepDetailView, StepDetailView) {
    (
        "Needs help resolving merge conflicts"@,
        note(
            QueueEntryDetailStatus::Blocked,
            "Rebase has conflicts"@,
            if files.len() == 0 {
                None
            } else {
                Some(join_with(files, ", "@))
            },
        ),
        note(
            QueueEntryDetailStatus::Info,
            backend_name(backend) + " handoff"@,
            Some(
                if agent_started {
                    "Attach with `t` to tmux "@ + session + ":"@ + window
                } else {
                    "Agent did not launch automatically: "@ + match error {
                        Some(e) => e,
                        None => "unknown error"@,
                    }
                },
            ),
        ),
    )
}

fn join_files(files: &Vec<String>) -> (r: Option<String>)
    ensures
        match r {
            Some(t) => files@.len() > 0 && t@ == join_with(views(files@), ", "@),
            None => files@.len() == 0,
        },
{
    let mut acc: Option<String> = None;
    let mut i: usize = 0;
    while i < files.len()
        invariant
            i <= files@.len(),
            acc is None <==> i == 0,
            acc matches Some(a) ==> a@ == join_with(views(files@).subrange(0, i as int), ", "@),
        decreases files@.len() - i,
    {
        assert(views(files@).subrange(0, i + 1) =~= views(files@).subrange(0, i as int).push(
            files@[i as int]@,
        ));
        acc = append_part(acc, &files[i], ", ", Ghost(views(files@).subrange(0, i as int)));
        i = i + 1;
    }
    assert(views(files@).subrange(0, files@.len() as int) =~= views(files@));
    acc
}

/// The notes of a hand-off.
pub fn handoff_details(
    conflicted_files: &Vec<String>,
    agent_started: bool,
    session: &str,
    window: &str,
    error: Option<String>,
    backend: AgentBackend,
) -> (r: (String, StepDetail, StepDetail))
    ensures
        ({
            let n = handoff_notes(
                views(conflicted_files@),
                agent_started,
                session@,
                window@,
                match error {
                    Some(e) => Some(e@),
                    None => None,
                },
                backend,
            );
            &&& r.0@ == n.0
            &&& r.1@ == n.1
            &&& r.2@ == n.2
        }),
{
    let files = join_files(conflicted_files);
    let conflict = StepDetail {
        status: QueueEntryDetailStatus::Blocked,
        title: String::from_str("Rebase has conflicts"),
        detail: files,
    };
    let text = if agent_started {
        let mut t = joined3("Attach with `t` to tmux ", session, ":");
        t.append(window);
        t
    } else {
        match error {
            Some(e) => joined("Agent did not launch automatically: ", e.as_str()),
            None => String::from_str("Agent did not launch automatically: unknown error"),
        }
    };
    proof {
        reveal_strlit("Agent did not launch automatically: unknown error");
        reveal_strlit("Agent did not launch automatically: ");
        reveal_strlit("unknown error");
        assert("Agent did not launch automatically: unknown error"@ =~= "Agent did not launch automatically: "@
            + "unknown error"@);
    }
    let agent = StepDetail {
        status: QueueEntryDetailStatus::Info,
        title: joined(backend.as_str(), " handoff"),
        detail: Some(text),
    };
    (String::from_str("Needs help resolving merge conflicts"), conflict, agent)
}

/// How far the host got in opening the hand-off: the window opened and the
/// agent started in it; the window opened but the agent failed (with the
/// failure's text); or the window could not be opened (with its text).
#[derive(Debug, Clone)]
pub enum HandoffAttempt {
    Started(TmuxHandle),
    AgentFailed(TmuxHandle, String),
    WindowFailed(String),
}

/// Where a hand-off's session points and how its agent fared.
#[derive(Debug, Clone)]
pub struct HandoffOutcome {
    pub tmux_session: String,
    pub tmux_window: String,
    pub agent_started: bool,
    pub error: Option<String>,
}

/// Decides the hand-off's record from how far the host got: the opened
/// window's names whenever a window was opened (the user can take over
/// there if the agent failed), empty names when no window could be opened;
/// the agent counts as started only when it was, and any failure's text is
/// kept.
pub fn handoff_outcome(attempt: HandoffAttempt) -> (r: HandoffOutcome)
    ensures
        match attempt {
            HandoffAttempt::Started(h) => r.tmux_session == h.session && r.tmux_window == h.window
                && r.agent_started && r.error is None,
            HandoffAttempt::AgentFailed(h, m) => r.tmux_session == h.session && r.tmux_window
                == h.window && !r.agent_started && r.error == Some(m),
            HandoffAttempt::WindowFailed(m) => r.tmux_session@ == Seq::<char>::empty()
                && r.tmux_window@ == Seq::<char>::empty() && !r.agent_started && r.error == Some(m),
        },
{
    match attempt {
        HandoffAttempt::Started(h) => HandoffOutcome {
            tmux_session: h.session,
            tmux_window: h.window,
            agent_started: true,
            error: None,
        },
        HandoffAttempt::AgentFailed(h, m) => HandoffOutcome {
            tmux_session: h.session,
            tmux_window: h.window,
            agent_started: false,
            error: Some(m),
        },
        HandoffAttempt::WindowFailed(m) => HandoffOutcome {
            tmux_session: String::new(),
            tmux_window: String::new(),
            agent_started: false,
            error: Some(m),
        },
    }
}

} // verus!

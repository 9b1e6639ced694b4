//! The decisions of the subcommands: which entry an id names, whether an
//! entry can be cancelled or retried and what changes, where a worktree
//! belongs. Reading the store and printing is the host's part.

use vstd::prelude::*;
use vstd::string::StringSliceAdditionalSpecFns;
use vstd::utf8::{decode_utf8, encode_utf8_decode_utf8};

use crate::domain::agent_backend::AgentBackend;
use crate::domain::conflict::ConflictSession;
use crate::domain::ids::{
    hyphenated_text, is_random_uuid, lemma_hyphenated_is_relative, simple_of, simple_text, uuid_parse_text,
    QueueEntryId, RepoId,
};
use crate::domain::queue::{MergeFailureReason, QueueEntry, QueueStatus, StepOutcome};
use crate::domain::repo::{duration_of_secs, secs, RegisteredRepo, RepoCiConfig};
use crate::paths::{join_path, joined_path, runs_dir};
use crate::error::{Error, ErrorView};
use crate::text::{decimal, has_prefix, joined, joined3, push_decimal, text_eq};

verus! {

/// Cancels an entry that is not yet final: it becomes `Cancelled` because
/// the user cancelled it, finished now, with no claim. A final entry is
/// left as it is and the result is `false`.
pub fn cancel_entry(entry: &mut QueueEntry, now: time::OffsetDateTime) -> (cancelled: bool)
    ensures
        cancelled == !old(entry).status.spec_is_terminal(),
        !cancelled ==> *final(entry) == *old(entry),
        cancelled ==> *final(entry) == (QueueEntry {
            status: QueueStatus::Cancelled,
            failure_reason: Some(MergeFailureReason::UserCancelled),
            finished_at: Some(now),
            claimed_by_pid: None,
            claimed_at: None,
            ..*old(entry)
        }),
{
    if entry.status.is_terminal() {
        return false;
    }
    entry.status = QueueStatus::Cancelled;
    entry.failure_reason = Some(MergeFailureReason::UserCancelled);
    entry.finished_at = Some(now);
    entry.claimed_by_pid = None;
    entry.claimed_at = None;
    true
}

/// Whether an entry may be retried: it failed, needs help, or was cancelled.
pub open spec fn retriable(s: QueueStatus) -> bool {
    s is Failed || s is NeedsHelp || s is Cancelled
}

/// Re-queues a failed, stuck or cancelled entry. An entry that needed help
/// resumes from the agent's resolution (the state machine routes it back
/// to the rebase), and its conflict session, if any, is returned so the host
/// can close it as resolved when still open. Any other entry starts again
/// from scratch. An entry in another status is refused (`None`) and left as
/// it is.
pub fn retry_entry(entry: &mut QueueEntry) -> (r: Option<Option<crate::domain::ids::ConflictSessionId>>)
    ensures
        r is Some == retriable(old(entry).status),
        r is None ==> *final(entry) == *old(entry),
        r matches Some(close) ==> close == (if old(entry).status is NeedsHelp {
            old(entry).conflict_session_id
        } else {
            None
        }),
        r is Some ==> *final(entry) == (QueueEntry {
            status: QueueStatus::Queued,
            failure_reason: None,
            finished_at: None,
            last_outcome: if old(entry).status is NeedsHelp {
                Some(StepOutcome::AgentResolvedConflict)
            } else {
                None
            },
            claimed_by_pid: None,
            claimed_at: None,
            ..*old(entry)
        }),
{
    let resumed = match entry.status {
        QueueStatus::NeedsHelp => true,
        QueueStatus::Failed | QueueStatus::Cancelled => false,
        _ => {
            return None;
        },
    };
    let close = if resumed {
        entry.conflict_session_id
    } else {
        None
    };
    entry.status = QueueStatus::Queued;
    entry.failure_reason = None;
    entry.finished_at = None;
    entry.last_outcome = if resumed {
        Some(StepOutcome::AgentResolvedConflict)
    } else {
        None
    };
    entry.claimed_by_pid = None;
    entry.claimed_at = None;
    Some(close)
}

/// A new entry queued for `source_branch` of a worktree of `repo`, into
/// `target` (the repository's default branch when none is given).
pub fn new_queue_entry(
    repo: &RegisteredRepo,
    source_worktree: String,
    source_branch: String,
    target: Option<String>,
    message: Option<String>,
    now: time::OffsetDateTime,
) -> (r: QueueEntry)
    ensures
        is_random_uuid(r.id.0),
        r.repo_id == repo.id,
        r.source_worktree == source_worktree,
        r.source_branch == source_branch,
        r.target_branch@ == (match target {
            Some(t) => t@,
            None => repo.default_branch@,
        }),
        r.status == QueueStatus::Queued,
        r.last_outcome is None,
        r.enqueued_at == now,
        r.started_at is None,
        r.finished_at is None,
        r.failure_reason is None,
        r.ci_log_dir is None,
        r.merge_log_path is None,
        r.conflict_session_id is None,
        r.message == message,
        r.claimed_by_pid is None,
        r.claimed_at is None,
{
    let target_branch = match target {
        Some(t) => t,
        None => String::from_str(repo.default_branch.as_str()),
    };
    QueueEntry {
        id: QueueEntryId::new(),
        repo_id: repo.id,
        source_worktree,
        source_branch,
        target_branch,
        status: QueueStatus::Queued,
        last_outcome: None,
        enqueued_at: now,
        started_at: None,
        finished_at: None,
        failure_reason: None,
        ci_log_dir: None,
        merge_log_path: None,
        conflict_session_id: None,
        message,
        claimed_by_pid: None,
        claimed_at: None,
    }
}

/// Which queue entry a user-supplied id names, among the known ones: a
/// full UUID names itself; otherwise (at least four bytes long) it is a
/// prefix of the undashed id of exactly one entry.
pub open spec fn id_matches(s: Seq<char>, id: QueueEntryId) -> bool {
    has_prefix(simple_text(id.0), s)
}

fn count_matches(s: &str, known: &Vec<QueueEntryId>) -> (r: (usize, Option<QueueEntryId>))
    ensures
        r.0 == known@.filter(|id: QueueEntryId| id_matches(s@, id)).len(),
        r.0 >= 1 ==> (r.1 matches Some(id) && id == known@.filter(|id: QueueEntryId| id_matches(s@, id))[0]),
{
    let ghost f = |id: QueueEntryId| id_matches(s@, id);
    let mut n: usize = 0;
    let mut first: Option<QueueEntryId> = None;
    let mut i: usize = 0;
    while i < known.len()
        invariant
            i <= known@.len(),
            f == (|id: QueueEntryId| id_matches(s@, id)),
            n == known@.subrange(0, i as int).filter(f).len(),
            n <= i,
            n >= 1 ==> (first matches Some(id) && id == known@.subrange(0, i as int).filter(f)[0]),
        decreases known@.len() - i,
    {
        let ghost prev = known@.subrange(0, i as int);
        assert(known@.subrange(0, i + 1) =~= prev.push(known@[i as int]));
        proof {
            Seq::filter_distributes_over_add(prev, seq![known@[i as int]], f);
            assert(prev + seq![known@[i as int]] =~= prev.push(known@[i as int]));
        }
        let text = simple_of(known[i].0);
        if starts_with_text(text.as_str(), s) {
            if n == 0 {
                first = Some(known[i]);
            }
            n = n + 1;
            assert(seq![known@[i as int]].filter(f) =~= seq![known@[i as int]]) by {
                reveal_with_fuel(Seq::filter, 2);
            }
        } else {
            assert(seq![known@[i as int]].filter(f) =~= Seq::<QueueEntryId>::empty()) by {
                reveal_with_fuel(Seq::filter, 2);
            }
        }
        i = i + 1;
    }
    assert(known@.subrange(0, known@.len() as int) =~= known@);
    (n, first)
}

/// Whether `s` begins with `prefix`.
pub fn starts_with_text(s: &str, prefix: &str) -> (r: bool)
    ensures
        r == has_prefix(s@, prefix@),
{
    let n = s.unicode_len();
    let m = prefix.unicode_len();
    if m > n {
        return false;
    }
    let mut k: usize = 0;
    while k < m
        invariant
            n == s@.len(),
            m == prefix@.len(),
            m <= n,
            k <= m,
            forall|j: int| 0 <= j < k ==> s@[j] == prefix@[j],
        decreases m - k,
    {
        if s.get_char(k) != prefix.get_char(k) {
            assert(s@.subrange(0, m as int)[k as int] != prefix@[k as int]);
            return false;
        }
        k = k + 1;
    }
    assert(s@.subrange(0, m as int) =~= prefix@);
    true
}

/// Accepts a full UUID or an undashed prefix of at least four bytes that
/// names exactly one of the known entries.
pub fn resolve_id(s: &str, known: &Vec<QueueEntryId>) -> (r: Result<QueueEntryId, Error>)
    ensures
        ({
            let matching = known@.filter(|id: QueueEntryId| id_matches(s@, id));
            match uuid_parse_text(s@) {
                Some(b) => r == Ok::<QueueEntryId, Error>(QueueEntryId(b)),
                None => if s.spec_bytes().len() < 4 {
                    (r matches Err(e) && e@ == ErrorView::Invalid(
                        "id `"@ + s@ + "` is too short (need "@ + seq!['\u{2265}'] + "4 chars or full UUID)"@,
                    ))
                } else if matching.len() == 0 {
                    (r matches Err(e) && e@ == ErrorView::NotFound("entry "@ + s@))
                } else if matching.len() > 1 {
                    (r matches Err(e) && e@ == ErrorView::Invalid(
                        "id `"@ + s@ + "` is ambiguous ("@ + decimal(matching.len()) + " matches)"@,
                    ))
                } else {
                    r == Ok::<QueueEntryId, Error>(matching[0])
                },
            }
        }),
{
    if let Ok(id) = QueueEntryId::parse_str(s) {
        return Ok(id);
    }
    if s.as_bytes().len() < 4 {
        let mut m = joined3("id `", s, "` is too short (need ");
        m.append("\u{2265}");
        m.append("4 chars or full UUID)");
        proof {
            reveal_strlit("\u{2265}");
            assert(m@ =~= "id `"@ + s@ + "` is too short (need "@ + seq!['\u{2265}']
                + "4 chars or full UUID)"@);
        }
        return Err(Error::Invalid(m));
    }
    let (n, first) = count_matches(s, known);
    if n == 0 {
        return Err(Error::NotFound(joined("entry ", s)));
    }
    if n > 1 {
        let mut m = joined3("id `", s, "` is ambiguous (");
        push_decimal(&mut m, n as u128);
        m.append(" matches)");
        assert(m@ =~= "id `"@ + s@ + "` is ambiguous ("@ + decimal(n as nat) + " matches)"@);
        return Err(Error::Invalid(m));
    }
    match first {
        Some(id) => Ok(id),
        None => Err(Error::NotFound(joined("entry ", s))),
    }
}

/// Whether two path texts name the same path component by component, as
/// `Path == Path` decides.
pub uninterp spec fn same_path(a: Seq<char>, b: Seq<char>) -> bool;

/// Whether the path `path` lies at or under `base`, as `Path::starts_with`
/// decides (whole components only).
pub uninterp spec fn path_under(path: Seq<char>, base: Seq<char>) -> bool;

/// Calls `Path::eq` on the two texts; the result is named by `same_path`.
#[verifier::external_body]
fn paths_equal(a: &str, b: &str) -> (r: bool)
    ensures
        r == same_path(a@, b@),
{
    std::path::Path::new(a) == std::path::Path::new(b)
}

/// Calls `Path::starts_with`; the result is named by `path_under`.
#[verifier::external_body]
fn path_starts_with(path: &str, base: &str) -> (r: bool)
    ensures
        r == path_under(path@, base@),
{
    std::path::Path::new(path).starts_with(base)
}

/// Whether repository `i`'s root is the worktree's root (`exact`), or
/// contains it.
pub open spec fn root_fits(repos: Seq<RegisteredRepo>, w: Seq<char>, i: int, exact: bool) -> bool {
    if exact {
        same_path(repos[i].root_path@, w)
    } else {
        path_under(w, repos[i].root_path@)
    }
}

/// The first repository from `i` on whose root fits.
pub open spec fn first_fit(repos: Seq<RegisteredRepo>, w: Seq<char>, i: int, exact: bool) -> Option<int>
    decreases repos.len() - i,
{
    if i < 0 || i >= repos.len() {
        None
    } else if root_fits(repos, w, i, exact) {
        Some(i)
    } else {
        first_fit(repos, w, i + 1, exact)
    }
}

/// The repository a worktree belongs to: the first whose root is the
/// worktree's root, otherwise the first whose root contains it.
pub open spec fn picked_repo(repos: Seq<RegisteredRepo>, w: Seq<char>) -> Option<int> {
    match first_fit(repos, w, 0, true) {
        Some(i) => Some(i),
        None => first_fit(repos, w, 0, false),
    }
}

/// The registered repository a worktree belongs to: the first whose root
/// is the worktree's root, otherwise the first whose root contains it.
pub fn pick_repo_for_worktree<'a>(repos: &'a Vec<RegisteredRepo>, worktree_root: &str) -> (r: Option<
    &'a RegisteredRepo,
>)
    ensures
        match r {
            Some(rp) => picked_repo(repos@, worktree_root@) matches Some(i) && *rp == repos@[i],
            None => picked_repo(repos@, worktree_root@) is None,
        },
{
    let mut i: usize = 0;
    while i < repos.len()
        invariant
            i <= repos@.len(),
            first_fit(repos@, worktree_root@, 0, true) == first_fit(
                repos@,
                worktree_root@,
                i as int,
                true,
            ),
        decreases repos@.len() - i,
    {
        if paths_equal(repos[i].root_path.as_str(), worktree_root) {
            return Some(&repos[i]);
        }
        i = i + 1;
    }
    let mut k: usize = 0;
    while k < repos.len()
        invariant
            k <= repos@.len(),
            first_fit(repos@, worktree_root@, 0, true) is None,
            first_fit(repos@, worktree_root@, 0, false) == first_fit(
                repos@,
                worktree_root@,
                k as int,
                false,
            ),
        decreases repos@.len() - k,
    {
        if path_starts_with(worktree_root, repos[k].root_path.as_str()) {
            return Some(&repos[k]);
        }
        k = k + 1;
    }
    None
}

/// Whether a user-supplied text names a repository: a prefix of its
/// undashed id, or its root path exactly.
pub open spec fn repo_matches(s: Seq<char>, repo: RegisteredRepo) -> bool {
    has_prefix(simple_text(repo.id.0), s) || repo.root_path@ == s
}

fn count_repo_matches(s: &str, repos: &Vec<RegisteredRepo>) -> (r: (usize, Option<RepoId>))
    ensures
        r.0 == repos@.filter(|x: RegisteredRepo| repo_matches(s@, x)).len(),
        r.0 >= 1 ==> (r.1 matches Some(id) && id == repos@.filter(
            |x: RegisteredRepo| repo_matches(s@, x),
        )[0].id),
{
    let ghost f = |x: RegisteredRepo| repo_matches(s@, x);
    let mut n: usize = 0;
    let mut first: Option<RepoId> = None;
    let mut i: usize = 0;
    while i < repos.len()
        invariant
            i <= repos@.len(),
            f == (|x: RegisteredRepo| repo_matches(s@, x)),
            n == repos@.subrange(0, i as int).filter(f).len(),
            n <= i,
            n >= 1 ==> (first matches Some(id) && id == repos@.subrange(0, i as int).filter(f)[0].id),
        decreases repos@.len() - i,
    {
        let ghost prev = repos@.subrange(0, i as int);
        assert(repos@.subrange(0, i + 1) =~= prev.push(repos@[i as int]));
        proof {
            Seq::filter_distributes_over_add(prev, seq![repos@[i as int]], f);
            assert(prev + seq![repos@[i as int]] =~= prev.push(repos@[i as int]));
        }
        let text = simple_of(repos[i].id.0);
        if starts_with_text(text.as_str(), s) || text_eq(repos[i].root_path.as_str(), s) {
            if n == 0 {
                first = Some(repos[i].id);
            }
            n = n + 1;
            assert(seq![repos@[i as int]].filter(f) =~= seq![repos@[i as int]]) by {
                reveal_with_fuel(Seq::filter, 2);
            }
        } else {
            assert(seq![repos@[i as int]].filter(f) =~= Seq::<RegisteredRepo>::empty()) by {
                reveal_with_fuel(Seq::filter, 2);
            }
        }
        i = i + 1;
    }
    assert(repos@.subrange(0, repos@.len() as int) =~= repos@);
    (n, first)
}

/// Accepts a full UUID, an undashed id prefix or a root path that names
/// exactly one registered repository.
pub fn resolve_repo_id(s: &str, repos: &Vec<RegisteredRepo>) -> (r: Result<RepoId, Error>)
    ensures
        ({
            let matching = repos@.filter(|x: RegisteredRepo| repo_matches(s@, x));
            match uuid_parse_text(s@) {
                Some(b) => r == Ok::<RepoId, Error>(RepoId(b)),
                None => if matching.len() == 0 {
                    (r matches Err(e) && e@ == ErrorView::NotFound("repo "@ + s@))
                } else if matching.len() == 1 {
                    r == Ok::<RepoId, Error>(matching[0].id)
                } else {
                    (r matches Err(e) && e@ == ErrorView::Invalid(
                        "ambiguous repo identifier `"@ + s@ + "` ("@ + decimal(matching.len())
                            + " matches)"@,
                    ))
                },
            }
        }),
{
    if let Ok(id) = RepoId::parse_str(s) {
        return Ok(id);
    }
    let (n, first) = count_repo_matches(s, repos);
    if n == 0 {
        return Err(Error::NotFound(joined("repo ", s)));
    }
    if n == 1 {
        return match first {
            Some(id) => Ok(id),
            None => Err(Error::NotFound(joined("repo ", s))),
        };
    }
    let mut m = joined3("ambiguous repo identifier `", s, "` (");
    push_decimal(&mut m, n as u128);
    m.append(" matches)");
    assert(m@ =~= "ambiguous repo identifier `"@ + s@ + "` ("@ + decimal(n as nat) + " matches)"@);
    Err(Error::Invalid(m))
}

/// The text of `s` cut to at most `max` bytes for a table column: when it
/// is longer, its first `max - 1` bytes followed by an ellipsis.
pub open spec fn truncated(s: Seq<char>, max: int) -> Seq<char> {
    let bytes = vstd::utf8::encode_utf8(s);
    if bytes.len() <= max {
        s
    } else {
        decode_utf8(bytes.subrange(0, max - 1)) + seq!['\u{2026}']
    }
}

/// `s` cut to at most `max` bytes for a table column. The cut must fall on
/// a character boundary.
pub fn truncate(s: &str, max: usize) -> (r: String)
    requires
        s.spec_bytes().len() > max ==> max >= 1 && vstd::utf8::is_char_boundary(
            s.spec_bytes(),
            max - 1,
        ),
    ensures
        r@ == truncated(s@, max as int),
{
    if s.as_bytes().len() <= max {
        String::from_str(s)
    } else {
        let (head, _) = s.split_at(max - 1);
        proof {
            encode_utf8_decode_utf8(head@);
            assert(head.spec_bytes() =~= s.spec_bytes().subrange(0, max - 1));
            assert(head@ == decode_utf8(s.spec_bytes().subrange(0, max - 1)));
        }
        let r = joined(head, "\u{2026}");
        proof {
            reveal_strlit("\u{2026}");
            assert(r@ =~= decode_utf8(s.spec_bytes().subrange(0, max - 1)) + seq!['\u{2026}']);
        }
        r
    }
}

/// A repository registered at `root`: a fresh id, the given default branch
/// and CI commands, a 30-second pause before a dirty target is checked
/// again, the opencode backend, created and updated now.
pub fn new_registered_repo(
    root: String,
    default_branch: String,
    lint: Option<String>,
    test: Option<String>,
    build: Option<String>,
    now: time::OffsetDateTime,
) -> (r: RegisteredRepo)
    ensures
        is_random_uuid(r.id.0),
        r.root_path == root,
        r.default_branch == default_branch,
        r.ci.lint_command == lint,
        r.ci.test_command == test,
        r.ci.build_command == build,
        r.ci.dirty_retry == duration_of_secs(30),
        r.agent_backend == AgentBackend::Opencode,
        r.created_at == now,
        r.updated_at == now,
{
    RegisteredRepo {
        id: RepoId::new(),
        root_path: root,
        default_branch,
        ci: RepoCiConfig {
            lint_command: lint,
            test_command: test,
            build_command: build,
            dirty_retry: secs(30),
        },
        agent_backend: AgentBackend::Opencode,
        created_at: now,
        updated_at: now,
    }
}

/// Why a branch cannot be queued for a target: it is the target itself.
pub fn branch_refusal(source: &str, target: &str) -> (r: Option<String>)
    ensures
        match r {
            Some(m) => source@ == target@ && m@ == "cannot enqueue: source branch `"@ + source@
                + "` is the target branch."@,
            None => source@ != target@,
        },
{
    if text_eq(source, target) {
        Some(joined3("cannot enqueue: source branch `", source, "` is the target branch."))
    } else {
        None
    }
}

/// The directory holding an entry's logs: the one it recorded, or
/// `runs/<entry id>` under the state root.
pub fn entry_log_dir(entry: &QueueEntry, state_root: &str) -> (r: String)
    ensures
        r@ == match entry.ci_log_dir {
            Some(d) => d@,
            None => joined_path(joined_path(state_root@, "runs"@), hyphenated_text(entry.id.0)),
        },
{
    match &entry.ci_log_dir {
        Some(d) => String::from_str(d.as_str()),
        None => {
            let runs = runs_dir(state_root);
            let id = entry.id.to_string();
            proof {
                lemma_hyphenated_is_relative(entry.id.0);
            }
            join_path(runs.as_str(), id.as_str())
        },
    }
}

/// Whether a retried entry's conflict session is to be closed as resolved:
/// only while it is still open. One already closed (the recovery sweep may
/// have found it abandoned) keeps its outcome.
pub fn still_open(session: &ConflictSession) -> (r: bool)
    ensures
        r == (session.ended_at is None),
{
    session.ended_at.is_none()
}

} // verus!

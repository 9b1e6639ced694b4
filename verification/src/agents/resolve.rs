//! Reopening the agent session of an entry that needs help: which session
//! it points at, whether its window can be reused, and what a respawn
//! records.

use vstd::prelude::*;

use crate::domain::agent_backend::AgentBackend;
use crate::domain::conflict::ConflictSession;
use crate::domain::ids::{hyphenated_text, is_random_uuid, short_text, ConflictSessionId};
use crate::domain::queue::QueueEntry;
use crate::error::{Error, ErrorView};
use crate::text::{joined, joined3};

verus! {

/// The conflict session an entry points at; an entry that records none is
/// refused.
pub fn recorded_session(entry: &QueueEntry) -> (r: Result<ConflictSessionId, Error>)
    ensures
        match entry.conflict_session_id {
            Some(id) => r == Ok::<ConflictSessionId, Error>(id),
            None => r matches Err(e) && e@ == ErrorView::Invalid(
                "entry "@ + short_text(entry.id.0) + " has no conflict session recorded"@,
            ),
        },
{
    match entry.conflict_session_id {
        Some(id) => Ok(id),
        None => {
            let short = entry.id.short();
            Err(Error::Invalid(joined3("entry ", short.as_str(), " has no conflict session recorded")))
        },
    }
}

/// The error for a session id that has no stored record.
pub fn missing_session(id: ConflictSessionId) -> (e: Error)
    ensures
        e@ == ErrorView::NotFound("conflict session "@ + hyphenated_text(id.0)),
{
    let text = id.to_string();
    Error::NotFound(joined("conflict session ", text.as_str()))
}

/// Whether the recorded window can be reused: only when the query says it
/// is alive. A failed query leads to a respawn.
pub fn reuse_window(window_alive: &Result<bool, Error>) -> (r: bool)
    ensures
        r == (*window_alive matches Ok(alive) && alive),
{
    match window_alive {
        Ok(alive) => *alive,
        Err(_) => false,
    }
}

/// The session that replaces an abandoned one: a fresh id, the entry, the
/// repository's backend and the new window, started now and still open.
pub fn respawned_session(
    entry: &QueueEntry,
    backend: AgentBackend,
    tmux_session: String,
    tmux_window: String,
    now: time::OffsetDateTime,
) -> (r: ConflictSession)
    ensures
        is_random_uuid(r.id.0),
        r.queue_entry_id == entry.id,
        r.agent_backend == backend,
        r.tmux_session == tmux_session,
        r.tmux_window == tmux_window,
        r.started_at == now,
        r.ended_at is None,
        r.outcome is None,
{
    ConflictSession {
        id: ConflictSessionId::new(),
        queue_entry_id: entry.id,
        agent_backend: backend,
        tmux_session,
        tmux_window,
        started_at: now,
        ended_at: None,
        outcome: None,
    }
}

/// Points an entry at a new conflict session, leaving everything else.
pub fn repoint_session(entry: &mut QueueEntry, session: ConflictSessionId)
    ensures
        *final(entry) == (QueueEntry { conflict_session_id: Some(session), ..*old(entry) }),
{
    entry.conflict_session_id = Some(session);
}

} // verus!

//! Rows of the `conflict_sessions` table.

use vstd::prelude::*;

use crate::domain::agent_backend::{backend_name, AgentBackend};
use crate::domain::conflict::{conflict_outcome_name, ConflictOutcome, ConflictSession};
use crate::domain::ids::{uuid_parse_text, ConflictSessionId, QueueEntryId};
use crate::error::{Error, ErrorView};
use crate::store::codec::{lemma_conflict_outcome_names_distinct, parse_conflict_outcome};
use crate::store::repo_rows::{is_backend_name, lemma_backend_names_distinct};
use crate::store::rows::{
    datetime_of_unix, id_error, lemma_opt_time_round_trip, lemma_time_round_trip, opt_time,
    opt_time_ok, opt_time_written, read_opt_time, read_time, storable_opt_time, storable_time,
    time_written, timestamp_error, timestamp_in_range, write_opt_time, write_time,
};
use crate::text::owned;

verus! {

/// A row of the `conflict_sessions` table.
#[derive(Debug, Clone)]
pub struct ConflictRow {
    pub id: String,
    pub queue_entry_id: String,
    pub agent_backend: String,
    pub tmux_session: String,
    pub tmux_window: String,
    pub started_at: i64,
    pub ended_at: Option<i64>,
    pub outcome: Option<String>,
}

/// Whether some session outcome is named `s`.
pub open spec fn is_conflict_outcome_name(s: Seq<char>) -> bool {
    exists|o: ConflictOutcome| conflict_outcome_name(o) == s
}

/// Whether an optional session outcome and an optional stored name agree.
pub open spec fn conflict_outcome_stored_as(o: Option<ConflictOutcome>, t: Option<String>) -> bool {
    match (o, t) {
        (None, None) => true,
        (Some(x), Some(s)) => conflict_outcome_name(x) == s@,
        _ => false,
    }
}

/// The first column of a session row that cannot be read, in the order the
/// columns are read, with its error; none when the whole row reads.
pub open spec fn conflict_row_error(row: ConflictRow) -> Option<ErrorView> {
    if uuid_parse_text(row.id@) is None {
        Some(id_error(row.id@))
    } else if uuid_parse_text(row.queue_entry_id@) is None {
        Some(id_error(row.queue_entry_id@))
    } else if !is_backend_name(row.agent_backend@) {
        Some(ErrorView::Invalid("unknown agent backend: "@ + row.agent_backend@))
    } else if !timestamp_in_range(row.started_at) {
        Some(timestamp_error(row.started_at))
    } else if !opt_time_ok(row.ended_at) {
        Some(timestamp_error(row.ended_at->0))
    } else if row.outcome is Some && !is_conflict_outcome_name(row.outcome->0@) {
        Some(ErrorView::Other("unknown conflict outcome "@ + row.outcome->0@))
    } else {
        None
    }
}

/// Whether a session is what a row reads as, column by column.
pub open spec fn conflict_read_from(s: ConflictSession, row: ConflictRow) -> bool {
    &&& uuid_parse_text(row.id@) == Some(s.id.0)
    &&& uuid_parse_text(row.queue_entry_id@) == Some(s.queue_entry_id.0)
    &&& backend_name(s.agent_backend) == row.agent_backend@
    &&& s.tmux_session@ == row.tmux_session@
    &&& s.tmux_window@ == row.tmux_window@
    &&& s.started_at == datetime_of_unix(row.started_at)
    &&& s.ended_at == opt_time(row.ended_at)
    &&& conflict_outcome_stored_as(s.outcome, row.outcome)
}

/// Whether a row is what a session is written as, column by column.
pub open spec fn conflict_written_as(s: ConflictSession, row: ConflictRow) -> bool {
    &&& uuid_parse_text(row.id@) == Some(s.id.0)
    &&& uuid_parse_text(row.queue_entry_id@) == Some(s.queue_entry_id.0)
    &&& row.agent_backend@ == backend_name(s.agent_backend)
    &&& row.tmux_session@ == s.tmux_session@
    &&& row.tmux_window@ == s.tmux_window@
    &&& time_written(s.started_at, row.started_at)
    &&& opt_time_written(s.ended_at, row.ended_at)
    &&& conflict_outcome_stored_as(s.outcome, row.outcome)
}

/// Whether two sessions hold the same values.
pub open spec fn same_session(a: ConflictSession, b: ConflictSession) -> bool {
    &&& a.id == b.id
    &&& a.queue_entry_id == b.queue_entry_id
    &&& a.agent_backend == b.agent_backend
    &&& a.tmux_session@ == b.tmux_session@
    &&& a.tmux_window@ == b.tmux_window@
    &&& a.started_at == b.started_at
    &&& a.ended_at == b.ended_at
    &&& a.outcome == b.outcome
}

/// Reads a conflict session from its row. It fails with the error of the
/// first column that cannot be read.
pub fn conflict_from_row(row: ConflictRow) -> (r: Result<ConflictSession, Error>)
    ensures
        match r {
            Ok(s) => conflict_row_error(row) is None && conflict_read_from(s, row),
            Err(err) => conflict_row_error(row) == Some(err@),
        },
{
    let ConflictRow {
        id,
        queue_entry_id,
        agent_backend,
        tmux_session,
        tmux_window,
        started_at,
        ended_at,
        outcome,
    } = row;
    let id = match ConflictSessionId::parse_str(id.as_str()) {
        Ok(i) => i,
        Err(e) => return Err(e),
    };
    let queue_entry_id = match QueueEntryId::parse_str(queue_entry_id.as_str()) {
        Ok(i) => i,
        Err(e) => return Err(e),
    };
    let agent_backend = match AgentBackend::parse(agent_backend.as_str()) {
        Ok(b) => b,
        Err(e) => return Err(e),
    };
    let started_at = match read_time(started_at) {
        Ok(t) => t,
        Err(e) => return Err(e),
    };
    let ended_at = match read_opt_time(ended_at) {
        Ok(t) => t,
        Err(e) => return Err(e),
    };
    let outcome = match outcome {
        None => None,
        Some(t) => match parse_conflict_outcome(t.as_str()) {
            Ok(o) => Some(o),
            Err(e) => return Err(e),
        },
    };
    Ok(ConflictSession {
        id,
        queue_entry_id,
        agent_backend,
        tmux_session,
        tmux_window,
        started_at,
        ended_at,
        outcome,
    })
}

/// Writes a conflict session as a row.
pub fn conflict_to_row(s: &ConflictSession) -> (row: ConflictRow)
    ensures
        conflict_written_as(*s, row),
{
    let outcome = match s.outcome {
        Some(o) => Some(owned(o.as_str())),
        None => None,
    };
    ConflictRow {
        id: s.id.to_string(),
        queue_entry_id: s.queue_entry_id.to_string(),
        agent_backend: owned(s.agent_backend.as_str()),
        tmux_session: owned(s.tmux_session.as_str()),
        tmux_window: owned(s.tmux_window.as_str()),
        started_at: write_time(s.started_at),
        ended_at: write_opt_time(s.ended_at),
        outcome,
    }
}

/// What the store reads back of the row it wrote for a conflict session is
/// that session, provided its times are ones the store keeps exactly.
pub proof fn lemma_conflict_round_trip(s: ConflictSession, row: ConflictRow)
    requires
        conflict_written_as(s, row),
        storable_time(s.started_at),
        storable_opt_time(s.ended_at),
    ensures
        conflict_row_error(row) is None,
        forall|d: ConflictSession| conflict_read_from(d, row) ==> same_session(d, s),
{
    lemma_time_round_trip(s.started_at, row.started_at);
    lemma_opt_time_round_trip(s.ended_at, row.ended_at);
    assert(backend_name(s.agent_backend) == row.agent_backend@);
    if let Some(o) = s.outcome {
        assert(conflict_outcome_name(o) == row.outcome->0@);
    }
    assert forall|d: ConflictSession| conflict_read_from(d, row) implies same_session(d, s) by {
        lemma_backend_names_distinct(d.agent_backend, s.agent_backend);
        if let (Some(a), Some(b)) = (d.outcome, s.outcome) {
            lemma_conflict_outcome_names_distinct(a, b);
        }
    }
}

} // verus!

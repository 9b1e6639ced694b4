//! A record of a hand-off of a conflicting entry to an agent.

use vstd::prelude::*;

use crate::domain::agent_backend::AgentBackend;
use crate::domain::ids::{ConflictSessionId, QueueEntryId};

verus! {

/// A conflict-resolution session opened in a terminal-multiplexer window.
#[derive(Debug, Clone)]
pub struct ConflictSession {
    pub id: ConflictSessionId,
    pub queue_entry_id: QueueEntryId,
    pub agent_backend: AgentBackend,
    pub tmux_session: String,
    pub tmux_window: String,
    pub started_at: time::OffsetDateTime,
    pub ended_at: Option<time::OffsetDateTime>,
    pub outcome: Option<ConflictOutcome>,
}

/// How a conflict session ended.
#[derive(Debug, Clone, Copy, PartialEq, Eq, Hash, Structural)]
pub enum ConflictOutcome {
    Resolved,
    Abandoned,
    AgentCrashed,
}

/// The name under which a session outcome is shown and stored.
pub open spec fn conflict_outcome_name(o: ConflictOutcome) -> Seq<char> {
    match o {
        ConflictOutcome::Resolved => "Resolved"@,
        ConflictOutcome::Abandoned => "Abandoned"@,
        ConflictOutcome::AgentCrashed => "AgentCrashed"@,
    }
}

impl ConflictOutcome {
    pub fn as_str(&self) -> (r: &'static str)
        ensures
            r@ == conflict_outcome_name(*self),
    {
        match self {
            ConflictOutcome::Resolved => "Resolved",
            ConflictOutcome::Abandoned => "Abandoned",
            ConflictOutcome::AgentCrashed => "AgentCrashed",
        }
    }
}

} // verus!

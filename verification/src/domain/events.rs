//! Events broadcast by the engine and consumed by the dashboard.

use vstd::prelude::*;

use crate::domain::ids::QueueEntryId;
use crate::domain::queue::{QueueStatus, StepOutcome};
use crate::domain::state_machine::NextAction;

verus! {

#[derive(Debug, Clone, PartialEq, Eq)]
pub enum QueueEvent {
    Enqueued(QueueEntryId),
    StatusChanged { id: QueueEntryId, from: QueueStatus, to: QueueStatus },
    StepStarted { id: QueueEntryId, action: NextAction },
    StepFinished { id: QueueEntryId, outcome: StepOutcome },
    Removed(QueueEntryId),
}

} // verus!

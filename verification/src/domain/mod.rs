//! Pure domain types and the decision logic of the queue.

pub mod agent_backend;
pub mod conflict;
pub mod events;
pub mod ids;
pub mod ports;
pub mod queue;
pub mod repo;
pub mod state_machine;

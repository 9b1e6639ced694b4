//! The decisions of the merge engine. The host runs the loops and the
//! processes; these functions say what happens to an entry.

pub mod ci;
pub mod details;
pub mod handoff;
pub mod pool;
pub mod recovery;
pub mod shutdown;
pub mod worker;

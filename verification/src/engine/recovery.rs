//! Startup sweep of conflict sessions whose multiplexer window is gone.

use vstd::prelude::*;

use crate::domain::conflict::ConflictSession;
use crate::domain::ports::TmuxHandle;
use crate::error::Error;

verus! {

/// Whether an open session is to be closed as abandoned, given what the
/// window query answered. Only a definite "the window is gone" closes it:
/// a failed query (the multiplexer missing, say) counts as alive, so that a
/// session the user is working in is never dropped on a false negative.
pub fn is_abandoned(window_alive: &Result<bool, Error>) -> (r: bool)
    ensures
        r == (*window_alive matches Ok(alive) && !alive),
{
    match window_alive {
        Ok(alive) => !*alive,
        Err(_) => false,
    }
}

/// The multiplexer window a session was opened in.
pub fn session_window(s: &ConflictSession) -> (r: TmuxHandle)
    ensures
        r.session@ == s.tmux_session@,
        r.window@ == s.tmux_window@,
{
    TmuxHandle {
        session: String::from_str(s.tmux_session.as_str()),
        window: String::from_str(s.tmux_window.as_str()),
    }
}

} // verus!

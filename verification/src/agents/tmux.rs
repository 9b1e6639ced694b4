//! The terminal-multiplexer adapter's naming rules and how it reads the
//! multiplexer's answers. Running `tmux(1)` is the host's part.

use vstd::prelude::*;

use crate::domain::ports::TmuxHandle;
use crate::error::{Error, ErrorView};
use crate::text::{
    decimal, joined, joined3, lines_of, split_lines, text_eq, trim, trim_text, views, with_decimal,
};

verus! {

/// Shells out to the user's `tmux` binary (the host runs the commands).
#[derive(Debug, Default, Clone)]
pub struct ProcessTmux;

impl ProcessTmux {
    pub fn new() -> (r: Self) {
        ProcessTmux
    }

    /// Reads the answer to `new-session -d -s <session>`.
    pub fn interpret_new_session(session: &str, success: bool, stderr: &str) -> (r: Result<(), Error>)
        ensures
            match r {
                Ok(_) => success,
                Err(e) => !success && e@ == ErrorView::Tmux(
                    "new-session -s "@ + session@ + " failed: "@ + trim(stderr@),
                ),
            },
    {
        if success {
            Ok(())
        } else {
            let mut m = joined3("new-session -s ", session, " failed: ");
            m.append(trim_text(stderr));
            Err(Error::Tmux(m))
        }
    }

    /// Reads the answer to `new-window -d -t <session> -n <window>`.
    pub fn interpret_new_window(session: &str, window: &str, success: bool, stderr: &str) -> (r:
        Result<TmuxHandle, Error>)
        ensures
            match r {
                Ok(h) => success && h.session@ == session@ && h.window@ == window@,
                Err(e) => !success && e@ == ErrorView::Tmux(
                    "new-window "@ + session@ + ":"@ + window@ + " failed: "@ + trim(stderr@),
                ),
            },
    {
        if success {
            Ok(TmuxHandle { session: String::from_str(session), window: String::from_str(window) })
        } else {
            let mut m = joined3("new-window ", session, ":");
            m.append(window);
            m.append(" failed: ");
            m.append(trim_text(stderr));
            Err(Error::Tmux(m))
        }
    }

    /// The `session:window` target of a handle.
    pub fn target(handle: &TmuxHandle) -> (r: String)
        ensures
            r@ == handle.session@ + ":"@ + handle.window@,
    {
        joined3(handle.session.as_str(), ":", handle.window.as_str())
    }

    /// Reads the answer to `send-keys -t <target> ...`.
    pub fn interpret_send_keys(target: &str, success: bool, stderr: &str) -> (r: Result<(), Error>)
        ensures
            match r {
                Ok(_) => success,
                Err(e) => !success && e@ == ErrorView::Tmux(
                    "send-keys -t "@ + target@ + " failed: "@ + trim(stderr@),
                ),
            },
    {
        if success {
            Ok(())
        } else {
            let mut m = joined3("send-keys -t ", target, " failed: ");
            m.append(trim_text(stderr));
            Err(Error::Tmux(m))
        }
    }

    /// Reads the answer to `list-windows -t <session> -F '#W'`: the window is
    /// alive iff the listing succeeded and one of its lines is the window's
    /// name.
    pub fn interpret_window_listing(success: bool, stdout: &str, window: &str) -> (r: bool)
        ensures
            r == (success && lines_of(stdout@).contains(window@)),
    {
        if !success {
            return false;
        }
        let names = split_lines(stdout);
        assert(views(names@).len() == names@.len());
        let mut i: usize = 0;
        while i < names.len()
            invariant
                success,
                views(names@) == lines_of(stdout@),
                lines_of(stdout@).len() == names@.len(),
                i <= names@.len(),
                forall|j: int| 0 <= j < i ==> lines_of(stdout@)[j] != window@,
            decreases names@.len() - i,
        {
            assert(views(names@)[i as int] == names@[i as int]@);
            if text_eq(names[i].as_str(), window) {
                assert(lines_of(stdout@)[i as int] == window@);
                assert(lines_of(stdout@).contains(window@));
                return true;
            }
            i = i + 1;
        }
        false
    }
}

/// The session name for a queue process: scoped by process id so that two
/// instances on one host never share multiplexer state.
pub fn session_name(pid: u32) -> (r: String)
    ensures
        r@ == "mergequeue-"@ + decimal(pid as nat),
{
    with_decimal("mergequeue-", pid as u64)
}

/// The window name for a queue entry, from its short id.
pub fn window_name(short_entry_id: &str) -> (r: String)
    ensures
        r@ == "conflict-"@ + short_entry_id@,
{
    joined("conflict-", short_entry_id)
}

/// The tmux command that brings a window to the user: switching the client
/// when already inside tmux, attaching otherwise.
pub fn attach_verb(inside_tmux: bool) -> (r: &'static str)
    ensures
        r@ == (if inside_tmux {
            "switch-client"@
        } else {
            "attach-session"@
        }),
{
    if inside_tmux {
        "switch-client"
    } else {
        "attach-session"
    }
}

/// Reads the end of an attach: success, or an error carrying tmux's
/// message when it printed one.
pub fn interpret_attach(success: bool, stderr: &str) -> (r: Result<(), Error>)
    ensures
        match r {
            Ok(_) => success,
            Err(e) => !success && e@ == ErrorView::Tmux(
                if trim(stderr@).len() == 0 {
                    "attach failed"@
                } else {
                    "attach failed: "@ + trim(stderr@)
                },
            ),
        },
{
    if success {
        return Ok(());
    }
    let msg = trim_text(stderr);
    if msg.unicode_len() == 0 {
        Err(Error::Tmux(String::from_str("attach failed")))
    } else {
        Err(Error::Tmux(joined("attach failed: ", msg)))
    }
}

} // verus!

//! State-root resolution and the layout under it. Paths are held as text.

use vstd::prelude::*;

use crate::error::Error;
use crate::text::owned;

verus! {

/// `base` joined with a relative `leaf` as `Path::join` does on Unix: a
/// separator goes between them unless `base` is empty or already ends in
/// one.
pub open spec fn joined_path(base: Seq<char>, leaf: Seq<char>) -> Seq<char> {
    if base.len() == 0 {
        leaf
    } else if base.last() == '/' {
        base + leaf
    } else {
        base + seq!['/'] + leaf
    }
}

/// Whether a path text is relative (on Unix: does not start at the root).
pub open spec fn is_relative(p: Seq<char>) -> bool {
    !(p.len() > 0 && p[0] == '/')
}

/// `base` joined with `leaf` as `Path::join` does on Unix: an absolute
/// `leaf` replaces `base`; a relative one is appended as `joined_path` says.
pub open spec fn path_join(base: Seq<char>, leaf: Seq<char>) -> Seq<char> {
    if is_relative(leaf) {
        joined_path(base, leaf)
    } else {
        leaf
    }
}

/// Joins two path texts as `std::path::Path::join` does on Unix.
pub(crate) fn join_path(base: &str, leaf: &str) -> (r: String)
    ensures
        r@ == path_join(base@, leaf@),
{
    proof {
        reveal_strlit("/");
    }
    let nl = leaf.unicode_len();
    if nl > 0 && leaf.get_char(0) == '/' {
        return String::from_str(leaf);
    }
    let nb = base.unicode_len();
    let mut out = String::from_str(base);
    if nb > 0 && base.get_char(nb - 1) != '/' {
        out.append("/");
    }
    out.append(leaf);
    assert(out@ =~= path_join(base@, leaf@));
    out
}

/// The database file under the state root.
pub fn sqlite_path(root: &str) -> (r: String)
    ensures
        r@ == joined_path(root@, "state.sqlite"@),
{
    proof {
        reveal_strlit("state.sqlite");
    }
    join_path(root, "state.sqlite")
}

/// The dashboard's singleton lock file under the state root.
pub fn tui_pid_path(root: &str) -> (r: String)
    ensures
        r@ == joined_path(root@, "tui.pid"@),
{
    proof {
        reveal_strlit("tui.pid");
    }
    join_path(root, "tui.pid")
}

/// The directory of per-entry run logs under the state root.
pub fn runs_dir(root: &str) -> (r: String)
    ensures
        r@ == joined_path(root@, "runs"@),
{
    proof {
        reveal_strlit("runs");
    }
    join_path(root, "runs")
}

/// Where state lives, from the environment: `$MERGEQUEUE_HOME` when set and
/// non-empty; otherwise under `$HOME` (required): on macOS
/// `Library/Application Support/MergeQueue`; elsewhere
/// `$XDG_DATA_HOME/mergequeue` when that is set and non-empty, else
/// `.local/share/mergequeue`.
pub open spec fn state_root_of(
    home_override: Option<Seq<char>>,
    home: Option<Seq<char>>,
    xdg_data_home: Option<Seq<char>>,
    on_macos: bool,
) -> Option<Seq<char>> {
    if home_override is Some && home_override->0.len() > 0 {
        home_override
    } else if home is Some && home->0.len() > 0 {
        if on_macos {
            Some(joined_path(home->0, "Library/Application Support/MergeQueue"@))
        } else if xdg_data_home is Some && xdg_data_home->0.len() > 0 {
            Some(joined_path(xdg_data_home->0, "mergequeue"@))
        } else {
            Some(joined_path(home->0, ".local/share/mergequeue"@))
        }
    } else {
        None
    }
}

fn non_empty(v: &Option<String>) -> (r: bool)
    ensures
        r == (v matches Some(s) && s@.len() > 0),
{
    match v {
        Some(s) => s.as_str().unicode_len() > 0,
        None => false,
    }
}

/// The text of an optional string.
pub open spec fn view_opt(v: Option<String>) -> Option<Seq<char>> {
    match v {
        Some(s) => Some(s@),
        None => None,
    }
}

/// Resolves the state root from the values of `$MERGEQUEUE_HOME`, `$HOME`
/// and `$XDG_DATA_HOME` (as read by the host) and the platform.
pub fn state_root_from(
    home_override: Option<String>,
    home: Option<String>,
    xdg_data_home: Option<String>,
    on_macos: bool,
) -> (r: Result<String, Error>)
    ensures
        match state_root_of(view_opt(home_override), view_opt(home), view_opt(xdg_data_home), on_macos) {
            Some(p) => r matches Ok(s) && s@ == p,
            None => r matches Err(Error::StateRootMissing),
        },
{
    proof {
        reveal_strlit("Library/Application Support/MergeQueue");
        reveal_strlit("mergequeue");
        reveal_strlit(".local/share/mergequeue");
    }
    if non_empty(&home_override) {
        return match home_override {
            Some(p) => Ok(p),
            None => Err(Error::StateRootMissing),
        };
    }
    if !non_empty(&home) {
        return Err(Error::StateRootMissing);
    }
    let h = match home {
        Some(h) => h,
        None => String::new(),
    };
    if on_macos {
        return Ok(join_path(h.as_str(), "Library/Application Support/MergeQueue"));
    }
    if non_empty(&xdg_data_home) {
        let x = match xdg_data_home {
            Some(x) => x,
            None => String::new(),
        };
        return Ok(join_path(x.as_str(), "mergequeue"));
    }
    Ok(join_path(h.as_str(), ".local/share/mergequeue"))
}

} // verus!

//! Where the CI runner keeps its logs: `runs/<entry-id>/ci-<step>.log`.
//! Running the commands is the host's part.

use vstd::prelude::*;

use crate::domain::ids::{hyphenated_text, QueueEntryId};
use crate::domain::queue::QueueEntry;
use crate::paths::{join_path, joined_path};
use crate::text::joined3;

verus! {

pub struct CiRunner<'a> {
    pub runs_dir: &'a str,
}

/// The file name of a step's log.
pub open spec fn log_file_name(step: Seq<char>) -> Seq<char> {
    "ci-"@ + step + ".log"@
}

impl<'a> CiRunner<'a> {
    pub fn new(runs_dir: &'a str) -> (r: Self)
        ensures
            r.runs_dir == runs_dir,
    {
        CiRunner { runs_dir }
    }

    /// The directory of an entry's logs.
    pub fn entry_dir(&self, entry: &QueueEntry) -> (r: String)
        ensures
            r@ == joined_path(self.runs_dir@, hyphenated_text(entry.id.0)),
    {
        let id = entry.id.to_string();
        proof {
            crate::domain::ids::lemma_hyphenated_is_relative(entry.id.0);
        }
        join_path(self.runs_dir, id.as_str())
    }

    /// The log file of one step of an entry.
    pub fn log_path(&self, entry: &QueueEntry, step: &str) -> (r: String)
        ensures
            r@ == joined_path(joined_path(self.runs_dir@, hyphenated_text(entry.id.0)), log_file_name(step@)),
    {
        let dir = self.entry_dir(entry);
        let name = joined3("ci-", step, ".log");
        proof {
            reveal_strlit("ci-");
        }
        join_path(dir.as_str(), name.as_str())
    }
}

} // verus!

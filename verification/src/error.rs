//! The library's error type.

use vstd::prelude::*;

verus! {

/// What can go wrong in the queue's own logic. Failures of the host
/// (file system, database, terminal multiplexer processes) are carried by
/// the caller's error type, which wraps this one.
#[derive(Debug)]
pub enum Error {
    SchemaTooNew { found: i64, supported: i64 },
    NotAGitRepo(String),
    Git(String),
    Tmux(String),
    Agent(String),
    Template(String),
    Invalid(String),
    NotFound(String),
    StateRootMissing,
    Other(String),
}

/// The error with its texts seen as character sequences.
pub enum ErrorView {
    SchemaTooNew { found: i64, supported: i64 },
    NotAGitRepo(Seq<char>),
    Git(Seq<char>),
    Tmux(Seq<char>),
    Agent(Seq<char>),
    Template(Seq<char>),
    Invalid(Seq<char>),
    NotFound(Seq<char>),
    StateRootMissing,
    Other(Seq<char>),
}

impl View for Error {
    type V = ErrorView;

    open spec fn view(&self) -> ErrorView {
        match self {
            Error::SchemaTooNew { found, supported } => ErrorView::SchemaTooNew {
                found: *found,
                supported: *supported,
            },
            Error::NotAGitRepo(s) => ErrorView::NotAGitRepo(s@),
            Error::Git(s) => ErrorView::Git(s@),
            Error::Tmux(s) => ErrorView::Tmux(s@),
            Error::Agent(s) => ErrorView::Agent(s@),
            Error::Template(s) => ErrorView::Template(s@),
            Error::Invalid(s) => ErrorView::Invalid(s@),
            Error::NotFound(s) => ErrorView::NotFound(s@),
            Error::StateRootMissing => ErrorView::StateRootMissing,
            Error::Other(s) => ErrorView::Other(s@),
        }
    }
}

impl Error {
    pub fn other(s: String) -> (e: Error)
        ensures
            e == Error::Other(s),
    {
        Error::Other(s)
    }

    pub fn invalid(s: String) -> (e: Error)
        ensures
            e == Error::Invalid(s),
    {
        Error::Invalid(s)
    }

    pub fn tmux(s: String) -> (e: Error)
        ensures
            e == Error::Tmux(s),
    {
        Error::Tmux(s)
    }

    pub fn agent(s: String) -> (e: Error)
        ensures
            e == Error::Agent(s),
    {
        Error::Agent(s)
    }

    pub fn template(s: String) -> (e: Error)
        ensures
            e == Error::Template(s),
    {
        Error::Template(s)
    }
}

} // verus!

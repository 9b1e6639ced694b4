//! The coding-agent backend used to resolve conflicts.

use vstd::prelude::*;

use crate::error::{Error, ErrorView};
use crate::text::{joined, owned, text_eq};

verus! {

/// The coding-agent backend used to resolve conflicts. A single backend
/// (opencode) ships today; the enum keeps the per-repository setting and
/// the agent seam stable should more be added.
#[derive(Debug, Clone, Copy, PartialEq, Eq, Hash, Structural)]
pub enum AgentBackend {
    Opencode,
}

/// The name under which a backend is shown and stored.
pub open spec fn backend_name(b: AgentBackend) -> Seq<char> {
    match b {
        AgentBackend::Opencode => "opencode"@,
    }
}

impl AgentBackend {
    pub fn as_str(&self) -> (r: &'static str)
        ensures
            r@ == backend_name(*self),
    {
        match self {
            AgentBackend::Opencode => "opencode",
        }
    }

    /// The backend's name as an owned string.
    pub fn to_string(&self) -> (r: String)
        ensures
            r@ == backend_name(*self),
    {
        owned(self.as_str())
    }

    /// Reads a backend from its name; any other text is refused.
    pub fn parse(s: &str) -> (r: Result<AgentBackend, Error>)
        ensures
            forall|b: AgentBackend| backend_name(b) == s@ ==> r == Ok::<AgentBackend, Error>(b),
            match r {
                Ok(b) => backend_name(b) == s@,
                Err(e) => (forall|b: AgentBackend| backend_name(b) != s@)
                    && e@ == ErrorView::Invalid("unknown agent backend: "@ + s@),
            },
    {
        if text_eq(s, "opencode") {
            Ok(AgentBackend::Opencode)
        } else {
            Err(Error::Invalid(joined("unknown agent backend: ", s)))
        }
    }
}

impl std::str::FromStr for AgentBackend {
    type Err = Error;

    /// Reads a backend from its name, as `parse` does.
    fn from_str(s: &str) -> (r: Result<AgentBackend, Error>)
        ensures
            forall|b: AgentBackend| backend_name(b) == s@ ==> r == Ok::<AgentBackend, Error>(b),
            match r {
                Ok(b) => backend_name(b) == s@,
                Err(e) => (forall|b: AgentBackend| backend_name(b) != s@)
                    && e@ == ErrorView::Invalid("unknown agent backend: "@ + s@),
            },
    {
        AgentBackend::parse(s)
    }
}

} // verus!

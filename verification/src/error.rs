//! Errors of node start-up.

use vstd::prelude::*;
use vstd::string::StringExecFns;

verus! {

/// Why assembling or starting a part of the node failed.
#[derive(Debug, Clone, PartialEq, Eq)]
pub enum Error {
    /// A failure described only by its message.
    Msg(String),
    /// A failure of command-line handling, with its message.
    Cli(String),
    /// The operation is not implemented yet.
    Unimplemented,
    /// The chain specification could not be read or understood.
    LoadSpecFailed,
    /// The shard topology could not be determined.
    TopologyUnavailable,
}

impl Error {
    /// The message shown for this error.
    pub open spec fn text(self) -> Seq<char> {
        match self {
            Error::Msg(m) => m@,
            Error::Cli(m) => m@,
            Error::Unimplemented => "Method Not Implemented"@,
            Error::LoadSpecFailed => "Load spec failed"@,
            Error::TopologyUnavailable => "Shard topology unavailable"@,
        }
    }

    /// The message shown for this error.
    pub fn to_string(&self) -> (s: String)
        ensures
            s@ == self.text(),
    {
        match self {
            Error::Msg(m) => m.clone(),
            Error::Cli(m) => m.clone(),
            Error::Unimplemented => String::from_str("Method Not Implemented"),
            Error::LoadSpecFailed => String::from_str("Load spec failed"),
            Error::TopologyUnavailable => String::from_str("Shard topology unavailable"),
        }
    }
}

} // verus!

use vstd::prelude::*;

verus! {

/// Everything that can go wrong on the client side of a call or of the
/// handle's lifecycle. Each variant carries diagnostic text for the caller;
/// no failure is silently swallowed.
#[derive(Debug)]
pub enum QueryError {
    /// The operating system could not start the daemon executable
    /// (missing binary, permission denied).
    SpawnFailure(String),
    /// The control channel did not exist or refused the connection
    /// (daemon not running, wrong path).
    ConnectFailure(String),
    /// The exchange did not complete within the per-call read/write bounds.
    TransportTimeout(String),
    /// The reply was malformed, or the daemon reported a call-level fault.
    ProtocolFailure(String),
    /// An owned daemon process could not be terminated, or the control
    /// channel's filesystem entry could not be removed.
    TeardownFailure(String),
}

impl QueryError {
    /// The diagnostic text the error carries.
    pub open spec fn spec_message(self) -> Seq<char> {
        match self {
            QueryError::SpawnFailure(m) => m@,
            QueryError::ConnectFailure(m) => m@,
            QueryError::TransportTimeout(m) => m@,
            QueryError::ProtocolFailure(m) => m@,
            QueryError::TeardownFailure(m) => m@,
        }
    }

    /// Hands the diagnostic text out for reporting.
    pub fn message(&self) -> (m: &str)
        ensures
            m@ == self.spec_message(),
    {
        match self {
            QueryError::SpawnFailure(m) => m.as_str(),
            QueryError::ConnectFailure(m) => m.as_str(),
            QueryError::TransportTimeout(m) => m.as_str(),
            QueryError::ProtocolFailure(m) => m.as_str(),
            QueryError::TeardownFailure(m) => m.as_str(),
        }
    }
}

} // verus!

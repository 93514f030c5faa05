use vstd::prelude::*;

verus! {

/// The two control-channel variants a daemon can listen on: a stream socket
/// (a Unix-domain socket bound to a filesystem path) or a named pipe. The
/// variant decides how a per-call duplex connection is derived and whether
/// teardown has a filesystem entry to delete.
#[derive(Clone, Copy)]
pub enum ChannelKind {
    StreamSocket,
    NamedPipe,
}

/// How the read endpoint and the write endpoint of one call are obtained.
pub enum DuplexStrategy {
    /// Clone the single connected stream, so both directions share one
    /// underlying connection.
    CloneConnection,
    /// Open a second, independent endpoint to the same named endpoint.
    OpenSecondEndpoint,
}

/// The duplex strategy each channel kind calls for.
pub open spec fn spec_duplex(kind: ChannelKind) -> DuplexStrategy {
    match kind {
        ChannelKind::StreamSocket => DuplexStrategy::CloneConnection,
        ChannelKind::NamedPipe => DuplexStrategy::OpenSecondEndpoint,
    }
}

impl ChannelKind {
    /// A stream connection is cloned so reader and writer share the socket;
    /// a named pipe is opened twice toward the same endpoint.
    pub fn duplex_strategy(&self) -> (d: DuplexStrategy)
        ensures
            d == spec_duplex(*self),
    {
        match self {
            ChannelKind::StreamSocket => DuplexStrategy::CloneConnection,
            ChannelKind::NamedPipe => DuplexStrategy::OpenSecondEndpoint,
        }
    }

    /// Only the stream-socket variant leaves a filesystem entry behind, so
    /// only that variant gives teardown a file to remove.
    pub fn removes_endpoint_file(&self) -> (b: bool)
        ensures
            b <==> *self is StreamSocket,
    {
        matches!(self, ChannelKind::StreamSocket)
    }
}

} // verus!

use vstd::prelude::*;
use vstd::string::StringExecFns;

use crate::channel::spec_duplex;
use crate::channel::DuplexStrategy;
use crate::errors::QueryError;
use crate::handle::OSQuery;
use crate::response::ExtensionResponse;

verus! {

/// The read and write bound, in seconds, applied to every call's connection
/// before any data is exchanged. A call that does not complete within this
/// bound fails; there is no retry.
pub const CALL_TIMEOUT_SECS: u64 = 3;

/// The connection parameters of one call: a fresh connection to the control
/// channel, both timeouts applied, and the duplex strategy the channel kind
/// calls for. Opened immediately before the call and discarded immediately
/// after — never pooled, never reused.
pub struct CallSetup {
    pub path: String,
    pub read_timeout_secs: u64,
    pub write_timeout_secs: u64,
    pub duplex: DuplexStrategy,
}

/// The connection parameters of one call, as specification-level values:
/// the channel path, the read timeout, the write timeout, and the duplex
/// strategy. They are computed from the handle's socket path and channel
/// kind alone.
pub open spec fn spec_call_setup(h: OSQuery) -> (Seq<char>, u64, u64, DuplexStrategy) {
    (h.spec_socket(), CALL_TIMEOUT_SECS, CALL_TIMEOUT_SECS, spec_duplex(h.spec_channel()))
}

impl OSQuery {
    /// How one call's connection is opened: a fresh connection to the current
    /// control channel path with the fixed read and write timeouts. The setup
    /// depends on the handle's configuration alone, and the handle is not
    /// changed: no state survives from one call to the next.
    pub fn call_setup(&self) -> (s: CallSetup)
        ensures
            (s.path@, s.read_timeout_secs, s.write_timeout_secs, s.duplex)
                == spec_call_setup(*self),
    {
        CallSetup {
            path: self.get_socket(),
            read_timeout_secs: CALL_TIMEOUT_SECS,
            write_timeout_secs: CALL_TIMEOUT_SECS,
            duplex: self.get_channel().duplex_strategy(),
        }
    }
}

/// What the platform reported for one call, reduced to plain values. The
/// driver performs the connect and the exchange and hands the outcome back.
pub enum CallOutcome {
    /// The control channel did not exist or refused the connection.
    ConnectFailed { detail: String },
    /// The exchange did not complete within the read/write timeouts.
    TimedOut { detail: String },
    /// The reply was malformed, or the daemon reported a call-level fault.
    ProtocolFailed { detail: String },
    /// The daemon answered the call.
    Replied { response: ExtensionResponse },
}

/// The diagnostic text a failed call carries: the original query text and the
/// underlying cause, so the caller can retry or report without retaining the
/// request.
pub open spec fn spec_query_error_message(sql: Seq<char>, detail: Seq<char>) -> Seq<char> {
    "Unable to execute the query '"@ + sql + "', ERROR: "@ + detail
}

/// Builds the diagnostic text for a failed call.
pub fn query_error_message(sql: &str, detail: &str) -> (m: String)
    ensures
        m@ == spec_query_error_message(sql@, detail@),
{
    let mut m = "Unable to execute the query '".to_owned();
    m.append(sql);
    m.append("', ERROR: ");
    m.append(detail);
    proof {
        assert(m@ =~= spec_query_error_message(sql@, detail@));
    }
    m
}

/// Classify the outcome of one call. A reply is returned to the caller
/// unmodified — no post-processing, no row filtering. Every failure becomes
/// the matching error of the taxonomy, carrying the original query text and
/// the underlying cause; the call succeeds exactly when the daemon replied.
pub fn finish_call(sql: &str, outcome: CallOutcome) -> (r: Result<
    ExtensionResponse,
    QueryError,
>)
    ensures
        r is Ok <==> outcome is Replied,
        (outcome matches CallOutcome::Replied { response } ==> r == Ok::<
            ExtensionResponse,
            QueryError,
        >(response)),
        (outcome matches CallOutcome::ConnectFailed { detail } ==> r matches Err(
            QueryError::ConnectFailure(m),
        ) && m@ == spec_query_error_message(sql@, detail@)),
        (outcome matches CallOutcome::TimedOut { detail } ==> r matches Err(
            QueryError::TransportTimeout(m),
        ) && m@ == spec_query_error_message(sql@, detail@)),
        (outcome matches CallOutcome::ProtocolFailed { detail } ==> r matches Err(
            QueryError::ProtocolFailure(m),
        ) && m@ == spec_query_error_message(sql@, detail@)),
{
    match outcome {
        CallOutcome::Replied { response } => Ok(response),
        CallOutcome::ConnectFailed { detail } => Err(
            QueryError::ConnectFailure(query_error_message(sql, detail.as_str())),
        ),
        CallOutcome::TimedOut { detail } => Err(
            QueryError::TransportTimeout(query_error_message(sql, detail.as_str())),
        ),
        CallOutcome::ProtocolFailed { detail } => Err(
            QueryError::ProtocolFailure(query_error_message(sql, detail.as_str())),
        ),
    }
}

/// Two sequential calls on one handle never share connection state: a call's
/// connection parameters are computed afresh from the handle's socket path
/// and channel kind alone — whether a daemon is owned, its process
/// identifier, and the outcome of any earlier call play no part — and a call
/// leaves the handle unchanged. A failure on one call therefore cannot
/// affect the next call's setup.
pub proof fn lemma_calls_share_no_state(h1: OSQuery, h2: OSQuery)
    requires
        h1.spec_socket() == h2.spec_socket(),
        h1.spec_channel() == h2.spec_channel(),
    ensures
        spec_call_setup(h1) == spec_call_setup(h2),
{
}

} // verus!

//! Client-side logic for issuing SQL-style queries to a local query daemon
//! over a control channel (a Unix-domain socket or a named pipe), using a
//! binary remote-procedure-call encoding.
//!
//! This crate holds the verified core: socket-path configuration, the fixed
//! command line and readiness synchronization for spawning a daemon, the
//! per-call connection parameters and timeouts, classification of call
//! outcomes into the error taxonomy, and the teardown plan that removes an
//! owned process and its socket file exactly once. The platform work itself
//! (starting a process, connecting a socket, running the RPC exchange) is
//! left to a thin unverified layer that drives these functions and hands
//! their decisions to the operating system.

mod call;
mod channel;
mod errors;
mod handle;
mod launcher;
mod response;

pub use call::finish_call;
pub use call::lemma_calls_share_no_state;
pub use call::query_error_message;
pub use call::spec_call_setup;
pub use call::spec_query_error_message;
pub use call::CallOutcome;
pub use call::CallSetup;
pub use call::CALL_TIMEOUT_SECS;
pub use channel::spec_duplex;
pub use channel::ChannelKind;
pub use channel::DuplexStrategy;
pub use errors::QueryError;
pub use handle::lemma_teardown_scope;
pub use handle::spec_teardown_kills;
pub use handle::spec_teardown_removes_socket;
pub use handle::OSQuery;
pub use handle::SpawnCommand;
pub use handle::TeardownPlan;
pub use launcher::lemma_ready_only_after_connect;
pub use launcher::ReadinessPoll;
pub use response::ExtensionResponse;
pub use response::ExtensionStatus;
pub use response::Row;

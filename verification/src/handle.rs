use vstd::prelude::*;

use crate::channel::ChannelKind;
use crate::launcher::ReadinessPoll;

verus! {

/// The long-lived client handle. It owns the configuration (the control
/// channel's path and kind) and, when this handle spawned the daemon itself,
/// the right and the duty to tear the daemon down again. The handle holds no
/// connection state: every call opens and discards its own connection.
pub struct OSQuery {
    socket: String,
    owns_instance: bool,
    instance: Option<u32>,
    channel: ChannelKind,
}

/// The fixed, non-configurable command line that starts a daemon bound to the
/// handle's control channel: the channel path is handed over, and the
/// daemon's persistent state, watchdog and logging are switched off so the
/// process runs ephemerally, without external configuration files.
pub struct SpawnCommand {
    pub program: String,
    pub args: Vec<String>,
    /// The child's standard output and standard error are discarded.
    pub discard_output: bool,
}

/// What disposing a handle must do: terminate the owned process, if there is
/// one, and delete the control channel's filesystem entry, if this handle
/// created it and the channel kind leaves one. Both steps are owed at most
/// once per handle.
pub struct TeardownPlan {
    /// The process identifier to terminate, if a spawned daemon is owned.
    pub kill_instance: Option<u32>,
    /// The filesystem entry to delete, if this handle created one.
    pub remove_socket: Option<String>,
}

/// The process teardown owes: the owned instance, if any.
pub open spec fn spec_teardown_kills(h: OSQuery) -> Option<u32> {
    h.spec_instance()
}

/// Whether teardown owes the deletion of the control channel's filesystem
/// entry: only when this handle spawned the daemon, and only for the channel
/// kind that leaves an entry behind.
pub open spec fn spec_teardown_removes_socket(h: OSQuery) -> bool {
    h.spec_owns_instance() && h.spec_channel() is StreamSocket
}

impl OSQuery {
    /// The control channel's path.
    pub closed spec fn spec_socket(self) -> Seq<char> {
        self.socket@
    }

    /// Whether this handle spawned the daemon it talks to.
    pub closed spec fn spec_owns_instance(self) -> bool {
        self.owns_instance
    }

    /// The owned daemon's process identifier, if one was spawned.
    pub closed spec fn spec_instance(self) -> Option<u32> {
        self.instance
    }

    /// The control channel's kind.
    pub closed spec fn spec_channel(self) -> ChannelKind {
        self.channel
    }

    /// A handle owns a daemon exactly when it holds a process descriptor.
    pub open spec fn wf(self) -> bool {
        self.spec_owns_instance() <==> self.spec_instance() is Some
    }

    /// A fresh handle: the default control channel path, a stream-socket
    /// channel, and no owned process.
    pub fn new() -> (h: OSQuery)
        ensures
            h.wf(),
            h.spec_socket() == "/tmp/osquery-rs"@,
            !h.spec_owns_instance(),
            h.spec_instance() is None,
            h.spec_channel() is StreamSocket,
    {
        OSQuery {
            socket: "/tmp/osquery-rs".to_owned(),
            owns_instance: false,
            instance: None,
            channel: ChannelKind::StreamSocket,
        }
    }

    /// Replace the control channel path. Pure configuration: no input is
    /// rejected, nothing else about the handle changes.
    pub fn set_socket(self, path: &str) -> (h: OSQuery)
        ensures
            h.spec_socket() == path@,
            h.spec_owns_instance() == self.spec_owns_instance(),
            h.spec_instance() == self.spec_instance(),
            h.spec_channel() == self.spec_channel(),
            h.wf() == self.wf(),
    {
        OSQuery { socket: path.to_owned(), ..self }
    }

    /// The current control channel path.
    pub fn get_socket(&self) -> (s: String)
        ensures
            s@ == self.spec_socket(),
    {
        self.socket.clone()
    }

    /// The current control-channel kind.
    pub fn get_channel(&self) -> (kind: ChannelKind)
        ensures
            kind == self.spec_channel(),
    {
        self.channel
    }

    /// Select the control-channel variant. A build-time or configuration-time
    /// choice; nothing else about the handle changes.
    pub fn set_channel(self, kind: ChannelKind) -> (h: OSQuery)
        ensures
            h.spec_channel() == kind,
            h.spec_socket() == self.spec_socket(),
            h.spec_owns_instance() == self.spec_owns_instance(),
            h.spec_instance() == self.spec_instance(),
            h.wf() == self.wf(),
    {
        OSQuery { channel: kind, ..self }
    }

    /// The command line that starts the daemon executable at `path`, bound to
    /// this handle's control channel, with persistent state, watchdog and
    /// logging disabled and an empty configuration, and its output discarded.
    pub fn spawn_command(&self, path: &str) -> (cmd: SpawnCommand)
        ensures
            cmd.program@ == path@,
            cmd.args@.len() == 8,
            cmd.args@[0]@ == "--extensions_socket"@,
            cmd.args@[1]@ == self.spec_socket(),
            cmd.args@[2]@ == "--disable_database"@,
            cmd.args@[3]@ == "--disable_watchdog"@,
            cmd.args@[4]@ == "--disable_logging"@,
            cmd.args@[5]@ == "--ephemeral"@,
            cmd.args@[6]@ == "--config_path"@,
            cmd.args@[7]@ == "/dev/null"@,
            cmd.discard_output,
    {
        let mut args: Vec<String> = Vec::new();
        args.push("--extensions_socket".to_owned());
        args.push(self.socket.clone());
        args.push("--disable_database".to_owned());
        args.push("--disable_watchdog".to_owned());
        args.push("--disable_logging".to_owned());
        args.push("--ephemeral".to_owned());
        args.push("--config_path".to_owned());
        args.push("/dev/null".to_owned());
        SpawnCommand { program: path.to_owned(), args, discard_output: true }
    }

    /// Record a successfully spawned daemon: the handle takes ownership of
    /// the process and with it the duty to clean up the control channel. The
    /// readiness poll must have finished, so the daemon is already reachable
    /// and an immediately following call cannot race its startup.
    pub fn adopt_instance(self, poll: &ReadinessPoll, pid: u32) -> (h: OSQuery)
        requires
            poll.wf(),
            poll.spec_done(),
        ensures
            h.wf(),
            h.spec_socket() == self.spec_socket(),
            h.spec_channel() == self.spec_channel(),
            h.spec_owns_instance(),
            h.spec_instance() == Some(pid),
    {
        OSQuery { owns_instance: true, instance: Some(pid), ..self }
    }

    /// The teardown decision, taken exactly once: the plan names the owned
    /// process to terminate and, when this handle created the control
    /// channel's filesystem entry, the entry to delete. Taking the plan
    /// strips the handle of its ownership, so a second take owes nothing —
    /// teardown cannot run twice.
    pub fn take_teardown(&mut self) -> (plan: TeardownPlan)
        requires
            old(self).wf(),
        ensures
            final(self).wf(),
            !final(self).spec_owns_instance(),
            final(self).spec_instance() is None,
            final(self).spec_socket() == old(self).spec_socket(),
            final(self).spec_channel() == old(self).spec_channel(),
            plan.kill_instance == spec_teardown_kills(*old(self)),
            plan.remove_socket is Some <==> spec_teardown_removes_socket(*old(self)),
            (plan.remove_socket matches Some(p) ==> p@ == old(self).spec_socket()),
            spec_teardown_kills(*final(self)) is None,
            !spec_teardown_removes_socket(*final(self)),
    {
        let kill_instance = self.instance;
        self.instance = None;
        let owned = self.owns_instance;
        self.owns_instance = false;
        let remove_socket = if owned {
            match self.channel {
                ChannelKind::StreamSocket => Some(self.socket.clone()),
                ChannelKind::NamedPipe => None,
            }
        } else {
            None
        };
        TeardownPlan { kill_instance, remove_socket }
    }
}

/// Disposing a handle that owns a spawned daemon removes both the process and
/// (on a stream-socket channel) its socket file; disposing a handle that only
/// attached to an external daemon removes neither.
pub proof fn lemma_teardown_scope(h: OSQuery)
    requires
        h.wf(),
    ensures
        h.spec_owns_instance() ==> spec_teardown_kills(h) is Some,
        h.spec_owns_instance() && h.spec_channel() is StreamSocket
            ==> spec_teardown_removes_socket(h),
        !h.spec_owns_instance() ==> spec_teardown_kills(h) is None,
        !h.spec_owns_instance() ==> !spec_teardown_removes_socket(h),
{
}

} // verus!

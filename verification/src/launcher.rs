use vstd::prelude::*;

verus! {

/// Readiness synchronization for a freshly spawned daemon: the driver probes
/// the control channel in a tight loop (one connect attempt per probe, no
/// delay between attempts, no bound on their number) and control returns only
/// once a probe connects. A daemon that never becomes ready therefore stalls
/// the caller indefinitely — a deliberate simplification of the design, not
/// error recovery.
pub struct ReadinessPoll {
    done: bool,
    probes: Ghost<Seq<bool>>,
}

impl ReadinessPoll {
    /// Whether some probe has connected, so the daemon is known reachable.
    pub closed spec fn spec_done(self) -> bool {
        self.done
    }

    /// The outcomes of the probes recorded so far, oldest first.
    pub closed spec fn spec_probes(self) -> Seq<bool> {
        self.probes@
    }

    /// The poll reports done exactly when one of its probes connected.
    pub open spec fn wf(self) -> bool {
        self.spec_done() <==> exists|i: int|
            0 <= i < self.spec_probes().len() && self.spec_probes()[i]
    }

    /// A poll that has not probed yet.
    pub fn start() -> (p: ReadinessPoll)
        ensures
            p.wf(),
            !p.spec_done(),
            p.spec_probes().len() == 0,
    {
        ReadinessPoll { done: false, probes: Ghost(Seq::empty()) }
    }

    /// Record the outcome of one connect probe. Every failed probe means
    /// "not ready yet" and is simply retried; only a successful connect
    /// finishes the poll.
    pub fn observe(&mut self, connected: bool)
        requires
            old(self).wf(),
        ensures
            final(self).wf(),
            final(self).spec_probes() == old(self).spec_probes().push(connected),
            final(self).spec_done() == (old(self).spec_done() || connected),
    {
        let ghost prior: Seq<bool> = self.probes@;
        self.probes = Ghost(prior.push(connected));
        if connected {
            self.done = true;
        }
        proof {
            let recorded: Seq<bool> = self.probes@;
            if self.done {
                if connected {
                    assert(recorded[prior.len() as int]);
                } else {
                    let i = choose|i: int| 0 <= i < prior.len() && prior[i];
                    assert(recorded[i]);
                }
            } else {
                assert forall|i: int| 0 <= i < recorded.len() implies !recorded[i] by {
                    if i < prior.len() {
                        assert(!old(self).spec_probes()[i]);
                    } else {
                        assert(recorded[i] == connected);
                    }
                }
            }
        }
    }

    /// Whether the daemon has been seen to accept a connection.
    pub fn is_done(&self) -> (b: bool)
        ensures
            b == self.spec_done(),
    {
        self.done
    }
}

/// Spawning a daemon and querying it immediately cannot race: the readiness
/// loop hands control back only after the control channel accepted a
/// connection, so a finished poll always holds a successful probe.
pub proof fn lemma_ready_only_after_connect(p: ReadinessPoll)
    requires
        p.wf(),
        p.spec_done(),
    ensures
        exists|i: int| 0 <= i < p.spec_probes().len() && p.spec_probes()[i],
{
}

} // verus!

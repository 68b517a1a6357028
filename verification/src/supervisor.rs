use vstd::prelude::*;

verus! {

/// Interval between liveness polls of the monitoring loop, in time-units.
pub const POLL_INTERVAL: u64 = 5;

/// Lifecycle phase of one supervisor run cycle.
#[derive(Debug, Clone, Copy, PartialEq, Eq, Structural)]
pub enum Phase {
    /// Spawning one consumption loop per configured feed.
    Starting,
    /// Monitoring the liveness set while the flag holds.
    Running,
    /// No new tasks; outstanding tasks finish naturally.
    Draining,
    /// The run cycle is over.
    Stopped,
}

/// What the monitoring loop does after one poll.
#[derive(Debug, Clone, Copy, PartialEq, Eq, Structural)]
pub enum PollAction {
    /// Sleep this many time-units, then poll again.
    Sleep(u64),
    /// Every feed loop has ended while the process still meant to run:
    /// log that all feeds stopped; the flag is cleared and draining
    /// begins.
    AllStopped,
    /// The flag was cleared (termination signal): stop monitoring and let
    /// outstanding tasks finish naturally.
    Drain,
}

/// How a run cycle ends once draining is over.
#[derive(Debug, Clone, Copy, PartialEq, Eq, Structural)]
pub enum CycleEnd {
    /// The flag still holds: the entire feed set restarts together from
    /// `Starting`.
    Restart,
    /// The flag is cleared: close every connection and exit the process.
    Shutdown,
}

/// The process supervisor: spawns one consumption loop per configured
/// feed, polls their liveness, and coordinates graceful shutdown on the
/// termination signal. It never resurrects a single failed feed in
/// isolation; only the whole set is ever restarted.
#[derive(Debug, Clone, Copy, PartialEq, Eq, Structural)]
pub struct Supervisor {
    /// Where the current run cycle stands.
    pub phase: Phase,
    /// The process-wide "keep running" flag: cleared by the termination
    /// signal, or when every feed loop has ended.
    pub keep_running: bool,
    /// The size of the liveness set: outstanding feed tasks.
    pub live: u64,
}

/// One monitoring poll: finished tasks have been removed from the
/// liveness set, leaving `still_live` of them.
pub open spec fn poll_spec(s: Supervisor, still_live: u64) -> (Supervisor, PollAction) {
    if !s.keep_running {
        (Supervisor { phase: Phase::Draining, live: still_live, ..s }, PollAction::Drain)
    } else if still_live == 0 {
        (
            Supervisor { phase: Phase::Draining, keep_running: false, live: 0 },
            PollAction::AllStopped,
        )
    } else {
        (Supervisor { live: still_live, ..s }, PollAction::Sleep(POLL_INTERVAL))
    }
}

/// The end of a run cycle, once control returns from draining.
pub open spec fn cycle_end_spec(s: Supervisor) -> (Supervisor, CycleEnd) {
    if s.keep_running {
        (Supervisor { phase: Phase::Starting, live: 0, ..s }, CycleEnd::Restart)
    } else {
        (Supervisor { phase: Phase::Stopped, ..s }, CycleEnd::Shutdown)
    }
}

impl Supervisor {
    /// A fresh supervisor, about to spawn the feed set.
    pub fn new() -> (s: Supervisor)
        ensures
            s == (Supervisor { phase: Phase::Starting, keep_running: true, live: 0 }),
    {
        Supervisor { phase: Phase::Starting, keep_running: true, live: 0 }
    }

    /// `Starting` is complete: one consumption loop per configured feed
    /// has been spawned as an independent task and its handle collected;
    /// monitoring begins.
    pub fn on_spawned(&mut self, feeds: u64)
        requires
            old(self).phase == Phase::Starting,
        ensures
            *final(self) == (Supervisor {
                phase: Phase::Running,
                live: feeds,
                ..*old(self)
            }),
    {
        self.live = feeds;
        self.phase = Phase::Running;
    }

    /// The termination signal: clears the flag asynchronously. It does
    /// not interrupt blocked tasks; a loop parked in a read only ends
    /// when that read errors out or the process exits.
    pub fn on_signal(&mut self)
        ensures
            *final(self) == (Supervisor { keep_running: false, ..*old(self) }),
    {
        self.keep_running = false;
    }

    /// One monitoring poll while `Running`.
    pub fn on_poll(&mut self, still_live: u64) -> (a: PollAction)
        requires
            old(self).phase == Phase::Running,
            still_live <= old(self).live,
        ensures
            (*final(self), a) == poll_spec(*old(self), still_live),
    {
        if !self.keep_running {
            self.phase = Phase::Draining;
            self.live = still_live;
            PollAction::Drain
        } else if still_live == 0 {
            self.phase = Phase::Draining;
            self.keep_running = false;
            self.live = 0;
            PollAction::AllStopped
        } else {
            self.live = still_live;
            PollAction::Sleep(POLL_INTERVAL)
        }
    }

    /// Draining is over: either the whole feed set restarts from
    /// `Starting`, or the cycle stops for good and the registry is told
    /// to close every connection before the process exits.
    pub fn on_drained(&mut self) -> (d: CycleEnd)
        requires
            old(self).phase == Phase::Draining,
        ensures
            (*final(self), d) == cycle_end_spec(*old(self)),
    {
        if self.keep_running {
            self.phase = Phase::Starting;
            self.live = 0;
            CycleEnd::Restart
        } else {
            self.phase = Phase::Stopped;
            CycleEnd::Shutdown
        }
    }
}

/// When every feed loop has ended while the process still meant to run —
/// for instance because the only configured feed exhausted its connect
/// retries — the next poll reports that all feeds stopped and clears the
/// flag, and the cycle then proceeds through draining to shutdown: the
/// cleared flag means the outer loop does not re-enter `Starting`.
pub proof fn lemma_all_stopped_shuts_down(s: Supervisor)
    requires
        s.phase == Phase::Running,
        s.keep_running,
    ensures
        ({
            let (s1, a) = poll_spec(s, 0);
            let (s2, d) = cycle_end_spec(s1);
            &&& a == PollAction::AllStopped
            &&& !s1.keep_running
            &&& s1.phase == Phase::Draining
            &&& d == CycleEnd::Shutdown
            &&& s2.phase == Phase::Stopped
        }),
{
}

} // verus!

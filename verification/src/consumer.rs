use vstd::prelude::*;

verus! {

use crate::classify::{classify_frame, routes_to, Route};
use crate::errors::ProcessError;
use crate::reading::Frame;

/// Milliseconds the consumption loop sleeps after each iteration: a
/// fixed-interval throttle, not a token bucket, so bursts never run
/// faster than this cadence and idle periods accumulate no credit. A
/// zero rate is rejected when the configuration is loaded.
pub fn throttle_delay_ms(max_reads_per_sec: u64) -> (d: u64)
    requires
        max_reads_per_sec >= 1,
    ensures
        d == 1000u64 / max_reads_per_sec,
{
    1000 / max_reads_per_sec
}

/// What the consumption loop does next.
#[derive(Debug, Clone, PartialEq, Eq)]
pub enum LoopStep {
    /// Act on the classified frame: `Single` and `Batch` routes go to the
    /// feed's processor, `LogPreview` and `Discard` only log.
    Dispatch(Route),
    /// Continue without dispatching anything.
    Continue,
    /// The loop ends with this error.
    Fail(ProcessError),
}

/// Decides one loop iteration from the result of a read call: a frame is
/// classified and acted on, "no message this call" (after a transparent
/// reconnect) continues silently, and a read error is fatal to the loop.
pub fn consume_step(r: Result<Option<Frame>, ProcessError>) -> (s: LoopStep)
    ensures
        r matches Ok(Some(f)) ==> s matches LoopStep::Dispatch(rt) && routes_to(f, rt),
        r matches Ok(o) && o is None ==> s == LoopStep::Continue,
        r matches Err(e) ==> s == LoopStep::Fail(e),
{
    match r {
        Ok(Some(f)) => LoopStep::Dispatch(classify_frame(&f)),
        Ok(None) => LoopStep::Continue,
        Err(e) => LoopStep::Fail(e),
    }
}

/// Length of the window over which processed messages are tallied, in
/// time-units.
pub const TALLY_WINDOW: u64 = 60;

/// Rolling counter of successfully processed messages, logged once per
/// window and then reset. Observability only: it never affects control
/// flow, and each loop owns its own counter.
#[derive(Debug, Clone, Copy, PartialEq, Eq, Structural)]
pub struct Tally {
    /// Messages processed since the window opened.
    pub count: u64,
    /// When the current window closes.
    pub window_end: u64,
}

impl Tally {
    /// A fresh counter whose first window opens now.
    pub fn new(now: u64) -> (t: Tally)
        requires
            now + TALLY_WINDOW <= u64::MAX,
        ensures
            t.count == 0,
            t.window_end == now + TALLY_WINDOW,
    {
        Tally { count: 0, window_end: now + TALLY_WINDOW }
    }

    /// Records one successfully processed message. When the window has
    /// closed, the tally over it is handed back to be logged, the count
    /// resets and a new window opens; otherwise nothing is logged.
    pub fn on_processed(&mut self, now: u64) -> (logged: Option<u64>)
        requires
            old(self).count < u64::MAX,
            now + TALLY_WINDOW <= u64::MAX,
        ensures
            now < old(self).window_end ==> {
                &&& logged is None
                &&& final(self).count == old(self).count + 1
                &&& final(self).window_end == old(self).window_end
            },
            now >= old(self).window_end ==> {
                &&& logged matches Some(n) && n == old(self).count + 1
                &&& final(self).count == 0
                &&& final(self).window_end == now + TALLY_WINDOW
            },
    {
        self.count = self.count + 1;
        if now >= self.window_end {
            let logged = self.count;
            self.count = 0;
            self.window_end = now + TALLY_WINDOW;
            Some(logged)
        } else {
            None
        }
    }
}

/// Folds a processor's verdict back into the loop: success continues, and
/// a processing failure is intentionally fatal to the feed's loop, since
/// it is assumed to surface a logic or data-contract defect rather than a
/// transient condition.
pub fn after_dispatch(r: Result<(), ProcessError>) -> (s: LoopStep)
    ensures
        r is Ok ==> s == LoopStep::Continue,
        r matches Err(e) ==> s == LoopStep::Fail(e),
{
    match r {
        Ok(_) => LoopStep::Continue,
        Err(e) => LoopStep::Fail(e),
    }
}

} // verus!

use vstd::prelude::*;

verus! {

/// A single-shot timer on a millisecond clock that the caller reads.
#[derive(Debug, Clone, Copy, PartialEq, Eq, Structural)]
pub struct Timer {
    /// Clock reading when the timer was started.
    pub started_ms: u64,
    /// How long the timer runs.
    pub duration_ms: u64,
}

impl Timer {
    /// The timer has run out by the clock reading `now_ms`.
    pub open spec fn done_at(self, now_ms: u64) -> bool {
        now_ms >= self.started_ms + self.duration_ms
    }

    /// A timer of `secs` seconds, started at the clock reading `now_ms`.
    pub fn from_secs(secs: u64, now_ms: u64) -> (r: Timer)
        requires
            secs * 1000 <= u64::MAX,
        ensures
            r == (Timer { started_ms: now_ms, duration_ms: (secs * 1000) as u64 }),
    {
        Timer { started_ms: now_ms, duration_ms: secs * 1000 }
    }

    pub fn is_done(&self, now_ms: u64) -> (r: bool)
        ensures
            r == self.done_at(now_ms),
    {
        now_ms >= self.started_ms && now_ms - self.started_ms >= self.duration_ms
    }
}

} // verus!

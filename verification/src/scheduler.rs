use vstd::prelude::*;

verus! {

/// Timing state of the event scheduler: the background task that merges
/// operator keystrokes and periodic redraw ticks into one ordered stream.
/// All times are milliseconds on one monotone clock.  The scheduler waits
/// for input with a bounded timeout; whenever a full interval has elapsed
/// since the last tick, it emits one `Tick` and records the time.
pub struct EventScheduler {
    /// The fixed tick interval, in milliseconds.
    pub interval_ms: u64,
    /// The time at which the last tick was emitted (the creation time
    /// before any tick was emitted).
    pub last_tick_ms: u64,
}

/// True when a scheduler that last ticked at `s.last_tick_ms` owes a tick
/// at time `now_ms`: a full interval has elapsed.
pub open spec fn tick_due_at(s: EventScheduler, now_ms: u64) -> bool {
    now_ms >= s.last_tick_ms && now_ms - s.last_tick_ms >= s.interval_ms
}

impl EventScheduler {
    /// A scheduler created at `now_ms` that will emit its first tick one
    /// interval later.
    pub fn new(interval_ms: u64, now_ms: u64) -> (s: EventScheduler)
        ensures
            s.interval_ms == interval_ms,
            s.last_tick_ms == now_ms,
    {
        EventScheduler { interval_ms, last_tick_ms: now_ms }
    }

    /// How long the background task may block waiting for input before it
    /// must check for a due tick: the time remaining until the next tick,
    /// and zero once a tick is already due.  Waits are thereby bounded and
    /// the task never busy-spins.
    pub fn wait_timeout_ms(&self, now_ms: u64) -> (t: u64)
        requires
            now_ms >= self.last_tick_ms,
        ensures
            tick_due_at(*self, now_ms) ==> t == 0,
            !tick_due_at(*self, now_ms) ==> t == self.interval_ms - (now_ms - self.last_tick_ms),
    {
        let elapsed = now_ms - self.last_tick_ms;
        if elapsed >= self.interval_ms {
            0
        } else {
            self.interval_ms - elapsed
        }
    }

    /// Whether a tick is due at `now_ms`.
    pub fn tick_due(&self, now_ms: u64) -> (b: bool)
        requires
            now_ms >= self.last_tick_ms,
        ensures
            b == tick_due_at(*self, now_ms),
    {
        now_ms - self.last_tick_ms >= self.interval_ms
    }

    /// Records that a tick was emitted at `now_ms`.  Only a due tick may be
    /// recorded, so recorded ticks are at least one interval apart.
    pub fn record_tick(&mut self, now_ms: u64)
        requires
            tick_due_at(*old(self), now_ms),
        ensures
            final(self).interval_ms == old(self).interval_ms,
            final(self).last_tick_ms == now_ms,
    {
        self.last_tick_ms = now_ms;
    }
}

/// Law: the scheduler never emits more than one tick per interval.  If one
/// tick was recorded at time `t1`, then however much input arrives in
/// between, the next tick is only due at a time `t2` at least one full
/// interval after `t1`.
pub proof fn lemma_tick_spacing(s: EventScheduler, t1: u64, t2: u64)
    requires
        s.last_tick_ms == t1,
        tick_due_at(s, t2),
    ensures
        t2 >= t1,
        t2 - t1 >= s.interval_ms,
{
}

} // verus!

//! The game's timers — fire cooldown, respawn delay, still-alive bonus —
//! modelled uniformly as a repeating countdown decremented by each tick's
//! elapsed time, exposing "just elapsed" as a boolean for one tick.

use vstd::prelude::*;

verus! {

/// A repeating countdown: `remaining` milliseconds until the next expiry of
/// a period of `interval` milliseconds. `just_finished` is true exactly for
/// the tick on which the countdown ran out.
#[derive(Clone, Copy, Debug, PartialEq, Eq, Structural)]
pub struct CountdownTimer {
    pub remaining: u64,
    pub interval: u64,
    pub just_finished: bool,
}

/// The countdown never exceeds its period and never reaches zero between
/// ticks (expiry rewinds it to the full period).
pub open spec fn timer_wf(t: CountdownTimer) -> bool {
    1 <= t.remaining <= t.interval
}

/// The countdown one tick later: expired and rewound when the elapsed time
/// reached the remaining count, otherwise counted down.
pub open spec fn timer_after_tick(t: CountdownTimer, delta_ms: int) -> CountdownTimer {
    if delta_ms >= t.remaining {
        CountdownTimer { remaining: t.interval, interval: t.interval, just_finished: true }
    } else {
        CountdownTimer {
            remaining: (t.remaining - delta_ms) as u64,
            interval: t.interval,
            just_finished: false,
        }
    }
}

impl CountdownTimer {
    /// A fresh countdown over the given period, not yet elapsed.
    pub fn new(interval: u64) -> (t: CountdownTimer)
        requires
            interval >= 1,
        ensures
            timer_wf(t),
            t.interval == interval,
            t.remaining == interval,
            !t.just_finished,
    {
        CountdownTimer { remaining: interval, interval, just_finished: false }
    }

    /// Advances the countdown by one tick's elapsed time. It reports
    /// `just_finished` exactly when the elapsed time reached the remaining
    /// count, and then rewinds to the full period.
    pub fn tick(&mut self, delta_ms: u64)
        requires
            timer_wf(*old(self)),
        ensures
            timer_wf(*final(self)),
            final(self).interval == old(self).interval,
            final(self).just_finished == (delta_ms >= old(self).remaining),
            final(self).remaining == if delta_ms >= old(self).remaining {
                old(self).interval as int
            } else {
                old(self).remaining - delta_ms
            },
            *final(self) == timer_after_tick(*old(self), delta_ms as int),
    {
        if delta_ms >= self.remaining {
            self.remaining = self.interval;
            self.just_finished = true;
        } else {
            self.remaining = self.remaining - delta_ms;
            self.just_finished = false;
        }
    }
}

} // verus!

//! Pacing of ticks against a clock that is read from time to time.
//!
//! A scheduler decides; it neither reads the clock nor sleeps. Whoever runs
//! it reads the clock, asks what to do, and sleeps or ticks accordingly.

use vstd::prelude::*;

verus! {

/// What to do after a reading of the clock.
#[derive(Clone, Copy, Debug, PartialEq, Eq)]
pub enum Wait {
    /// Sleep for `millis` milliseconds, then read the clock again.
    Sleep { millis: u64 },
    /// The wait is over: deliver one tick now.
    Over,
}

/// Paces ticks so that none follows the one before it by less than the
/// minimum interval, whatever the load.
#[derive(Clone, Copy, Debug, PartialEq, Eq)]
pub struct TickScheduler {
    /// Reading of the clock at the last tick, in milliseconds.
    pub last_tick_time: u64,
    /// Least time between two ticks, in milliseconds.
    pub min_time_per_tick_ms: u64,
}

impl TickScheduler {
    /// A tick is due at `now`: the clock has moved on since the last tick,
    /// by at least the minimum interval.
    pub open spec fn due(self, now: u64) -> bool {
        now > self.last_tick_time && now - self.last_tick_time >= self.min_time_per_tick_ms
    }

    /// How long to sleep at `now` when no tick is due: one millisecond while
    /// the clock has not moved on, else a third of the minimum interval and
    /// one millisecond more.
    pub open spec fn nap(self, now: u64) -> u64 {
        if now <= self.last_tick_time {
            1
        } else {
            (self.min_time_per_tick_ms / 3 + 1) as u64
        }
    }

    /// The scheduler after the clock was read at `now`. A tick that is due
    /// moves the last tick to `now`: the whole time that went by is taken
    /// up, so that however late the reading, one tick is owed and no more.
    pub open spec fn after(self, now: u64) -> TickScheduler {
        if self.due(now) {
            TickScheduler { last_tick_time: now, ..self }
        } else {
            self
        }
    }

    /// A scheduler whose last tick was at `now`.
    pub fn new(now: u64, min_time_per_tick_ms: u64) -> (scheduler: TickScheduler)
        ensures
            scheduler == (TickScheduler { last_tick_time: now, min_time_per_tick_ms }),
    {
        TickScheduler { last_tick_time: now, min_time_per_tick_ms }
    }

    /// Decides what to do at `now`, a reading of the clock in milliseconds.
    pub fn wait_till_next_tick(&mut self, now: u64) -> (wait: Wait)
        ensures
            *final(self) == old(self).after(now),
            wait == if old(self).due(now) {
                Wait::Over
            } else {
                Wait::Sleep { millis: old(self).nap(now) }
            },
    {
        if now <= self.last_tick_time {
            return Wait::Sleep { millis: 1 };
        }
        let time_since_last_tick: u64 = now - self.last_tick_time;
        if time_since_last_tick >= self.min_time_per_tick_ms {
            self.last_tick_time = self.last_tick_time + time_since_last_tick;
            return Wait::Over;
        }
        Wait::Sleep { millis: self.min_time_per_tick_ms / 3 + 1 }
    }
}

/// Two ticks in a row are at least the minimum interval apart, and the
/// second is later than the first.
pub proof fn lemma_ticks_keep_apart(scheduler: TickScheduler, first: u64, second: u64)
    requires
        scheduler.due(first),
        scheduler.after(first).due(second),
    ensures
        second > first,
        second - first >= scheduler.min_time_per_tick_ms,
{
}

/// No backlog builds up: at the reading that gave a tick, no second tick is
/// due, however long before it the last one was.
pub proof fn lemma_one_tick_owed(scheduler: TickScheduler, now: u64)
    requires
        scheduler.due(now),
    ensures
        !scheduler.after(now).due(now),
        scheduler.after(now).last_tick_time == now,
{
}

/// A sleep is never empty, so that waiting always lets time pass.
pub proof fn lemma_nap_is_positive(scheduler: TickScheduler, now: u64)
    ensures
        scheduler.nap(now) >= 1,
{
}

} // verus!

//! The simulation clock: at most one tick per elapsed interval, whatever the
//! display frame rate does.

use vstd::prelude::*;
use vstd::arithmetic::div_mod::{lemma_div_by_multiple, lemma_div_is_ordered};

verus! {

/// Monotonic timestamp of the last executed tick plus the fixed tick
/// interval, both in the same time unit (the simulator uses milliseconds).
#[derive(Clone, Copy, PartialEq, Eq, Structural, Debug)]
pub struct SimClock {
    pub interval: u64,
    pub last_tick: u64,
}

impl SimClock {
    /// A tick is due once a full interval has elapsed since the last one.
    pub open spec fn due(self, now: u64) -> bool {
        now >= self.last_tick + self.interval
    }

    pub fn new(interval: u64, start: u64) -> (r: SimClock)
        ensures
            r.interval == interval,
            r.last_tick == start,
    {
        SimClock { interval, last_tick: start }
    }

    /// Decide whether the tick interval has elapsed. The timestamp source is
    /// monotonic, so `now` never precedes the recorded last tick.
    pub fn should_tick(&self, now: u64) -> (r: bool)
        requires
            now >= self.last_tick,
        ensures
            r == self.due(now),
    {
        now - self.last_tick >= self.interval
    }

    /// Record that a tick was dispatched at `now`.
    pub fn record_tick(&mut self, now: u64)
        ensures
            final(self).last_tick == now,
            final(self).interval == old(self).interval,
    {
        self.last_tick = now;
    }
}

/// Tick timestamps are spaced: each one lies at least a full interval after
/// its predecessor (after the start, for the first).
pub open spec fn ticks_spaced(ticks: Seq<int>, start: int, interval: int) -> bool {
    forall|j: int|
        0 <= j < ticks.len() ==> #[trigger] ticks[j] >= (if j == 0 {
            start
        } else {
            ticks[j - 1]
        }) + interval
}

/// Tick timestamps spaced at least one interval apart mean the `j`-th tick
/// happens no earlier than `j + 1` full intervals after the start.
pub proof fn lemma_tick_times_spaced(ticks: Seq<int>, start: int, interval: int, j: int)
    requires
        interval > 0,
        ticks_spaced(ticks, start, interval),
        0 <= j < ticks.len(),
    ensures
        ticks[j] >= start + (j + 1) * interval,
    decreases j,
{
    if j == 0 {
        assert(ticks[0] >= start + interval);
    } else {
        lemma_tick_times_spaced(ticks, start, interval, j - 1);
        assert(ticks[j] >= ticks[j - 1] + interval);
        assert((j + 1) * interval == j * interval + interval) by (nonlinear_arith);
    }
}

/// Over a window of `elapsed` time units, ticks spaced at least one interval
/// apart number at most `elapsed / interval` (with integer division): the
/// simulation stage cannot be invoked more often than the cadence allows.
pub proof fn lemma_tick_budget(ticks: Seq<int>, start: int, interval: int, elapsed: int)
    requires
        interval > 0,
        elapsed >= 0,
        ticks_spaced(ticks, start, interval),
        ticks.len() > 0 ==> ticks.last() <= start + elapsed,
    ensures
        ticks.len() <= elapsed / interval,
{
    let n = ticks.len() as int;
    if n == 0 {
        lemma_div_is_ordered(0, elapsed, interval);
        lemma_div_by_multiple(0, interval);
    } else {
        lemma_tick_times_spaced(ticks, start, interval, n - 1);
        assert(ticks[n - 1] >= start + n * interval);
        assert(n * interval <= elapsed);
        lemma_div_is_ordered(n * interval, elapsed, interval);
        lemma_div_by_multiple(n, interval);
    }
}

} // verus!

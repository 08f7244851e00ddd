//! The repeating spawn timer: it accumulates elapsed time and fires at most
//! once per tick, however far the tick overshoots the period (no catch-up).

use vstd::prelude::*;

use crate::{DT_LIMIT_MS, PERIOD_LIMIT_MS};

verus! {

/// Mathematical value of a spawn timer, milliseconds.
pub ghost struct TimerModel {
    pub period_ms: int,
    pub elapsed_ms: int,
}

/// A repeating countdown of fixed period, milliseconds. It rearms itself
/// each time it fires.
#[derive(Clone, Copy, Debug)]
pub struct SpawnTimer {
    pub period_ms: u64,
    pub elapsed_ms: u64,
}

impl View for SpawnTimer {
    type V = TimerModel;

    open spec fn view(&self) -> TimerModel {
        TimerModel { period_ms: self.period_ms as int, elapsed_ms: self.elapsed_ms as int }
    }
}

/// Well-formedness of a timer: a positive, bounded period, with the
/// accumulated time strictly inside it.
pub open spec fn timer_wf(t: TimerModel) -> bool {
    &&& 1 <= t.period_ms <= PERIOD_LIMIT_MS
    &&& 0 <= t.elapsed_ms < t.period_ms
}

/// Whether a tick of `dt_ms` completes the timer's current period.
pub open spec fn timer_fires(t: TimerModel, dt_ms: int) -> bool {
    t.elapsed_ms + dt_ms >= t.period_ms
}

/// One tick of the timer: accumulate the elapsed time; on completion keep
/// only the overshoot within one period, so at most one firing is reported
/// per tick.
pub open spec fn timer_step(t: TimerModel, dt_ms: int) -> TimerModel {
    if timer_fires(t, dt_ms) {
        TimerModel { elapsed_ms: (t.elapsed_ms + dt_ms) % t.period_ms, ..t }
    } else {
        TimerModel { elapsed_ms: t.elapsed_ms + dt_ms, ..t }
    }
}

impl SpawnTimer {
    /// A fresh repeating timer of the given period.
    pub fn new(period_ms: u64) -> (t: SpawnTimer)
        requires
            1 <= period_ms <= PERIOD_LIMIT_MS,
        ensures
            t@ == (TimerModel { period_ms: period_ms as int, elapsed_ms: 0 }),
            timer_wf(t@),
    {
        SpawnTimer { period_ms, elapsed_ms: 0 }
    }

    /// Advances the timer by one tick and reports whether it fired. It
    /// fires exactly when the accumulated time reaches the period, and at
    /// most once per tick.
    pub fn tick(&mut self, dt_ms: u64) -> (fired: bool)
        requires
            timer_wf(old(self)@),
            dt_ms <= DT_LIMIT_MS,
        ensures
            fired == timer_fires(old(self)@, dt_ms as int),
            final(self)@ == timer_step(old(self)@, dt_ms as int),
            timer_wf(final(self)@),
    {
        let total = self.elapsed_ms + dt_ms;
        if total >= self.period_ms {
            self.elapsed_ms = total % self.period_ms;
            true
        } else {
            self.elapsed_ms = total;
            false
        }
    }
}

} // verus!

//! Countdown timers, in milliseconds: the only form of waiting in the
//! simulation. A once timer saturates at its duration; a repeating timer
//! wraps and reports the tick on which it crossed.

use vstd::prelude::*;

verus! {

/// Upper bound on a timer duration and on a single tick's delta (ms).
pub const TIMER_LIMIT_MS: u64 = 0x1_0000_0000;

/// A once timer finishes and stays finished; a repeating timer restarts each
/// time it crosses its duration.
#[derive(Clone, Copy, Debug, PartialEq, Eq, Structural)]
pub enum TimerMode {
    Once,
    Repeating,
}

/// Elapsed-time countdown, advanced explicitly each simulation tick.
#[derive(Clone, Copy, Debug)]
pub struct Timer {
    elapsed_ms: u64,
    duration_ms: u64,
    mode: TimerMode,
    crossed: bool,
}

impl Timer {
    pub closed spec fn elapsed(self) -> u64 {
        self.elapsed_ms
    }

    pub closed spec fn duration(self) -> u64 {
        self.duration_ms
    }

    pub closed spec fn mode_spec(self) -> TimerMode {
        self.mode
    }

    /// Whether the last tick crossed the duration.
    pub closed spec fn crossed_spec(self) -> bool {
        self.crossed
    }

    pub open spec fn wf(self) -> bool {
        &&& self.duration() <= TIMER_LIMIT_MS
        &&& self.mode_spec() == TimerMode::Repeating ==> 1 <= self.duration()
            && self.elapsed() < self.duration()
        &&& self.mode_spec() == TimerMode::Once ==> self.elapsed() <= self.duration()
    }

    /// A once timer is finished once it has reached its duration; a
    /// repeating timer counts as finished only on the tick it crossed.
    pub open spec fn finished_spec(self) -> bool {
        match self.mode_spec() {
            TimerMode::Once => self.elapsed() >= self.duration(),
            TimerMode::Repeating => self.crossed_spec(),
        }
    }

    pub fn from_millis(duration_ms: u64, mode: TimerMode) -> (r: Timer)
        requires
            duration_ms <= TIMER_LIMIT_MS,
            mode == TimerMode::Repeating ==> duration_ms >= 1,
        ensures
            r.wf(),
            r.elapsed() == 0,
            r.duration() == duration_ms,
            r.mode_spec() == mode,
            !r.crossed_spec(),
    {
        Timer { elapsed_ms: 0, duration_ms, mode, crossed: false }
    }

    /// Advance by `delta_ms`. A once timer saturates at its duration; a
    /// repeating timer wraps, remembering that it crossed.
    pub fn tick(&mut self, delta_ms: u64)
        requires
            old(self).wf(),
            delta_ms <= TIMER_LIMIT_MS,
        ensures
            final(self).wf(),
            final(self).duration() == old(self).duration(),
            final(self).mode_spec() == old(self).mode_spec(),
            old(self).mode_spec() == TimerMode::Once ==> {
                &&& final(self).elapsed() == if old(self).elapsed() + delta_ms
                    <= old(self).duration() {
                    old(self).elapsed() + delta_ms
                } else {
                    old(self).duration() as int
                }
                &&& final(self).crossed_spec() == (old(self).elapsed() + delta_ms
                    >= old(self).duration())
            },
            old(self).mode_spec() == TimerMode::Repeating ==> {
                &&& final(self).elapsed() == (old(self).elapsed() + delta_ms) % (old(
                    self,
                ).duration() as int)
                &&& final(self).crossed_spec() == (old(self).elapsed() + delta_ms
                    >= old(self).duration())
            },
    {
        match self.mode {
            TimerMode::Once => {
                let total = self.elapsed_ms + delta_ms;
                self.crossed = total >= self.duration_ms;
                self.elapsed_ms = if total <= self.duration_ms {
                    total
                } else {
                    self.duration_ms
                };
            },
            TimerMode::Repeating => {
                let total = self.elapsed_ms + delta_ms;
                self.crossed = total >= self.duration_ms;
                self.elapsed_ms = total % self.duration_ms;
            },
        }
    }

    pub fn finished(&self) -> (r: bool)
        ensures
            r == self.finished_spec(),
    {
        match self.mode {
            TimerMode::Once => self.elapsed_ms >= self.duration_ms,
            TimerMode::Repeating => self.crossed,
        }
    }

    /// Milliseconds left until the duration (zero once past it).
    pub fn duration_left(&self) -> (r: u64)
        ensures
            r == if self.elapsed() <= self.duration() {
                self.duration() - self.elapsed()
            } else {
                0int
            },
    {
        if self.elapsed_ms <= self.duration_ms {
            self.duration_ms - self.elapsed_ms
        } else {
            0
        }
    }

    /// Whether the timer reached its duration on the last tick.
    pub fn just_finished(&self) -> (r: bool)
        ensures
            r == self.crossed_spec(),
    {
        self.crossed
    }
}

} // verus!

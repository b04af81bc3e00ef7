//! A repeating countdown timer driven by explicit millisecond ticks, as the
//! simulation's fixed step hands them out. On reaching its duration the timer
//! reports that it just finished and wraps the overshoot into the next cycle.

use vstd::prelude::*;

verus! {

/// A repeating timer measured in whole milliseconds.
#[derive(Clone, Copy, PartialEq, Eq, Structural, Debug)]
pub struct Timer {
    /// length of one cycle
    pub duration_ms: u64,
    /// time accumulated in the current cycle
    pub elapsed_ms: u64,
    /// a paused timer ignores ticks
    pub paused: bool,
    /// whether the most recent tick completed a cycle
    pub finished_this_tick: bool,
}

/// The state of a timer after one tick of `delta_ms`: a paused timer only
/// drops its finished flag; a running one accumulates the delta and, on
/// reaching its duration, finishes and wraps the overshoot into the next
/// cycle; a zero-duration timer finishes on every tick.
pub open spec fn spec_tick(t: Timer, delta_ms: u64) -> Timer {
    if t.paused {
        Timer { finished_this_tick: false, ..t }
    } else if t.duration_ms == 0 {
        Timer { elapsed_ms: 0, finished_this_tick: true, ..t }
    } else if t.elapsed_ms + delta_ms >= t.duration_ms {
        Timer {
            elapsed_ms: ((t.elapsed_ms + delta_ms) % (t.duration_ms as int)) as u64,
            finished_this_tick: true,
            ..t
        }
    } else {
        Timer { elapsed_ms: (t.elapsed_ms + delta_ms) as u64, finished_this_tick: false, ..t }
    }
}

impl Timer {
    /// Creates a running repeating timer with nothing elapsed.
    pub fn new_repeating(duration_ms: u64) -> (t: Timer)
        ensures
            t.duration_ms == duration_ms,
            t.elapsed_ms == 0,
            !t.paused,
            !t.finished_this_tick,
    {
        Timer { duration_ms, elapsed_ms: 0, paused: false, finished_this_tick: false }
    }

    /// Advances the timer by `delta_ms`. A paused timer is left alone; a
    /// running one accumulates the delta and, on reaching its duration,
    /// finishes and carries the overshoot over into the next cycle. A timer
    /// of zero duration finishes on every tick.
    pub fn tick(&mut self, delta_ms: u64)
        requires
            old(self).elapsed_ms + delta_ms <= u64::MAX,
        ensures
            *final(self) == spec_tick(*old(self), delta_ms),
    {
        if self.paused {
            self.finished_this_tick = false;
        } else if self.duration_ms == 0 {
            self.elapsed_ms = 0;
            self.finished_this_tick = true;
        } else {
            let total: u64 = self.elapsed_ms + delta_ms;
            if total >= self.duration_ms {
                self.finished_this_tick = true;
                self.elapsed_ms = total % self.duration_ms;
            } else {
                proof {
                    vstd::arithmetic::div_mod::lemma_small_mod(
                        total as nat,
                        self.duration_ms as nat,
                    );
                }
                self.finished_this_tick = false;
                self.elapsed_ms = total;
            }
        }
    }

    /// Whether the most recent tick completed a cycle.
    pub fn just_finished(&self) -> (r: bool)
        ensures
            r == self.finished_this_tick,
    {
        self.finished_this_tick
    }

    /// Starts the current cycle over.
    pub fn reset(&mut self)
        ensures
            final(self).duration_ms == old(self).duration_ms,
            final(self).paused == old(self).paused,
            final(self).elapsed_ms == 0,
            !final(self).finished_this_tick,
    {
        self.elapsed_ms = 0;
        self.finished_this_tick = false;
    }

    /// Stops the timer from accumulating ticks.
    pub fn pause(&mut self)
        ensures
            *final(self) == (Timer { paused: true, ..*old(self) }),
    {
        self.paused = true;
    }

    /// Lets the timer accumulate ticks again.
    pub fn unpause(&mut self)
        ensures
            *final(self) == (Timer { paused: false, ..*old(self) }),
    {
        self.paused = false;
    }

    /// Changes the cycle length without touching the elapsed time.
    pub fn set_duration(&mut self, duration_ms: u64)
        ensures
            *final(self) == (Timer { duration_ms, ..*old(self) }),
    {
        self.duration_ms = duration_ms;
    }

    /// Milliseconds left in the current cycle; zero once the elapsed time has
    /// caught up with the duration.
    pub fn remaining_ms(&self) -> (r: u64)
        ensures
            r == (if self.elapsed_ms <= self.duration_ms {
                self.duration_ms - self.elapsed_ms
            } else {
                0int
            }),
    {
        if self.elapsed_ms <= self.duration_ms {
            self.duration_ms - self.elapsed_ms
        } else {
            0
        }
    }
}

} // verus!

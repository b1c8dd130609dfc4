//! Countdown and repeating timers over whole milliseconds, driving attack
//! cooldowns, hurt immunity, death delays and animation frame advances.

use vstd::prelude::*;

verus! {

/// Whether a timer stops at its duration or wraps around and fires again.
#[derive(Clone, Copy, PartialEq, Eq, Structural, Debug)]
pub enum TimerMode {
    Once,
    Repeating,
}

/// A millisecond timer. A `Once` timer accumulates elapsed time up to its
/// duration and then stays finished; a `Repeating` timer wraps around modulo
/// its duration and reports each completed lap.
#[derive(Clone, Copy, PartialEq, Eq, Structural, Debug)]
pub struct Timer {
    pub elapsed_ms: u32,
    pub duration_ms: u32,
    pub mode: TimerMode,
    pub finished_this_tick: bool,
}

impl Timer {
    /// Elapsed time never passes the duration, and a repeating timer has a
    /// positive lap length.
    pub open spec fn wf(self) -> bool {
        &&& self.elapsed_ms <= self.duration_ms
        &&& self.mode is Repeating ==> self.duration_ms >= 1
    }

    /// The timer has reached its duration: a `Once` timer permanently, a
    /// `Repeating` timer exactly on the ticks on which it completed a lap.
    pub open spec fn spec_finished(self) -> bool {
        match self.mode {
            TimerMode::Once => self.elapsed_ms >= self.duration_ms,
            TimerMode::Repeating => self.finished_this_tick,
        }
    }

    /// The timer as it stands after `tick(delta_ms)`.
    pub open spec fn spec_tick(self, delta_ms: u32) -> Timer {
        let total = self.elapsed_ms + delta_ms;
        match self.mode {
            TimerMode::Once => Timer {
                elapsed_ms: if total >= self.duration_ms {
                    self.duration_ms
                } else {
                    total as u32
                },
                finished_this_tick: self.elapsed_ms < self.duration_ms && total
                    >= self.duration_ms,
                ..self
            },
            TimerMode::Repeating => Timer {
                elapsed_ms: if total >= self.duration_ms {
                    (total % (self.duration_ms as int)) as u32
                } else {
                    total as u32
                },
                finished_this_tick: total >= self.duration_ms,
                ..self
            },
        }
    }

    pub fn new(duration_ms: u32, mode: TimerMode) -> (r: Timer)
        requires
            mode is Repeating ==> duration_ms >= 1,
        ensures
            r == (Timer { elapsed_ms: 0, duration_ms, mode, finished_this_tick: false }),
            r.wf(),
    {
        Timer { elapsed_ms: 0, duration_ms, mode, finished_this_tick: false }
    }

    /// Advance the timer by `delta_ms`. A `Once` timer clamps at its
    /// duration; a `Repeating` timer wraps modulo its duration.
    pub fn tick(&mut self, delta_ms: u32)
        requires
            old(self).wf(),
        ensures
            final(self).wf(),
            *final(self) == old(self).spec_tick(delta_ms),
    {
        let total: u64 = self.elapsed_ms as u64 + delta_ms as u64;
        match self.mode {
            TimerMode::Once => {
                if total >= self.duration_ms as u64 {
                    self.finished_this_tick = self.elapsed_ms < self.duration_ms;
                    self.elapsed_ms = self.duration_ms;
                } else {
                    self.finished_this_tick = false;
                    self.elapsed_ms = total as u32;
                }
            },
            TimerMode::Repeating => {
                if total >= self.duration_ms as u64 {
                    self.finished_this_tick = true;
                    self.elapsed_ms = (total % self.duration_ms as u64) as u32;
                } else {
                    proof {
                        vstd::arithmetic::div_mod::lemma_small_mod(
                            total as nat,
                            self.duration_ms as nat,
                        );
                    }
                    self.finished_this_tick = false;
                    self.elapsed_ms = total as u32;
                }
            },
        }
    }

    pub fn finished(&self) -> (r: bool)
        ensures
            r == self.spec_finished(),
    {
        match self.mode {
            TimerMode::Once => self.elapsed_ms >= self.duration_ms,
            TimerMode::Repeating => self.finished_this_tick,
        }
    }

    /// Whether the most recent `tick` crossed the duration.
    pub fn just_finished(&self) -> (r: bool)
        ensures
            r == self.finished_this_tick,
    {
        self.finished_this_tick
    }

    /// Start the timer over.
    pub fn reset(&mut self)
        ensures
            *final(self) == (Timer {
                elapsed_ms: 0,
                duration_ms: old(self).duration_ms,
                mode: old(self).mode,
                finished_this_tick: false,
            }),
            old(self).wf() ==> final(self).wf(),
    {
        self.elapsed_ms = 0;
        self.finished_this_tick = false;
    }
}

} // verus!

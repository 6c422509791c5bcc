//! Frame-stepped timers, measured in whole milliseconds. A repeating timer
//! completes and starts over; a one-shot timer completes once and stays
//! completed. A paused timer ignores ticks.

use vstd::prelude::*;

verus! {

/// A countdown driven by per-frame deltas.
#[derive(Debug, Clone, Copy, PartialEq, Eq, Structural)]
pub struct TickTimer {
    pub duration_ms: u32,
    pub elapsed_ms: u32,
    pub repeating: bool,
    pub paused: bool,
    pub finished: bool,
}

/// The timer state after one tick of `delta_ms`, exactly as [`TickTimer::tick`]
/// computes it.
pub open spec fn spec_tick(t: TickTimer, delta_ms: u32) -> TickTimer {
    if t.paused {
        t
    } else {
        let total = t.elapsed_ms + delta_ms as int;
        if total >= t.duration_ms {
            TickTimer {
                finished: true,
                elapsed_ms: if t.repeating {
                    if t.duration_ms == 0 {
                        0u32
                    } else {
                        (total % (t.duration_ms as int)) as u32
                    }
                } else {
                    t.duration_ms
                },
                ..t
            }
        } else {
            TickTimer { finished: false, elapsed_ms: total as u32, ..t }
        }
    }
}

impl TickTimer {
    /// The elapsed time never runs past the duration.
    pub open spec fn wf(&self) -> bool {
        self.elapsed_ms <= self.duration_ms
    }

    /// A fresh timer that completes after `duration_ms`, repeatedly when
    /// `repeating` is set.
    pub fn new(duration_ms: u32, repeating: bool) -> (r: TickTimer)
        ensures
            r == (TickTimer {
                duration_ms,
                elapsed_ms: 0,
                repeating,
                paused: false,
                finished: false,
            }),
            r.wf(),
    {
        TickTimer { duration_ms, elapsed_ms: 0, repeating, paused: false, finished: false }
    }

    /// Whether the timer completed during the latest tick (for a one-shot
    /// timer: whether it has ever completed).
    pub fn finished(&self) -> (r: bool)
        ensures
            r == self.finished,
    {
        self.finished
    }

    /// Advances the timer by `delta_ms`. A completed repeating timer carries
    /// the overshoot into its next round; a completed one-shot timer parks at
    /// its duration and stays finished.
    pub fn tick(&mut self, delta_ms: u32)
        requires
            old(self).wf(),
        ensures
            final(self).wf(),
            *final(self) == spec_tick(*old(self), delta_ms),
    {
        if self.paused {
            return ;
        }
        let total: u64 = self.elapsed_ms as u64 + delta_ms as u64;
        if total >= self.duration_ms as u64 {
            self.finished = true;
            if self.repeating {
                if self.duration_ms == 0 {
                    self.elapsed_ms = 0;
                } else {
                    self.elapsed_ms = (total % self.duration_ms as u64) as u32;
                }
            } else {
                self.elapsed_ms = self.duration_ms;
            }
        } else {
            self.finished = false;
            self.elapsed_ms = total as u32;
            proof {
                if self.repeating {
                    vstd::arithmetic::div_mod::lemma_small_mod(
                        total as nat,
                        self.duration_ms as nat,
                    );
                }
            }
        }
    }

    /// Starts the countdown over.
    pub fn reset(&mut self)
        ensures
            *final(self) == (TickTimer {
                elapsed_ms: 0,
                finished: false,
                ..*old(self)
            }),
            final(self).wf(),
    {
        self.elapsed_ms = 0;
        self.finished = false;
    }

    /// Freezes the timer: ticks no longer advance it.
    pub fn pause(&mut self)
        ensures
            *final(self) == (TickTimer { paused: true, ..*old(self) }),
    {
        self.paused = true;
    }
}

/// The cadence of a combatant's attacks: a repeating countdown, one attack
/// landing each time it completes.
#[derive(Debug, Clone, Copy, PartialEq, Eq, Structural)]
pub struct AttackSpeed(pub TickTimer);

impl AttackSpeed {
    /// A repeating attack timer with the given period.
    pub fn new(period_ms: u32) -> (r: AttackSpeed)
        ensures
            r.0 == (TickTimer {
                duration_ms: period_ms,
                elapsed_ms: 0,
                repeating: true,
                paused: false,
                finished: false,
            }),
            r.0.wf(),
    {
        AttackSpeed(TickTimer::new(period_ms, true))
    }
}

} // verus!

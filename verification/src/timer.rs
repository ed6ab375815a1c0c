//! Frame-stepping countdown timers.
//!
//! A timer is advanced once per tick by an explicit elapsed-time value in
//! whole milliseconds; there is no wall-clock polling. A repeating timer
//! fires at most once per tick, keeping the remainder; a one-shot timer
//! fires on the tick that reaches its duration and stays quiet afterwards.

use vstd::prelude::*;
use vstd::arithmetic::div_mod::{lemma_add_mod_noop, lemma_mod_multiples_vanish, lemma_small_mod};

verus! {

/// Timer durations are capped at this many milliseconds (about eleven days),
/// so that one tick's arithmetic stays far from overflow.
pub const MAX_TIMER_MS: u64 = 1_000_000_000;

/// A countdown over explicit per-tick deltas, in milliseconds.
#[derive(Debug, Clone, Copy, PartialEq, Eq, Structural)]
pub struct Timer {
    pub duration_ms: u64,
    pub elapsed_ms: u64,
    pub repeating: bool,
    /// One-shot timers: whether the duration has been reached on this or any
    /// earlier tick. Repeating timers: whether the last tick fired.
    pub finished: bool,
    /// Whether the duration was reached on the last tick.
    pub just_finished: bool,
}

impl Timer {
    /// Well-formed: positive bounded duration, and the elapsed time never
    /// ahead of the duration (strictly behind it for a repeating timer).
    pub open spec fn wf(self) -> bool {
        0 < self.duration_ms <= MAX_TIMER_MS && self.elapsed_ms <= self.duration_ms
            && (self.repeating ==> self.elapsed_ms < self.duration_ms)
            && (!self.repeating ==> (self.finished <==> self.elapsed_ms == self.duration_ms))
    }

    /// A fresh timer that has seen no time yet.
    pub fn new(duration_ms: u64, repeating: bool) -> (r: Timer)
        requires
            0 < duration_ms <= MAX_TIMER_MS,
        ensures
            r == (Timer {
                duration_ms,
                elapsed_ms: 0,
                repeating,
                finished: false,
                just_finished: false,
            }),
            r.wf(),
    {
        Timer { duration_ms, elapsed_ms: 0, repeating, finished: false, just_finished: false }
    }

    /// The timer after one tick of `delta` milliseconds.
    pub open spec fn spec_tick(self, delta: u64) -> Timer {
        if self.repeating {
            if self.elapsed_ms + delta >= self.duration_ms {
                Timer {
                    elapsed_ms: ((self.elapsed_ms + delta) % (self.duration_ms as int)) as u64,
                    finished: true,
                    just_finished: true,
                    ..self
                }
            } else {
                Timer {
                    elapsed_ms: (self.elapsed_ms + delta) as u64,
                    finished: false,
                    just_finished: false,
                    ..self
                }
            }
        } else {
            if self.finished {
                Timer { just_finished: false, ..self }
            } else if self.elapsed_ms + delta >= self.duration_ms {
                Timer {
                    elapsed_ms: self.duration_ms,
                    finished: true,
                    just_finished: true,
                    ..self
                }
            } else {
                Timer { elapsed_ms: (self.elapsed_ms + delta) as u64, just_finished: false, ..self }
            }
        }
    }

    /// Advances the timer by `delta` milliseconds, exactly as
    /// [`Timer::spec_tick`] states it.
    pub fn tick(&mut self, delta: u64)
        requires
            old(self).wf(),
        ensures
            *final(self) == old(self).spec_tick(delta),
            final(self).wf(),
    {
        if self.repeating {
            if delta >= self.duration_ms - self.elapsed_ms {
                let delta_rem = delta % self.duration_ms;
                let sum = self.elapsed_ms + delta_rem;
                let rem = if sum >= self.duration_ms {
                    sum - self.duration_ms
                } else {
                    sum
                };
                proof {
                    let e = self.elapsed_ms as int;
                    let dl = delta as int;
                    let d = self.duration_ms as int;
                    lemma_add_mod_noop(e, dl, d);
                    lemma_small_mod(self.elapsed_ms as nat, self.duration_ms as nat);
                    if sum >= self.duration_ms {
                        lemma_mod_multiples_vanish(1, sum - d, d);
                        lemma_small_mod((sum - self.duration_ms) as nat, self.duration_ms as nat);
                    } else {
                        lemma_small_mod(sum as nat, self.duration_ms as nat);
                    }
                    assert(rem == (e + dl) % d);
                }
                self.elapsed_ms = rem;
                self.finished = true;
                self.just_finished = true;
            } else {
                self.elapsed_ms = self.elapsed_ms + delta;
                self.finished = false;
                self.just_finished = false;
            }
        } else {
            if self.finished {
                self.just_finished = false;
            } else if delta >= self.duration_ms - self.elapsed_ms {
                self.elapsed_ms = self.duration_ms;
                self.finished = true;
                self.just_finished = true;
            } else {
                self.elapsed_ms = self.elapsed_ms + delta;
                self.just_finished = false;
            }
        }
    }
}

} // verus!

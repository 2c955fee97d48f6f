//! The animation clock: elapsed time measured against a frame duration.
//!
//! Policy for long ticks: a tick fires at most once, however many frame durations
//! it spans, and the time beyond the last full duration is carried into the next
//! tick. The arithmetic is that of a repeating `bevy::time::Timer`.

use bevy::time::{Timer, TimerMode};
use std::time::Duration;
use vstd::prelude::*;

verus! {

/// Time accumulated towards the next frame, and the time one frame lasts.
#[derive(Clone, Copy, Debug, PartialEq, Eq, Structural)]
pub struct FrameTimer {
    pub elapsed_nanos: u64,
    pub duration_nanos: u64,
}

/// Whether a tick of `delta_nanos` reaches the frame duration.
pub open spec fn spec_tick_fires(elapsed_nanos: u64, duration_nanos: u64, delta_nanos: u64) -> bool {
    elapsed_nanos + delta_nanos >= duration_nanos
}

/// The time accumulated after a tick of `delta_nanos`: the sum while it stays below
/// the frame duration, else what is left of it after whole durations are taken out.
pub open spec fn spec_elapsed_after_tick(
    elapsed_nanos: u64,
    duration_nanos: u64,
    delta_nanos: u64,
) -> int {
    let total = elapsed_nanos + delta_nanos;
    if total < duration_nanos {
        total
    } else if duration_nanos == 0 {
        0
    } else {
        total % (duration_nanos as int)
    }
}

/// Runs one tick of a repeating `bevy::time::Timer`.
///
/// Trusted: the body builds a timer of `duration_nanos` with `elapsed_nanos` on it,
/// calls `Timer::tick` with `delta_nanos`, and reads `Timer::elapsed` and
/// `Timer::finished` back. The contract restates what `tick` does to a repeating,
/// unpaused timer: it adds the delta, reports the timer finished when the sum has
/// reached the duration, and then keeps the remainder of the sum by the duration
/// (zero for a zero duration).
#[verifier::external_body]
fn timer_tick(elapsed_nanos: u64, duration_nanos: u64, delta_nanos: u64) -> (after: (u64, bool))
    ensures
        after.0 == spec_elapsed_after_tick(elapsed_nanos, duration_nanos, delta_nanos),
        after.1 == spec_tick_fires(elapsed_nanos, duration_nanos, delta_nanos),
{
    let mut timer = Timer::new(Duration::from_nanos(duration_nanos), TimerMode::Repeating);
    timer.set_elapsed(Duration::from_nanos(elapsed_nanos));
    timer.tick(Duration::from_nanos(delta_nanos));
    (timer.elapsed().as_nanos() as u64, timer.finished())
}

impl FrameTimer {
    /// The timer after a tick of `delta_nanos`.
    pub open spec fn spec_tick(self, delta_nanos: u64) -> FrameTimer {
        FrameTimer {
            elapsed_nanos: spec_elapsed_after_tick(
                self.elapsed_nanos,
                self.duration_nanos,
                delta_nanos,
            ) as u64,
            duration_nanos: self.duration_nanos,
        }
    }

    /// Whether a tick of `delta_nanos` fires.
    pub open spec fn spec_fires(self, delta_nanos: u64) -> bool {
        spec_tick_fires(self.elapsed_nanos, self.duration_nanos, delta_nanos)
    }

    /// A timer with nothing accumulated.
    pub fn new(duration_nanos: u64) -> (timer: FrameTimer)
        ensures
            timer == (FrameTimer { elapsed_nanos: 0, duration_nanos }),
    {
        FrameTimer { elapsed_nanos: 0, duration_nanos }
    }

    /// Accumulates `delta_nanos` and says whether a frame is due.
    pub fn tick(&mut self, delta_nanos: u64) -> (fired: bool)
        ensures
            fired == old(self).spec_fires(delta_nanos),
            *final(self) == old(self).spec_tick(delta_nanos),
    {
        let after = timer_tick(self.elapsed_nanos, self.duration_nanos, delta_nanos);
        self.elapsed_nanos = after.0;
        after.1
    }
}

/// After a tick the accumulated time fits the machine word, and on a timer with a
/// positive duration a tick that fires leaves less than one duration accumulated.
pub proof fn lemma_tick_bounds(timer: FrameTimer, delta_nanos: u64)
    ensures
        0 <= spec_elapsed_after_tick(timer.elapsed_nanos, timer.duration_nanos, delta_nanos)
            <= u64::MAX,
        timer.spec_fires(delta_nanos) && timer.duration_nanos > 0 ==> timer.spec_tick(
            delta_nanos,
        ).elapsed_nanos < timer.duration_nanos,
        !timer.spec_fires(delta_nanos) ==> timer.spec_tick(delta_nanos).elapsed_nanos
            == timer.elapsed_nanos + delta_nanos,
{
}

} // verus!

//! Runs of ticks: the model of a host calling `step` once per frame.

use crate::input::InputSnapshot;
use crate::player::{spec_step, spec_step_outcome, Player, StepOutcome};
use vstd::prelude::*;

verus! {

/// What the host hands to one tick.
#[derive(Clone, Copy, Debug, PartialEq, Eq, Structural)]
pub struct Tick {
    pub input: InputSnapshot,
    pub elapsed_nanos: u64,
    pub viewport_available: bool,
}

/// The character after the first `n` ticks of a run.
pub open spec fn spec_run(player: Player, ticks: Seq<Tick>, n: int) -> Player
    decreases n,
{
    if n <= 0 {
        player
    } else {
        spec_step(spec_run(player, ticks, n - 1), ticks[n - 1].input, ticks[n - 1].elapsed_nanos)
    }
}

/// What tick number `n` of a run reports, counting from 1.
pub open spec fn spec_outcome(player: Player, ticks: Seq<Tick>, n: int) -> StepOutcome {
    spec_step_outcome(
        spec_run(player, ticks, n - 1),
        ticks[n - 1].input,
        ticks[n - 1].elapsed_nanos,
        ticks[n - 1].viewport_available,
    )
}

/// How many of the first `n` ticks of a run advanced a frame.
pub open spec fn spec_frames_advanced(player: Player, ticks: Seq<Tick>, n: int) -> int
    decreases n,
{
    if n <= 0 {
        0
    } else {
        spec_frames_advanced(player, ticks, n - 1) + if spec_outcome(
            player,
            ticks,
            n,
        ).frame_advanced {
            1int
        } else {
            0int
        }
    }
}

/// The steps to the right that the first `n` ticks of a run add up to.
pub open spec fn spec_steps_right(player: Player, ticks: Seq<Tick>, n: int) -> int
    decreases n,
{
    if n <= 0 {
        0
    } else {
        spec_steps_right(player, ticks, n - 1) + spec_outcome(
            player,
            ticks,
            n,
        ).displacement.horizontal_steps
    }
}

} // verus!

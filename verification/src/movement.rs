//! The movement curve: what each frame of each state moves the character by.
//!
//! Horizontal motion is counted in steps. One step is the width of a tile divided
//! by the number of frames of the running animation, so a displacement names the
//! divisor and leaves the division to the host, which knows the viewport.

use crate::state::{spec_frame_count, PlayerState};
use vstd::prelude::*;

verus! {

/// Units that the two rising frames of a hop lift the character by, each.
pub const HOP_LIFT: i32 = 20;

/// Units that the rising frame of a run-jump lifts the character by.
pub const RUN_JUMP_LIFT: i32 = 30;

/// Steps that a frame in the air covers.
pub const AIRBORNE_STEPS: u8 = 3;

/// One row of the movement curve.
#[derive(Clone, Copy, Debug, PartialEq, Eq, Structural)]
pub struct CurveEntry {
    /// Steps towards the side the character faces.
    pub horizontal_steps: u8,
    /// Units upwards; negative is downwards.
    pub vertical: i32,
}

/// What one tick moves the character by.
#[derive(Clone, Copy, Debug, PartialEq, Eq, Structural)]
pub struct Displacement {
    /// Steps to the right; negative is to the left.
    pub horizontal_steps: i32,
    /// Units upwards; negative is downwards.
    pub vertical: i32,
    /// The number of steps that make one tile width. Never zero.
    pub step_divisor: usize,
}

/// The movement curve, keyed by state and by the offset of the frame that an
/// advance lands on, counted from the state's first frame.
///
/// Walking, running and rolling move one step on every frame. A hop rises on
/// offsets 3 and 4, falls on 5 and 6, and covers three steps on each of the four.
/// A run-jump rises on offset 1, falls on offset 3, and covers three steps on
/// every frame. The other states do not move.
pub open spec fn spec_curve_entry(state: PlayerState, offset: int) -> CurveEntry {
    match state {
        PlayerState::Walking | PlayerState::Running | PlayerState::Rolling => CurveEntry {
            horizontal_steps: 1,
            vertical: 0,
        },
        PlayerState::Hopping => if offset == 3 || offset == 4 {
            CurveEntry { horizontal_steps: AIRBORNE_STEPS, vertical: HOP_LIFT }
        } else if offset == 5 || offset == 6 {
            CurveEntry { horizontal_steps: AIRBORNE_STEPS, vertical: (-HOP_LIFT) as i32 }
        } else {
            CurveEntry { horizontal_steps: 0, vertical: 0 }
        },
        PlayerState::RunJumping => if offset == 1 {
            CurveEntry { horizontal_steps: AIRBORNE_STEPS, vertical: RUN_JUMP_LIFT }
        } else if offset == 3 {
            CurveEntry { horizontal_steps: AIRBORNE_STEPS, vertical: (-RUN_JUMP_LIFT) as i32 }
        } else {
            CurveEntry { horizontal_steps: AIRBORNE_STEPS, vertical: 0 }
        },
        _ => CurveEntry { horizontal_steps: 0, vertical: 0 },
    }
}

/// The displacement in which nothing moves.
pub open spec fn spec_no_displacement() -> Displacement {
    Displacement { horizontal_steps: 0, vertical: 0, step_divisor: 1 }
}

/// The displacement of one curve entry: its steps towards the side the character
/// faces, none at all while the viewport is unknown, and its vertical units.
pub open spec fn spec_displacement(
    entry: CurveEntry,
    facing_left: bool,
    viewport_available: bool,
    step_divisor: usize,
) -> Displacement {
    Displacement {
        horizontal_steps: if !viewport_available {
            0
        } else if facing_left {
            (-entry.horizontal_steps) as i32
        } else {
            entry.horizontal_steps as i32
        },
        vertical: entry.vertical,
        step_divisor,
    }
}

/// Looks up one row of the movement curve.
pub fn curve_entry(state: PlayerState, offset: usize) -> (entry: CurveEntry)
    ensures
        entry == spec_curve_entry(state, offset as int),
{
    match state {
        PlayerState::Walking | PlayerState::Running | PlayerState::Rolling => CurveEntry {
            horizontal_steps: 1,
            vertical: 0,
        },
        PlayerState::Hopping => {
            if offset == 3 || offset == 4 {
                CurveEntry { horizontal_steps: AIRBORNE_STEPS, vertical: HOP_LIFT }
            } else if offset == 5 || offset == 6 {
                CurveEntry { horizontal_steps: AIRBORNE_STEPS, vertical: -HOP_LIFT }
            } else {
                CurveEntry { horizontal_steps: 0, vertical: 0 }
            }
        },
        PlayerState::RunJumping => {
            if offset == 1 {
                CurveEntry { horizontal_steps: AIRBORNE_STEPS, vertical: RUN_JUMP_LIFT }
            } else if offset == 3 {
                CurveEntry { horizontal_steps: AIRBORNE_STEPS, vertical: -RUN_JUMP_LIFT }
            } else {
                CurveEntry { horizontal_steps: AIRBORNE_STEPS, vertical: 0 }
            }
        },
        _ => CurveEntry { horizontal_steps: 0, vertical: 0 },
    }
}

/// The movement curve of one state as a table: row `i` is the entry for offset
/// `i`, from the first frame to the advance that runs past the last one.
pub fn movement_curve(state: PlayerState) -> (rows: Vec<CurveEntry>)
    ensures
        rows.len() == spec_frame_count(state) + 1,
        forall|i: int| 0 <= i < rows.len() ==> rows[i] == spec_curve_entry(state, i),
{
    let count: usize = crate::state::frame_count(state);
    let mut rows: Vec<CurveEntry> = Vec::new();
    let mut offset: usize = 0;
    while offset <= count
        invariant
            count == spec_frame_count(state),
            count <= 8,
            offset <= count + 1,
            rows.len() == offset,
            forall|i: int| 0 <= i < rows.len() ==> rows[i] == spec_curve_entry(state, i),
        decreases count + 1 - offset,
    {
        rows.push(curve_entry(state, offset));
        offset = offset + 1;
    }
    rows
}

/// The displacement of one curve entry.
pub fn displacement(
    entry: CurveEntry,
    facing_left: bool,
    viewport_available: bool,
    step_divisor: usize,
) -> (moved: Displacement)
    ensures
        moved == spec_displacement(entry, facing_left, viewport_available, step_divisor),
{
    let steps: i32 = entry.horizontal_steps as i32;
    let horizontal_steps: i32 = if !viewport_available {
        0
    } else if facing_left {
        -steps
    } else {
        steps
    };
    Displacement { horizontal_steps, vertical: entry.vertical, step_divisor }
}

} // verus!

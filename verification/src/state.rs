//! The character's states, the buffered requests, and the fixed tables keyed by state.

use vstd::prelude::*;

verus! {

/// The discrete behaviour a character is in. Exactly one is active at a time.
#[derive(Clone, Copy, Debug, PartialEq, Eq, Hash, Structural)]
pub enum PlayerState {
    Idle,
    Walking,
    Hopping,
    Crouching,
    Crouched,
    Uncrouching,
    Rolling,
    Running,
    RunJumping,
}

/// A request that arrived while an animation was running and waits in the
/// character's single slot until the animation is over.
#[derive(Clone, Copy, Debug, PartialEq, Eq, Hash, Structural)]
pub enum PlayerMovement {
    Nothing,
    Hop,
    Crouch,
    Uncrouch,
    RunJump,
}

/// The sprite frames of one state, both ends included.
#[derive(Clone, Copy, Debug, PartialEq, Eq, Structural)]
pub struct FrameRange {
    pub min_frame: usize,
    pub max_frame: usize,
}

/// Nanoseconds per frame in every state but `Running`.
pub const BASE_FRAME_NANOS: u64 = 100_000_000;

/// Nanoseconds per frame while `Running`.
pub const RUN_FRAME_NANOS: u64 = 50_000_000;

/// Bounds that an animation can run over: ordered, and with room for the index
/// one past `max_frame`, which advancing computes before it wraps or clamps.
pub open spec fn valid_frame_bounds(min_frame: usize, max_frame: usize) -> bool {
    min_frame <= max_frame && max_frame < usize::MAX
}

/// The frame table: which sprite frames each state plays.
pub open spec fn spec_state_frames(state: PlayerState) -> FrameRange {
    match state {
        PlayerState::Idle => FrameRange { min_frame: 0, max_frame: 0 },
        PlayerState::Walking => FrameRange { min_frame: 0, max_frame: 3 },
        PlayerState::Hopping => FrameRange { min_frame: 4, max_frame: 11 },
        PlayerState::Crouching => FrameRange { min_frame: 12, max_frame: 14 },
        PlayerState::Crouched => FrameRange { min_frame: 15, max_frame: 15 },
        PlayerState::Uncrouching => FrameRange { min_frame: 15, max_frame: 18 },
        PlayerState::Rolling => FrameRange { min_frame: 19, max_frame: 21 },
        PlayerState::Running => FrameRange { min_frame: 22, max_frame: 25 },
        PlayerState::RunJumping => FrameRange { min_frame: 6, max_frame: 9 },
    }
}

/// How many frames a state plays.
pub open spec fn spec_frame_count(state: PlayerState) -> int {
    spec_state_frames(state).max_frame - spec_state_frames(state).min_frame + 1
}

/// Whether a state's animation starts over when it runs past its last frame.
pub open spec fn spec_is_looping(state: PlayerState) -> bool {
    state == PlayerState::Walking || state == PlayerState::Running || state
        == PlayerState::Rolling
}

/// Nanoseconds that one frame of a state stays on screen.
pub open spec fn spec_frame_duration(state: PlayerState) -> u64 {
    if state == PlayerState::Running {
        RUN_FRAME_NANOS
    } else {
        BASE_FRAME_NANOS
    }
}

/// Every entry of the frame table has valid bounds, so entering a state never
/// produces a malformed cursor.
pub proof fn lemma_frame_table_valid(state: PlayerState)
    ensures
        valid_frame_bounds(
            spec_state_frames(state).min_frame,
            spec_state_frames(state).max_frame,
        ),
        1 <= spec_frame_count(state) <= 8,
{
}

/// Looks a state up in the frame table.
pub fn state_frames(state: PlayerState) -> (range: FrameRange)
    ensures
        range == spec_state_frames(state),
{
    match state {
        PlayerState::Idle => FrameRange { min_frame: 0, max_frame: 0 },
        PlayerState::Walking => FrameRange { min_frame: 0, max_frame: 3 },
        PlayerState::Hopping => FrameRange { min_frame: 4, max_frame: 11 },
        PlayerState::Crouching => FrameRange { min_frame: 12, max_frame: 14 },
        PlayerState::Crouched => FrameRange { min_frame: 15, max_frame: 15 },
        PlayerState::Uncrouching => FrameRange { min_frame: 15, max_frame: 18 },
        PlayerState::Rolling => FrameRange { min_frame: 19, max_frame: 21 },
        PlayerState::Running => FrameRange { min_frame: 22, max_frame: 25 },
        PlayerState::RunJumping => FrameRange { min_frame: 6, max_frame: 9 },
    }
}

/// The number of frames that a state plays.
pub fn frame_count(state: PlayerState) -> (count: usize)
    ensures
        count == spec_frame_count(state),
{
    let range = state_frames(state);
    range.max_frame - range.min_frame + 1
}

/// Whether a state's animation loops.
pub fn is_looping(state: PlayerState) -> (looping: bool)
    ensures
        looping == spec_is_looping(state),
{
    match state {
        PlayerState::Walking | PlayerState::Running | PlayerState::Rolling => true,
        _ => false,
    }
}

/// The frame duration of a state, in nanoseconds.
pub fn frame_duration(state: PlayerState) -> (nanos: u64)
    ensures
        nanos == spec_frame_duration(state),
{
    match state {
        PlayerState::Running => RUN_FRAME_NANOS,
        _ => BASE_FRAME_NANOS,
    }
}

} // verus!

//! The animation cursor of one character: which frame is shown, between which
//! bounds, and whether the animation is still running.

use crate::clock::FrameTimer;
use crate::error::PlayerError;
use crate::state::{valid_frame_bounds, FrameRange, BASE_FRAME_NANOS};
use vstd::prelude::*;

verus! {

/// The playback position of the active animation, with its clock.
#[derive(Clone, Copy, Debug, PartialEq, Eq, Structural)]
pub struct AnimationHandler {
    pub current_frame: usize,
    pub timer: FrameTimer,
    pub is_playing: bool,
    pub min_frame: usize,
    pub max_frame: usize,
}

impl AnimationHandler {
    /// The cursor's invariant: valid bounds, and the current frame inside them.
    pub open spec fn wf(self) -> bool {
        &&& valid_frame_bounds(self.min_frame, self.max_frame)
        &&& self.min_frame <= self.current_frame <= self.max_frame
    }

    /// A stopped cursor on the first frame of its bounds, with the base frame
    /// duration on its clock.
    pub open spec fn spec_new(min_frame: usize, max_frame: usize) -> AnimationHandler {
        AnimationHandler {
            current_frame: min_frame,
            timer: FrameTimer { elapsed_nanos: 0, duration_nanos: BASE_FRAME_NANOS },
            is_playing: false,
            min_frame,
            max_frame,
        }
    }

    /// How many frames lie between the bounds.
    pub open spec fn spec_frame_count(self) -> int {
        self.max_frame - self.min_frame + 1
    }

    /// How far from `min_frame` the next advance lands before it wraps or clamps:
    /// between 1 and the frame count.
    pub open spec fn spec_next_offset(self) -> int {
        self.current_frame - self.min_frame + 1
    }

    /// The cursor restarted on `range`: first frame, playing, `duration_nanos` per
    /// frame. The time already accumulated on the clock stays.
    pub open spec fn spec_play(self, range: FrameRange, duration_nanos: u64) -> AnimationHandler {
        AnimationHandler {
            current_frame: range.min_frame,
            timer: FrameTimer { elapsed_nanos: self.timer.elapsed_nanos, duration_nanos },
            is_playing: true,
            min_frame: range.min_frame,
            max_frame: range.max_frame,
        }
    }

    /// The cursor one frame later. A stopped cursor stays as it is. Past the last
    /// frame a looping animation starts over and goes on playing; any other stays
    /// on its last frame and stops.
    pub open spec fn spec_advance(self, looping: bool) -> AnimationHandler {
        if !self.is_playing {
            self
        } else if self.current_frame < self.max_frame {
            AnimationHandler { current_frame: (self.current_frame + 1) as usize, ..self }
        } else if looping {
            AnimationHandler { current_frame: self.min_frame, ..self }
        } else {
            AnimationHandler { current_frame: self.max_frame, is_playing: false, ..self }
        }
    }

    /// Creates a stopped cursor over `min_frame..=max_frame`, or rejects the bounds.
    pub fn new(min_frame: usize, max_frame: usize) -> (made: Result<AnimationHandler, PlayerError>)
        ensures
            valid_frame_bounds(min_frame, max_frame) ==> made == Ok::<
                AnimationHandler,
                PlayerError,
            >(AnimationHandler::spec_new(min_frame, max_frame)),
            !valid_frame_bounds(min_frame, max_frame) ==> made == Err::<
                AnimationHandler,
                PlayerError,
            >(PlayerError::InvalidFrameBounds),
    {
        if min_frame > max_frame || max_frame == usize::MAX {
            return Err(PlayerError::InvalidFrameBounds);
        }
        Ok(
            AnimationHandler {
                current_frame: min_frame,
                timer: FrameTimer::new(BASE_FRAME_NANOS),
                is_playing: false,
                min_frame,
                max_frame,
            },
        )
    }

    /// Tests the cursor's invariant.
    pub fn is_well_formed(&self) -> (ok: bool)
        ensures
            ok == self.wf(),
    {
        self.min_frame <= self.current_frame && self.current_frame <= self.max_frame
            && self.max_frame < usize::MAX
    }

    /// The number of frames between the bounds.
    pub fn frame_count(&self) -> (count: usize)
        requires
            self.wf(),
        ensures
            count == self.spec_frame_count(),
            count >= 1,
    {
        self.max_frame - self.min_frame + 1
    }

    /// Restarts the cursor on `range` with `duration_nanos` per frame.
    pub fn play(&mut self, range: FrameRange, duration_nanos: u64)
        ensures
            *final(self) == old(self).spec_play(range, duration_nanos),
    {
        self.min_frame = range.min_frame;
        self.max_frame = range.max_frame;
        self.current_frame = range.min_frame;
        self.is_playing = true;
        self.timer.duration_nanos = duration_nanos;
    }

    /// Moves a playing cursor one frame on and returns the offset from `min_frame`
    /// at which the advance landed before wrapping or clamping; `None` when the
    /// cursor is stopped, which nothing advances.
    pub fn advance(&mut self, looping: bool) -> (landed: Option<usize>)
        requires
            old(self).wf(),
        ensures
            *final(self) == old(self).spec_advance(looping),
            final(self).wf(),
            old(self).is_playing ==> landed == Some(old(self).spec_next_offset() as usize),
            !old(self).is_playing ==> landed.is_none(),
    {
        if !self.is_playing {
            return None;
        }
        let offset: usize = self.current_frame - self.min_frame + 1;
        if self.current_frame < self.max_frame {
            self.current_frame = self.current_frame + 1;
        } else if looping {
            self.current_frame = self.min_frame;
        } else {
            self.current_frame = self.max_frame;
            self.is_playing = false;
        }
        Some(offset)
    }
}

} // verus!

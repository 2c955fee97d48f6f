//! The character and its tick: buffered request, fresh input, animation, motion.

use crate::animation::AnimationHandler;
use crate::clock::FrameTimer;
use crate::error::PlayerError;
use crate::input::InputSnapshot;
use crate::movement::{
    curve_entry, displacement, spec_curve_entry, spec_displacement, spec_no_displacement,
    Displacement,
};
use crate::rules::{
    buffer_after, buffered_target, facing_after, input_target, spec_buffer_after,
    spec_buffered_target, spec_facing_after, spec_input_target,
};
use crate::state::{
    frame_duration, is_looping, lemma_frame_table_valid, spec_frame_duration, spec_is_looping,
    spec_state_frames, state_frames, PlayerMovement, PlayerState, BASE_FRAME_NANOS,
};
use vstd::prelude::*;

verus! {

/// One character. Nothing is shared between characters.
#[derive(Clone, Copy, Debug, PartialEq, Eq, Structural)]
pub struct Player {
    pub state: PlayerState,
    pub next_movement: PlayerMovement,
    pub is_facing_left: bool,
    pub animation_handler: AnimationHandler,
}

/// What one tick did besides changing the character.
#[derive(Clone, Copy, Debug, PartialEq, Eq, Structural)]
pub struct StepOutcome {
    /// Whether the animation moved on by a frame.
    pub frame_advanced: bool,
    /// What the frame moves the character by; nothing when no frame advanced.
    pub displacement: Displacement,
    /// `Some(PlayerError::MissingViewportMetrics)` when the frame asked for
    /// horizontal steps and none could be given; `None` otherwise.
    pub warning: Option<PlayerError>,
}

impl Player {
    /// The character's invariant: that of its cursor.
    pub open spec fn wf(self) -> bool {
        self.animation_handler.wf()
    }
}

/// The character as it is created: idle, facing right, nothing buffered, its
/// cursor stopped on the single frame of `Idle`.
pub open spec fn spec_create_player() -> Player {
    Player {
        state: PlayerState::Idle,
        next_movement: PlayerMovement::Nothing,
        is_facing_left: false,
        animation_handler: AnimationHandler::spec_new(0, 0),
    }
}

/// The character after entering `state`: the cursor restarts on the state's
/// frames with the state's frame duration. Buffer and facing stay.
pub open spec fn spec_change_state(player: Player, state: PlayerState) -> Player {
    Player {
        state,
        animation_handler: player.animation_handler.spec_play(
            spec_state_frames(state),
            spec_frame_duration(state),
        ),
        ..player
    }
}

/// The character after the state machine's part of a tick.
///
/// While the animation plays, the tick can only put a request into the buffer.
/// Once it is over, a buffered request that can be acted on is served and
/// cleared, and fresh input is not read in that tick; otherwise fresh input
/// decides the next state and the facing.
pub open spec fn spec_update(player: Player, input: InputSnapshot) -> Player {
    if player.animation_handler.is_playing {
        Player {
            next_movement: spec_buffer_after(player.state, player.next_movement, input),
            ..player
        }
    } else {
        match spec_buffered_target(player.next_movement, player.state) {
            Some(target) => Player {
                next_movement: PlayerMovement::Nothing,
                ..spec_change_state(player, target)
            },
            None => Player {
                is_facing_left: spec_facing_after(player.state, player.is_facing_left, input),
                ..spec_change_state(player, spec_input_target(player.state, input))
            },
        }
    }
}

/// Whether the animation part of a tick advances a frame: the clock fires and the
/// animation is playing.
pub open spec fn spec_frame_due(player: Player, elapsed_nanos: u64) -> bool {
    player.animation_handler.timer.spec_fires(elapsed_nanos) && player.animation_handler.is_playing
}

/// The character after the animation part of a tick: the clock has ticked, and
/// where a frame was due the cursor has advanced. An idle character is always
/// ready for input: the animation part leaves it stopped.
pub open spec fn spec_animate(player: Player, elapsed_nanos: u64) -> Player {
    let ticked = AnimationHandler {
        timer: player.animation_handler.timer.spec_tick(elapsed_nanos),
        ..player.animation_handler
    };
    let advanced = if spec_frame_due(player, elapsed_nanos) {
        ticked.spec_advance(spec_is_looping(player.state))
    } else {
        ticked
    };
    Player {
        animation_handler: if player.state == PlayerState::Idle {
            AnimationHandler { is_playing: false, ..advanced }
        } else {
            advanced
        },
        ..player
    }
}

/// What the animation part of a tick reports: for a frame that advanced, the
/// displacement that the movement curve gives for the offset it landed on.
pub open spec fn spec_animate_outcome(
    player: Player,
    elapsed_nanos: u64,
    viewport_available: bool,
) -> StepOutcome {
    if spec_frame_due(player, elapsed_nanos) {
        let entry = spec_curve_entry(player.state, player.animation_handler.spec_next_offset());
        StepOutcome {
            frame_advanced: true,
            displacement: spec_displacement(
                entry,
                player.is_facing_left,
                viewport_available,
                player.animation_handler.spec_frame_count() as usize,
            ),
            warning: if entry.horizontal_steps != 0 && !viewport_available {
                Some(PlayerError::MissingViewportMetrics)
            } else {
                None
            },
        }
    } else {
        StepOutcome { frame_advanced: false, displacement: spec_no_displacement(), warning: None }
    }
}

/// The character after one whole tick: the state machine first, the animation
/// after it.
pub open spec fn spec_step(player: Player, input: InputSnapshot, elapsed_nanos: u64) -> Player {
    spec_animate(spec_update(player, input), elapsed_nanos)
}

/// What one whole tick reports.
pub open spec fn spec_step_outcome(
    player: Player,
    input: InputSnapshot,
    elapsed_nanos: u64,
    viewport_available: bool,
) -> StepOutcome {
    spec_animate_outcome(spec_update(player, input), elapsed_nanos, viewport_available)
}

/// Entering a state leaves a character with a valid cursor, whatever it was.
pub proof fn lemma_change_state_wf(player: Player, state: PlayerState)
    ensures
        spec_change_state(player, state).wf(),
{
    lemma_frame_table_valid(state);
}

/// The state machine's part of a tick keeps a valid character valid.
pub proof fn lemma_update_wf(player: Player, input: InputSnapshot)
    requires
        player.wf(),
    ensures
        spec_update(player, input).wf(),
{
    if !player.animation_handler.is_playing {
        match spec_buffered_target(player.next_movement, player.state) {
            Some(target) => lemma_change_state_wf(player, target),
            None => lemma_change_state_wf(player, spec_input_target(player.state, input)),
        }
    }
}

/// A whole tick keeps a valid character valid: the current frame never leaves its
/// bounds.
pub proof fn lemma_step_wf(player: Player, input: InputSnapshot, elapsed_nanos: u64)
    requires
        player.wf(),
    ensures
        spec_step(player, input, elapsed_nanos).wf(),
{
    lemma_update_wf(player, input);
}

/// Creates the character.
pub fn create_player() -> (player: Player)
    ensures
        player == spec_create_player(),
        player.wf(),
{
    Player {
        state: PlayerState::Idle,
        next_movement: PlayerMovement::Nothing,
        is_facing_left: false,
        animation_handler: AnimationHandler {
            current_frame: 0,
            timer: FrameTimer::new(BASE_FRAME_NANOS),
            is_playing: false,
            min_frame: 0,
            max_frame: 0,
        },
    }
}

/// Enters `state`: the one operation by which the character changes state.
pub fn change_player_state(player: &mut Player, state: PlayerState)
    ensures
        *final(player) == spec_change_state(*old(player), state),
        final(player).state == state,
        final(player).animation_handler.current_frame == spec_state_frames(state).min_frame,
        final(player).animation_handler.is_playing,
        final(player).wf(),
{
    proof {
        lemma_frame_table_valid(state);
    }
    player.state = state;
    player.animation_handler.play(state_frames(state), frame_duration(state));
}

/// Runs the state machine's part of a tick.
pub fn update_player(player: &mut Player, input: &InputSnapshot)
    ensures
        *final(player) == spec_update(*old(player), *input),
        old(player).wf() ==> final(player).wf(),
{
    proof {
        if old(player).wf() {
            lemma_update_wf(*old(player), *input);
        }
    }
    if player.animation_handler.is_playing {
        player.next_movement = buffer_after(player.state, player.next_movement, input);
        return ;
    }
    match buffered_target(player.next_movement, player.state) {
        Some(target) => {
            change_player_state(player, target);
            player.next_movement = PlayerMovement::Nothing;
        },
        None => {
            let facing = facing_after(player.state, player.is_facing_left, input);
            let target = input_target(player.state, input);
            change_player_state(player, target);
            player.is_facing_left = facing;
        },
    }
}

/// Runs the animation part of a tick: ticks the clock by `elapsed_nanos` and,
/// where a frame is due, advances the cursor and reads the movement curve.
pub fn animate_player(player: &mut Player, elapsed_nanos: u64, viewport_available: bool) -> (outcome:
    StepOutcome)
    requires
        old(player).wf(),
    ensures
        *final(player) == spec_animate(*old(player), elapsed_nanos),
        outcome == spec_animate_outcome(*old(player), elapsed_nanos, viewport_available),
        final(player).wf(),
{
    let fired = player.animation_handler.timer.tick(elapsed_nanos);
    let step_divisor = player.animation_handler.frame_count();
    let landed = if fired {
        player.animation_handler.advance(is_looping(player.state))
    } else {
        None
    };
    if player.state == PlayerState::Idle {
        player.animation_handler.is_playing = false;
    }
    match landed {
        None => StepOutcome {
            frame_advanced: false,
            displacement: Displacement { horizontal_steps: 0, vertical: 0, step_divisor: 1 },
            warning: None,
        },
        Some(offset) => {
            let entry = curve_entry(player.state, offset);
            let warning = if entry.horizontal_steps != 0 && !viewport_available {
                Some(PlayerError::MissingViewportMetrics)
            } else {
                None
            };
            StepOutcome {
                frame_advanced: true,
                displacement: displacement(
                    entry,
                    player.is_facing_left,
                    viewport_available,
                    step_divisor,
                ),
                warning,
            }
        },
    }
}

/// Runs one tick of one character.
///
/// A character whose cursor is malformed is left as it is and reported with
/// `InvalidFrameBounds`. Every other tick applies in full: the state machine,
/// then the animation. A missing viewport is no failure; the outcome carries it
/// as a warning.
pub fn step(
    player: &mut Player,
    input: &InputSnapshot,
    elapsed_nanos: u64,
    viewport_available: bool,
) -> (result: Result<StepOutcome, PlayerError>)
    ensures
        !old(player).wf() ==> *final(player) == *old(player) && result == Err::<
            StepOutcome,
            PlayerError,
        >(PlayerError::InvalidFrameBounds),
        old(player).wf() ==> *final(player) == spec_step(*old(player), *input, elapsed_nanos)
            && result == Ok::<StepOutcome, PlayerError>(
            spec_step_outcome(*old(player), *input, elapsed_nanos, viewport_available),
        ),
        old(player).wf() ==> final(player).wf(),
{
    if !player.animation_handler.is_well_formed() {
        return Err(PlayerError::InvalidFrameBounds);
    }
    update_player(player, input);
    let outcome = animate_player(player, elapsed_nanos, viewport_available);
    Ok(outcome)
}

} // verus!

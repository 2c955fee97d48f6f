//! Laws of the simulation, proved over the functions that the tick's contracts
//! are stated with.

use crate::animation::AnimationHandler;
use crate::input::{spec_no_input, InputSnapshot};
use crate::player::{spec_change_state, spec_step, spec_step_outcome, spec_update, Player};
use crate::rules::spec_buffer_request;
use crate::simulation::{spec_frames_advanced, spec_outcome, spec_run, spec_steps_right, Tick};
use crate::state::{
    lemma_frame_table_valid, spec_frame_count, spec_frame_duration, spec_is_looping,
    spec_state_frames, PlayerMovement, PlayerState,
};
use vstd::prelude::*;

verus! {

/// Entering a state puts the cursor on the state's first frame and sets it
/// playing, whatever the character was doing.
pub proof fn lemma_entering_resets_cursor(player: Player, state: PlayerState)
    ensures
        spec_change_state(player, state).state == state,
        spec_change_state(player, state).animation_handler.current_frame == spec_state_frames(
            state,
        ).min_frame,
        spec_change_state(player, state).animation_handler.min_frame == spec_state_frames(
            state,
        ).min_frame,
        spec_change_state(player, state).animation_handler.max_frame == spec_state_frames(
            state,
        ).max_frame,
        spec_change_state(player, state).animation_handler.is_playing,
        spec_change_state(player, state).animation_handler.timer.duration_nanos
            == spec_frame_duration(state),
{
}

/// A tick that begins with the animation over always enters a state: after the
/// state machine's part the cursor is on the first frame of the state the
/// character is then in, and playing; the animation part keeps that state.
pub proof fn lemma_ready_tick_enters(player: Player, input: InputSnapshot, elapsed_nanos: u64)
    requires
        !player.animation_handler.is_playing,
    ensures
        spec_update(player, input).animation_handler.current_frame == spec_state_frames(
            spec_update(player, input).state,
        ).min_frame,
        spec_update(player, input).animation_handler.is_playing,
        spec_step(player, input, elapsed_nanos).state == spec_update(player, input).state,
{
}

/// An idle character is ready for input after every tick.
pub proof fn lemma_idle_is_ready(player: Player, input: InputSnapshot, elapsed_nanos: u64)
    requires
        spec_step(player, input, elapsed_nanos).state == PlayerState::Idle,
    ensures
        !spec_step(player, input, elapsed_nanos).animation_handler.is_playing,
{
}

/// While the animation plays, a tick changes neither state nor facing, whatever
/// the direction keys say, and it leaves in the buffer either what was there or
/// one of the four requests, as the input asks.
pub proof fn lemma_busy_tick_only_buffers(player: Player, input: InputSnapshot, elapsed_nanos: u64)
    requires
        player.animation_handler.is_playing,
    ensures
        spec_update(player, input).state == player.state,
        spec_update(player, input).is_facing_left == player.is_facing_left,
        spec_update(player, input).animation_handler == player.animation_handler,
        spec_step(player, input, elapsed_nanos).state == player.state,
        spec_step(player, input, elapsed_nanos).is_facing_left == player.is_facing_left,
        spec_step(player, input, elapsed_nanos).next_movement == spec_update(
            player,
            input,
        ).next_movement,
        match spec_buffer_request(player.state, input) {
            Some(request) => request != PlayerMovement::Nothing && spec_update(
                player,
                input,
            ).next_movement == request,
            None => spec_update(player, input).next_movement == player.next_movement,
        },
{
}

/// The buffer has one slot: of two ticks while the animation plays, a request of
/// the second replaces whatever the first left there.
pub proof fn lemma_later_request_overwrites(
    player: Player,
    first: InputSnapshot,
    second: InputSnapshot,
)
    requires
        player.animation_handler.is_playing,
    ensures
        spec_update(spec_update(player, first), second).state == player.state,
        match spec_buffer_request(player.state, second) {
            Some(request) => spec_update(spec_update(player, first), second).next_movement
                == request,
            None => spec_update(spec_update(player, first), second).next_movement == spec_update(
                player,
                first,
            ).next_movement,
        },
{
}

/// Running past the last frame never stops a looping animation, which starts
/// over, and always stops any other, which stays on its last frame.
pub proof fn lemma_overflow_loops_or_stops(cursor: AnimationHandler)
    requires
        cursor.wf(),
        cursor.is_playing,
        cursor.current_frame == cursor.max_frame,
    ensures
        cursor.spec_advance(true).is_playing,
        cursor.spec_advance(true).current_frame == cursor.min_frame,
        !cursor.spec_advance(false).is_playing,
        cursor.spec_advance(false).current_frame == cursor.max_frame,
{
}

/// No tick stops a character that is walking, running or rolling.
pub proof fn lemma_looping_state_keeps_playing(
    player: Player,
    input: InputSnapshot,
    elapsed_nanos: u64,
)
    requires
        player.wf(),
        player.animation_handler.is_playing,
        spec_is_looping(player.state),
    ensures
        spec_step(player, input, elapsed_nanos).animation_handler.is_playing,
        spec_step(player, input, elapsed_nanos).state == player.state,
{
}

/// A frame that is due on the last frame of a state that does not loop stops the
/// animation there.
pub proof fn lemma_non_looping_state_stops(player: Player, input: InputSnapshot, elapsed_nanos: u64)
    requires
        player.wf(),
        player.animation_handler.is_playing,
        !spec_is_looping(player.state),
        player.animation_handler.current_frame == player.animation_handler.max_frame,
        player.animation_handler.timer.spec_fires(elapsed_nanos),
    ensures
        !spec_step(player, input, elapsed_nanos).animation_handler.is_playing,
        spec_step(player, input, elapsed_nanos).animation_handler.current_frame
            == player.animation_handler.max_frame,
        spec_step(player, input, elapsed_nanos).state == player.state,
{
}

/// An input that starts a walk to the right from an upright state: Right held,
/// Sprint not held, Jump not freshly pressed.
pub open spec fn spec_walks_right(input: InputSnapshot) -> bool {
    input.right.held && !input.sprint.held && !input.jump.just_pressed
}

/// The character as every tick of a walk to the right leaves it.
pub open spec fn spec_walking_right(player: Player) -> bool {
    &&& player.wf()
    &&& player.state == PlayerState::Walking
    &&& player.animation_handler.is_playing
    &&& !player.is_facing_left
    &&& player.animation_handler.min_frame == spec_state_frames(PlayerState::Walking).min_frame
    &&& player.animation_handler.max_frame == spec_state_frames(PlayerState::Walking).max_frame
}

/// One tick of a walk to the right with a known viewport: the walk goes on, and
/// the tick moves one step to the right if it advanced a frame and none if not,
/// a step being one tile width divided by the frames of the walk.
pub proof fn lemma_walking_tick(player: Player, tick: Tick)
    requires
        spec_walking_right(player),
        tick.viewport_available,
    ensures
        spec_walking_right(spec_step(player, tick.input, tick.elapsed_nanos)),
        spec_step_outcome(
            player,
            tick.input,
            tick.elapsed_nanos,
            true,
        ).displacement.horizontal_steps == if spec_step_outcome(
            player,
            tick.input,
            tick.elapsed_nanos,
            true,
        ).frame_advanced {
            1int
        } else {
            0int
        },
        spec_step_outcome(player, tick.input, tick.elapsed_nanos, true).frame_advanced
            ==> spec_step_outcome(
            player,
            tick.input,
            tick.elapsed_nanos,
            true,
        ).displacement.step_divisor == spec_frame_count(PlayerState::Walking),
{
}

/// A run that starts a walk to the right from a ready, idle character: after
/// each of its ticks the walk is on, the steps to the right add up to the frames
/// advanced, and every step is the same fraction of a tile.
proof fn lemma_walk_run(player: Player, ticks: Seq<Tick>, n: int)
    requires
        player.wf(),
        player.state == PlayerState::Idle,
        !player.animation_handler.is_playing,
        player.next_movement == PlayerMovement::Nothing,
        1 <= n <= ticks.len(),
        spec_walks_right(ticks[0].input),
        forall|i: int| 0 <= i < n ==> ticks[i].viewport_available,
    ensures
        spec_walking_right(spec_run(player, ticks, n)),
        spec_steps_right(player, ticks, n) == spec_frames_advanced(player, ticks, n),
        forall|k: int|
            1 <= k <= n && #[trigger] spec_outcome(player, ticks, k).frame_advanced
                ==> spec_outcome(player, ticks, k).displacement.step_divisor == spec_frame_count(
                PlayerState::Walking,
            ),
    decreases n,
{
    if n == 1 {
        assert(spec_run(player, ticks, 0) == player);
        let entered = spec_update(player, ticks[0].input);
        assert(entered.state == PlayerState::Walking);
        assert(spec_walking_right(entered));
        assert(spec_frames_advanced(player, ticks, 0) == 0);
        assert(spec_steps_right(player, ticks, 0) == 0);
    } else {
        lemma_walk_run(player, ticks, n - 1);
        lemma_walking_tick(spec_run(player, ticks, n - 1), ticks[n - 1]);
    }
}

/// From a ready, idle character, holding Right moves the character by exactly
/// one tile width over the ticks that advance as many frames as the walk has.
///
/// Each advanced frame moves one step to the right, and each step is one tile
/// width divided by the frame count of the walk; so the steps of a run add up to
/// its advanced frames, and a run that advanced one walk's worth of frames has
/// moved the frame count times that fraction. How long the ticks are, and so how
/// long a frame lasts, does not enter.
pub proof fn lemma_walk_covers_one_tile(player: Player, ticks: Seq<Tick>)
    requires
        player.wf(),
        player.state == PlayerState::Idle,
        !player.animation_handler.is_playing,
        player.next_movement == PlayerMovement::Nothing,
        forall|i: int| 0 <= i < ticks.len() ==> spec_walks_right(#[trigger] ticks[i].input),
        forall|i: int| 0 <= i < ticks.len() ==> #[trigger] ticks[i].viewport_available,
        spec_frames_advanced(player, ticks, ticks.len() as int) == spec_frame_count(
            PlayerState::Walking,
        ),
    ensures
        spec_steps_right(player, ticks, ticks.len() as int) == spec_frame_count(
            PlayerState::Walking,
        ),
        forall|k: int|
            1 <= k <= ticks.len() && #[trigger] spec_outcome(player, ticks, k).frame_advanced
                ==> spec_outcome(player, ticks, k).displacement.step_divisor == spec_frame_count(
                PlayerState::Walking,
            ),
        spec_run(player, ticks, ticks.len() as int).state == PlayerState::Walking,
{
    if ticks.len() == 0 {
        assert(spec_frames_advanced(player, ticks, 0) == 0);
    } else {
        lemma_walk_run(player, ticks, ticks.len() as int);
    }
}

/// A character in the middle of an animation other than that of `Idle`, over a
/// run of ticks that advance no more frames than are left: the state stays, the
/// animation plays on, and the cursor has moved by the frames advanced.
pub proof fn lemma_animation_in_progress(player: Player, ticks: Seq<Tick>, n: int)
    requires
        player.wf(),
        player.animation_handler.is_playing,
        player.state != PlayerState::Idle,
        0 <= n <= ticks.len(),
        spec_frames_advanced(player, ticks, n) <= player.animation_handler.max_frame
            - player.animation_handler.current_frame,
    ensures
        spec_run(player, ticks, n).state == player.state,
        spec_run(player, ticks, n).is_facing_left == player.is_facing_left,
        spec_run(player, ticks, n).animation_handler.is_playing,
        spec_run(player, ticks, n).animation_handler.min_frame == player.animation_handler.min_frame,
        spec_run(player, ticks, n).animation_handler.max_frame == player.animation_handler.max_frame,
        spec_run(player, ticks, n).animation_handler.current_frame
            == player.animation_handler.current_frame + spec_frames_advanced(player, ticks, n),
        0 <= spec_frames_advanced(player, ticks, n),
    decreases n,
{
    if n > 0 {
        lemma_frames_advanced_grow(player, ticks, n);
        lemma_animation_in_progress(player, ticks, n - 1);
    }
}

/// The count of advanced frames never falls along a run.
pub proof fn lemma_frames_advanced_grow(player: Player, ticks: Seq<Tick>, n: int)
    ensures
        0 <= spec_frames_advanced(player, ticks, n - 1) <= spec_frames_advanced(player, ticks, n),
    decreases n,
{
    if n > 1 {
        lemma_frames_advanced_grow(player, ticks, n - 1);
    }
}

/// A hop ends on its last frame, stopped: in a run that begins with a character
/// that has just entered `Hopping`, the tick that advances the last of the hop's
/// frames leaves the cursor on `max_frame`, clamped and not wrapped, with the
/// animation over; until then the hop plays.
pub proof fn lemma_hop_ends_clamped(player: Player, ticks: Seq<Tick>, n: int)
    requires
        player == spec_change_state(player, PlayerState::Hopping),
        1 <= n <= ticks.len(),
        spec_frames_advanced(player, ticks, n - 1) == spec_frame_count(PlayerState::Hopping) - 1,
        spec_outcome(player, ticks, n).frame_advanced,
    ensures
        spec_run(player, ticks, n - 1).state == PlayerState::Hopping,
        spec_run(player, ticks, n - 1).animation_handler.is_playing,
        spec_run(player, ticks, n).state == PlayerState::Hopping,
        spec_run(player, ticks, n).animation_handler.current_frame == spec_state_frames(
            PlayerState::Hopping,
        ).max_frame,
        !spec_run(player, ticks, n).animation_handler.is_playing,
{
    lemma_frame_table_valid(PlayerState::Hopping);
    lemma_animation_in_progress(player, ticks, n - 1);
}

/// When a hop is over and nothing is buffered, a tick without input takes the
/// character to `Idle`.
pub proof fn lemma_finished_hop_goes_idle(player: Player, elapsed_nanos: u64)
    requires
        player.state == PlayerState::Hopping,
        !player.animation_handler.is_playing,
        player.next_movement == PlayerMovement::Nothing,
    ensures
        spec_step(player, spec_no_input(), elapsed_nanos).state == PlayerState::Idle,
        spec_step(player, spec_no_input(), elapsed_nanos).next_movement == PlayerMovement::Nothing,
{
}

/// From `Crouched`, with the animation over and nothing buffered, a held Right
/// rolls the character to the right; it does not walk. Sprint makes no
/// difference.
pub proof fn lemma_crouched_right_rolls(player: Player, input: InputSnapshot, elapsed_nanos: u64)
    requires
        player.state == PlayerState::Crouched,
        !player.animation_handler.is_playing,
        player.next_movement == PlayerMovement::Nothing,
        input.right.held,
        !input.jump.just_pressed,
    ensures
        spec_step(player, input, elapsed_nanos).state == PlayerState::Rolling,
        !spec_step(player, input, elapsed_nanos).is_facing_left,
{
}

/// From `Crouched`, while the animation plays, a fresh Up is buffered as an
/// uncrouch and the state stays, unless a fresh Jump or Down in the same tick
/// goes first.
pub proof fn lemma_crouched_up_is_buffered(player: Player, input: InputSnapshot, elapsed_nanos: u64)
    requires
        player.state == PlayerState::Crouched,
        player.animation_handler.is_playing,
        input.up.just_pressed,
        !input.jump.just_pressed,
        !input.down.just_pressed,
    ensures
        spec_step(player, input, elapsed_nanos).state == PlayerState::Crouched,
        spec_step(player, input, elapsed_nanos).next_movement == PlayerMovement::Uncrouch,
{
}

/// From `Crouched`, with the animation over and nothing buffered, a fresh Up
/// takes the character to `Uncrouching` at once, unless a direction key held in
/// the same tick or a fresh Jump goes first.
pub proof fn lemma_crouched_up_uncrouches(player: Player, input: InputSnapshot, elapsed_nanos: u64)
    requires
        player.state == PlayerState::Crouched,
        !player.animation_handler.is_playing,
        player.next_movement == PlayerMovement::Nothing,
        input.up.just_pressed,
        !input.right.held,
        !input.left.held,
        !input.down.held,
        !input.jump.just_pressed,
    ensures
        spec_step(player, input, elapsed_nanos).state == PlayerState::Uncrouching,
        spec_step(player, input, elapsed_nanos).animation_handler.min_frame == spec_state_frames(
            PlayerState::Uncrouching,
        ).min_frame,
{
}

} // verus!

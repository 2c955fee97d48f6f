//! The transition rules of the character state machine.
//!
//! Each rule is a function from the current state (and what it needs of the input)
//! to the state it asks for, if any. `input_target` orders them by priority.

use crate::input::InputSnapshot;
use crate::state::{PlayerMovement, PlayerState};
use vstd::prelude::*;

verus! {

/// Where a held direction key takes the character: running or walking from the
/// upright states, rolling from the crouched ones, nowhere from the rest.
pub open spec fn spec_horizontal_target(state: PlayerState, sprint: bool) -> Option<PlayerState> {
    match state {
        PlayerState::Idle | PlayerState::Walking | PlayerState::Hopping | PlayerState::Running => {
            if sprint {
                Some(PlayerState::Running)
            } else {
                Some(PlayerState::Walking)
            }
        },
        PlayerState::Crouched | PlayerState::Rolling => Some(PlayerState::Rolling),
        _ => None,
    }
}

/// Where a held Down takes the character.
pub open spec fn spec_crouch_target(state: PlayerState) -> Option<PlayerState> {
    match state {
        PlayerState::Idle | PlayerState::Crouching => Some(PlayerState::Crouching),
        _ => None,
    }
}

/// Where a fresh press of Up takes the character.
pub open spec fn spec_uncrouch_target(state: PlayerState) -> Option<PlayerState> {
    match state {
        PlayerState::Crouched => Some(PlayerState::Uncrouching),
        _ => None,
    }
}

/// Where a fresh press of Jump takes the character.
pub open spec fn spec_jump_target(state: PlayerState) -> PlayerState {
    match state {
        PlayerState::Running => PlayerState::RunJumping,
        _ => PlayerState::Hopping,
    }
}

/// Where the character settles when no input asks for anything.
pub open spec fn spec_settle_target(state: PlayerState) -> PlayerState {
    match state {
        PlayerState::Crouching | PlayerState::Crouched | PlayerState::Rolling => {
            PlayerState::Crouched
        },
        _ => PlayerState::Idle,
    }
}

/// The state that a buffered request asks for once the animation is over. A
/// buffered crouch is not acted on while the character is still `Crouching`.
pub open spec fn spec_buffered_target(buffered: PlayerMovement, state: PlayerState) -> Option<
    PlayerState,
> {
    match buffered {
        PlayerMovement::Nothing => None,
        PlayerMovement::Hop => Some(PlayerState::Hopping),
        PlayerMovement::RunJump => Some(PlayerState::RunJumping),
        PlayerMovement::Crouch => if state == PlayerState::Crouching {
            None
        } else {
            Some(PlayerState::Crouching)
        },
        PlayerMovement::Uncrouch => Some(PlayerState::Uncrouching),
    }
}

/// The one direction rule that applies in a tick: the first of Right, Left, Down
/// and a fresh Up that the input holds decides, and the rules after it are not
/// asked, also where the state does not accept it.
pub open spec fn spec_direction_target(state: PlayerState, input: InputSnapshot) -> Option<
    PlayerState,
> {
    if input.right.held || input.left.held {
        spec_horizontal_target(state, input.sprint.held)
    } else if input.down.held {
        spec_crouch_target(state)
    } else if input.up.just_pressed {
        spec_uncrouch_target(state)
    } else {
        None
    }
}

/// The state that fresh input asks for: a fresh Jump overrides the direction
/// rule, and with neither the character settles.
pub open spec fn spec_input_target(state: PlayerState, input: InputSnapshot) -> PlayerState {
    if input.jump.just_pressed {
        spec_jump_target(state)
    } else {
        match spec_direction_target(state, input) {
            Some(target) => target,
            None => spec_settle_target(state),
        }
    }
}

/// The facing after fresh input: an accepted Right or Left sets it (Right first),
/// anything else leaves it.
pub open spec fn spec_facing_after(state: PlayerState, facing_left: bool, input: InputSnapshot) -> bool {
    if (input.right.held || input.left.held) && spec_horizontal_target(
        state,
        input.sprint.held,
    ) is Some {
        !input.right.held
    } else {
        facing_left
    }
}

/// The request that a tick puts into the buffer while an animation runs: a fresh
/// Jump first, then a fresh Down, then a fresh Up, which only counts from
/// `Crouched` and `Rolling`.
pub open spec fn spec_buffer_request(state: PlayerState, input: InputSnapshot) -> Option<
    PlayerMovement,
> {
    if input.jump.just_pressed {
        if state == PlayerState::Running {
            Some(PlayerMovement::RunJump)
        } else {
            Some(PlayerMovement::Hop)
        }
    } else if input.down.just_pressed {
        Some(PlayerMovement::Crouch)
    } else if input.up.just_pressed && (state == PlayerState::Crouched || state
        == PlayerState::Rolling) {
        Some(PlayerMovement::Uncrouch)
    } else {
        None
    }
}

/// The buffer after a tick in which an animation runs: a new request overwrites
/// what was there.
pub open spec fn spec_buffer_after(
    state: PlayerState,
    buffered: PlayerMovement,
    input: InputSnapshot,
) -> PlayerMovement {
    match spec_buffer_request(state, input) {
        Some(request) => request,
        None => buffered,
    }
}

/// The horizontal rule.
pub fn horizontal_target(state: PlayerState, sprint: bool) -> (target: Option<PlayerState>)
    ensures
        target == spec_horizontal_target(state, sprint),
{
    match state {
        PlayerState::Idle | PlayerState::Walking | PlayerState::Hopping | PlayerState::Running => {
            if sprint {
                Some(PlayerState::Running)
            } else {
                Some(PlayerState::Walking)
            }
        },
        PlayerState::Crouched | PlayerState::Rolling => Some(PlayerState::Rolling),
        _ => None,
    }
}

/// The crouch rule.
pub fn crouch_target(state: PlayerState) -> (target: Option<PlayerState>)
    ensures
        target == spec_crouch_target(state),
{
    match state {
        PlayerState::Idle | PlayerState::Crouching => Some(PlayerState::Crouching),
        _ => None,
    }
}

/// The uncrouch rule.
pub fn uncrouch_target(state: PlayerState) -> (target: Option<PlayerState>)
    ensures
        target == spec_uncrouch_target(state),
{
    match state {
        PlayerState::Crouched => Some(PlayerState::Uncrouching),
        _ => None,
    }
}

/// The jump rule.
pub fn jump_target(state: PlayerState) -> (target: PlayerState)
    ensures
        target == spec_jump_target(state),
{
    match state {
        PlayerState::Running => PlayerState::RunJumping,
        _ => PlayerState::Hopping,
    }
}

/// The settle rule.
pub fn settle_target(state: PlayerState) -> (target: PlayerState)
    ensures
        target == spec_settle_target(state),
{
    match state {
        PlayerState::Crouching | PlayerState::Crouched | PlayerState::Rolling => {
            PlayerState::Crouched
        },
        _ => PlayerState::Idle,
    }
}

/// The state that a buffered request asks for, if it can be acted on.
pub fn buffered_target(buffered: PlayerMovement, state: PlayerState) -> (target: Option<
    PlayerState,
>)
    ensures
        target == spec_buffered_target(buffered, state),
{
    match buffered {
        PlayerMovement::Nothing => None,
        PlayerMovement::Hop => Some(PlayerState::Hopping),
        PlayerMovement::RunJump => Some(PlayerState::RunJumping),
        PlayerMovement::Crouch => match state {
            PlayerState::Crouching => None,
            _ => Some(PlayerState::Crouching),
        },
        PlayerMovement::Uncrouch => Some(PlayerState::Uncrouching),
    }
}

/// The state that fresh input asks for, going through the rules by priority.
pub fn input_target(state: PlayerState, input: &InputSnapshot) -> (target: PlayerState)
    ensures
        target == spec_input_target(state, *input),
{
    if input.jump.just_pressed {
        return jump_target(state);
    }
    let asked = if input.right.held || input.left.held {
        horizontal_target(state, input.sprint.held)
    } else if input.down.held {
        crouch_target(state)
    } else if input.up.just_pressed {
        uncrouch_target(state)
    } else {
        None
    };
    match asked {
        Some(target) => target,
        None => settle_target(state),
    }
}

/// The facing after fresh input.
pub fn facing_after(state: PlayerState, facing_left: bool, input: &InputSnapshot) -> (facing: bool)
    ensures
        facing == spec_facing_after(state, facing_left, *input),
{
    if !input.right.held && !input.left.held {
        return facing_left;
    }
    match horizontal_target(state, input.sprint.held) {
        Some(_) => !input.right.held,
        None => facing_left,
    }
}

/// The buffer after a tick in which an animation runs.
pub fn buffer_after(state: PlayerState, buffered: PlayerMovement, input: &InputSnapshot) -> (after:
    PlayerMovement)
    ensures
        after == spec_buffer_after(state, buffered, *input),
{
    if input.jump.just_pressed {
        match state {
            PlayerState::Running => PlayerMovement::RunJump,
            _ => PlayerMovement::Hop,
        }
    } else if input.down.just_pressed {
        PlayerMovement::Crouch
    } else if input.up.just_pressed {
        match state {
            PlayerState::Crouched | PlayerState::Rolling => PlayerMovement::Uncrouch,
            _ => buffered,
        }
    } else {
        buffered
    }
}

} // verus!

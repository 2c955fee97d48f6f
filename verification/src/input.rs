//! The input snapshot that the host hands to every tick.

use vstd::prelude::*;

verus! {

/// The logical buttons that the character reacts to.
#[derive(Clone, Copy, Debug, PartialEq, Eq, Hash, Structural)]
pub enum Button {
    Right,
    Left,
    Down,
    Up,
    Jump,
    Sprint,
}

/// One button in one tick.
#[derive(Clone, Copy, Debug, PartialEq, Eq, Structural)]
pub struct ButtonState {
    /// The button is down in this tick.
    pub held: bool,
    /// The button went down in this tick.
    pub just_pressed: bool,
}

/// All buttons in one tick. The simulation only reads it.
#[derive(Clone, Copy, Debug, PartialEq, Eq, Structural)]
pub struct InputSnapshot {
    pub right: ButtonState,
    pub left: ButtonState,
    pub down: ButtonState,
    pub up: ButtonState,
    pub jump: ButtonState,
    pub sprint: ButtonState,
}

/// A button that is up.
pub open spec fn spec_released() -> ButtonState {
    ButtonState { held: false, just_pressed: false }
}

/// The snapshot in which every button is up.
pub open spec fn spec_no_input() -> InputSnapshot {
    InputSnapshot {
        right: spec_released(),
        left: spec_released(),
        down: spec_released(),
        up: spec_released(),
        jump: spec_released(),
        sprint: spec_released(),
    }
}

impl InputSnapshot {
    /// What the snapshot says of one button.
    pub open spec fn spec_button(self, button: Button) -> ButtonState {
        match button {
            Button::Right => self.right,
            Button::Left => self.left,
            Button::Down => self.down,
            Button::Up => self.up,
            Button::Jump => self.jump,
            Button::Sprint => self.sprint,
        }
    }

    /// The snapshot with one button replaced.
    pub open spec fn spec_with(self, button: Button, value: ButtonState) -> InputSnapshot {
        match button {
            Button::Right => InputSnapshot { right: value, ..self },
            Button::Left => InputSnapshot { left: value, ..self },
            Button::Down => InputSnapshot { down: value, ..self },
            Button::Up => InputSnapshot { up: value, ..self },
            Button::Jump => InputSnapshot { jump: value, ..self },
            Button::Sprint => InputSnapshot { sprint: value, ..self },
        }
    }

    /// The snapshot in which every button is up.
    pub fn new() -> (snapshot: InputSnapshot)
        ensures
            snapshot == spec_no_input(),
    {
        let up = ButtonState { held: false, just_pressed: false };
        InputSnapshot { right: up, left: up, down: up, up, jump: up, sprint: up }
    }

    /// Whether `button` is down in this tick.
    pub fn pressed(&self, button: Button) -> (held: bool)
        ensures
            held == self.spec_button(button).held,
    {
        match button {
            Button::Right => self.right.held,
            Button::Left => self.left.held,
            Button::Down => self.down.held,
            Button::Up => self.up.held,
            Button::Jump => self.jump.held,
            Button::Sprint => self.sprint.held,
        }
    }

    /// Whether `button` went down in this tick.
    pub fn just_pressed(&self, button: Button) -> (pressed: bool)
        ensures
            pressed == self.spec_button(button).just_pressed,
    {
        match button {
            Button::Right => self.right.just_pressed,
            Button::Left => self.left.just_pressed,
            Button::Down => self.down.just_pressed,
            Button::Up => self.up.just_pressed,
            Button::Jump => self.jump.just_pressed,
            Button::Sprint => self.sprint.just_pressed,
        }
    }

    /// The snapshot with `button` set as the host observed it; the other buttons
    /// stay as they are.
    pub fn with(self, button: Button, held: bool, just_pressed: bool) -> (snapshot: InputSnapshot)
        ensures
            snapshot == self.spec_with(button, ButtonState { held, just_pressed }),
    {
        let value = ButtonState { held, just_pressed };
        let mut snapshot = self;
        match button {
            Button::Right => {
                snapshot.right = value;
            },
            Button::Left => {
                snapshot.left = value;
            },
            Button::Down => {
                snapshot.down = value;
            },
            Button::Up => {
                snapshot.up = value;
            },
            Button::Jump => {
                snapshot.jump = value;
            },
            Button::Sprint => {
                snapshot.sprint = value;
            },
        }
        snapshot
    }
}

} // verus!

//! Character control for a 2D side-scrolling platformer.
//!
//! Raw input becomes a sequence of character states, the states drive an
//! animation cursor, and the frames of the animation move the character. The
//! host calls [`player::step`] once per frame with an input snapshot, the time
//! since the last call, and whether it knows the width of the viewport.

pub mod animation;
pub mod clock;
pub mod error;
pub mod input;
pub mod laws;
pub mod movement;
pub mod player;
pub mod rules;
pub mod simulation;
pub mod state;

//! Error kinds reported by the simulation.

use vstd::prelude::*;

verus! {

/// What can go wrong while building or stepping a character.
#[derive(Clone, Copy, Debug, PartialEq, Eq, Structural)]
pub enum PlayerError {
    /// A frame range was requested for a state that the frame table does not hold.
    ///
    /// The set of states is closed and the table covers all of it, so no function of
    /// this crate returns this kind; it exists for hosts that report every failure
    /// through one type.
    UnknownStateLookup,
    /// A frame that moves the character horizontally advanced while no viewport
    /// width was known. The tick still applies, with a horizontal step of zero.
    MissingViewportMetrics,
    /// Frame bounds that no animation can have: `min_frame > max_frame`, a current
    /// frame outside the bounds, or a `max_frame` with no index after it.
    InvalidFrameBounds,
}

} // verus!

//! The rectangles the simulation moves: the player's body and the platforms.
use crate::scale::bounded;
use vstd::prelude::*;

verus! {

/// A moving axis-aligned rectangle given by its centre and size, with a
/// vertical velocity in milli-units per second.
#[derive(Clone, Copy, Debug, PartialEq, Eq, Structural)]
pub struct Body {
    pub x: i64,
    pub y: i64,
    pub width: i64,
    pub height: i64,
    pub velocity_y: i64,
}

impl Body {
    /// Every field within the simulation's bounds, sizes not negative.
    pub open spec fn wf(self) -> bool {
        &&& bounded(self.x as int)
        &&& bounded(self.y as int)
        &&& bounded(self.velocity_y as int)
        &&& 0 <= self.width <= crate::scale::MAX_SIZE
        &&& 0 <= self.height <= crate::scale::MAX_SIZE
    }

    /// Within the looser bounds in which collisions can be computed: a body
    /// just moved by the integrator may lie beyond `wf`'s coordinate bound.
    pub open spec fn collidable(self) -> bool {
        &&& bounded(self.x as int)
        &&& -MAX_REACH <= self.y <= MAX_REACH
        &&& 0 <= self.width <= crate::scale::MAX_SIZE
        &&& 0 <= self.height <= crate::scale::MAX_SIZE
    }
}

/// Largest vertical coordinate a body may reach between integration and
/// collision, in milli-units.
pub const MAX_REACH: i64 = 0x1000_0000_0000_0000;

/// A platform: a rectangle with no velocity of its own, moved only by the
/// global scroll.
#[derive(Clone, Copy, Debug, PartialEq, Eq, Structural)]
pub struct Platform {
    pub x: i64,
    pub y: i64,
    pub width: i64,
    pub height: i64,
}

impl Platform {
    pub open spec fn wf(self) -> bool {
        &&& bounded(self.x as int)
        &&& bounded(self.y as int)
        &&& 0 <= self.width <= crate::scale::MAX_SIZE
        &&& 0 <= self.height <= crate::scale::MAX_SIZE
    }
}

} // verus!

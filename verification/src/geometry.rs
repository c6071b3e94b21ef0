//! Points and directions of the plane.

use vstd::prelude::*;
use crate::units::DIRECTION_ONE;

verus! {

/// A vector of the plane with unbounded integer coordinates: the
/// mathematical value of a [`Position`] or a [`Direction`].
pub struct Offset {
    pub x: int,
    pub y: int,
}

impl Offset {
    /// Componentwise sum.
    pub open spec fn plus(self, other: Offset) -> Offset {
        Offset { x: self.x + other.x, y: self.y + other.y }
    }

    /// The vector stretched by the factor `k`.
    pub open spec fn times(self, k: int) -> Offset {
        Offset { x: self.x * k, y: self.y * k }
    }

    /// Both coordinates can be stored in a [`Position`].
    pub open spec fn fits(self) -> bool {
        &&& i64::MIN <= self.x <= i64::MAX
        &&& i64::MIN <= self.y <= i64::MAX
    }
}

/// A point of the world, in position steps.
#[derive(Clone, Copy, Debug, PartialEq, Eq, Structural)]
pub struct Position {
    pub x: i64,
    pub y: i64,
}

impl View for Position {
    type V = Offset;

    open spec fn view(&self) -> Offset {
        Offset { x: self.x as int, y: self.y as int }
    }
}

/// A direction of the plane, in direction steps. The host that owns the
/// entity supplies it; a vector of length one has
/// `x * x + y * y` close to `DIRECTION_ONE * DIRECTION_ONE`.
#[derive(Clone, Copy, Debug, PartialEq, Eq, Structural)]
pub struct Direction {
    pub x: i32,
    pub y: i32,
}

impl View for Direction {
    type V = Offset;

    open spec fn view(&self) -> Offset {
        Offset { x: self.x as int, y: self.y as int }
    }
}

impl Direction {
    /// The direction an entity faces at heading zero: straight up the
    /// screen.
    pub fn up() -> (up: Direction)
        ensures
            up@ == (Offset { x: 0, y: DIRECTION_ONE as int }),
    {
        Direction { x: 0, y: DIRECTION_ONE }
    }
}

} // verus!

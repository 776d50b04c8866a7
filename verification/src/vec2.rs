//! Plain two-component vector used for positions (in sub-units) and
//! velocities (in pixels per second), with its mathematical view.

use vstd::prelude::*;

verus! {

/// A point or vector in the playfield plane.
#[derive(Clone, Copy, Debug, PartialEq, Eq, Structural)]
pub struct Vec2 {
    pub x: i64,
    pub y: i64,
}

/// Mathematical view of a `Vec2`: the same two components as unbounded
/// integers.
pub ghost struct Vec2Model {
    pub x: int,
    pub y: int,
}

impl View for Vec2 {
    type V = Vec2Model;

    open spec fn view(&self) -> Vec2Model {
        Vec2Model { x: self.x as int, y: self.y as int }
    }
}

impl Vec2 {
    /// Builds the vector `(x, y)`.
    pub fn new(x: i64, y: i64) -> (v: Vec2)
        ensures
            v@ == (Vec2Model { x: x as int, y: y as int }),
    {
        Vec2 { x, y }
    }
}

} // verus!

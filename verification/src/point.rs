//! Pairs of coordinates, used for positions and for velocities.

use vstd::prelude::*;

verus! {

/// A position in units, or a velocity in units per second. The `y` axis
/// points down the screen.
#[derive(Clone, Copy, Debug, PartialEq, Eq, Structural)]
pub struct Point {
    pub x: i64,
    pub y: i64,
}

/// The mathematical pair that a [`Point`] stands for.
pub ghost struct Vec2 {
    pub x: int,
    pub y: int,
}

impl View for Point {
    type V = Vec2;

    open spec fn view(&self) -> Vec2 {
        Vec2 { x: self.x as int, y: self.y as int }
    }
}

} // verus!

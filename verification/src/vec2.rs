//! The 2D vector primitive. Components are fixed-point milli-pixels
//! (see [`crate::math::SCALE`]), stored as `i64`.

use vstd::prelude::*;

verus! {

/// A 2D vector in fixed-point world units.
#[derive(Clone, Copy, Debug, PartialEq, Eq, Structural)]
pub struct Vector2D {
    pub x: i64,
    pub y: i64,
}

impl Vector2D {
    /// The zero vector.
    pub fn def() -> (v: Vector2D)
        ensures
            v.x == 0,
            v.y == 0,
    {
        Vector2D { x: 0, y: 0 }
    }

    /// A vector with the given components.
    pub fn new(x: i64, y: i64) -> (v: Vector2D)
        ensures
            v.x == x,
            v.y == y,
    {
        Vector2D { x, y }
    }
}

/// The zero vector, as a spec value.
pub open spec fn vec2_zero() -> Vector2D {
    Vector2D { x: 0, y: 0 }
}

} // verus!

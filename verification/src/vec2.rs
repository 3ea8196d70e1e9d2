//! Plane vectors in fixed-point milli-units.

use vstd::prelude::*;

verus! {

/// A 2D vector with exact integer components, scaled by 1000
/// (so `Vec2i { x: 1000, y: 0 }` is the unit vector along x).
#[derive(Clone, Copy, PartialEq, Eq, Structural, Debug)]
pub struct Vec2i {
    pub x: i64,
    pub y: i64,
}

impl Vec2i {
    /// The zero vector.
    pub fn zero() -> (r: Vec2i)
        ensures
            r == (Vec2i { x: 0, y: 0 }),
    {
        Vec2i { x: 0, y: 0 }
    }
}

} // verus!

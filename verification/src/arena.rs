//! Toroidal boundary enforcement: entities leaving the rectangular
//! arena reappear exactly at the opposite edge.

use vstd::prelude::*;

use crate::params::ARENA_HALF_HEIGHT_MILLI;
use crate::params::ARENA_HALF_WIDTH_MILLI;
use crate::vec2::Vec2i;

verus! {

/// One coordinate after wraparound: strictly past an edge teleports to
/// the opposite edge; a coordinate on or within the bounds is kept.
pub open spec fn wrap_coord(v: i64, half: i64) -> i64 {
    if v < -half {
        half
    } else if v > half {
        (-half) as i64
    } else {
        v
    }
}

/// A position after wraparound, each axis treated independently.
pub open spec fn wrap_pos(p: Vec2i) -> Vec2i {
    Vec2i {
        x: wrap_coord(p.x, ARENA_HALF_WIDTH_MILLI),
        y: wrap_coord(p.y, ARENA_HALF_HEIGHT_MILLI),
    }
}

/// Wraps one entity position back into the arena. The teleport is
/// exact: an entity past the right edge reappears at the left edge
/// itself, not clamped to the right one.
pub fn wrap_position(p: Vec2i) -> (r: Vec2i)
    ensures
        r == wrap_pos(p),
        -ARENA_HALF_WIDTH_MILLI <= r.x <= ARENA_HALF_WIDTH_MILLI,
        -ARENA_HALF_HEIGHT_MILLI <= r.y <= ARENA_HALF_HEIGHT_MILLI,
{
    let x = if p.x < -ARENA_HALF_WIDTH_MILLI {
        ARENA_HALF_WIDTH_MILLI
    } else if p.x > ARENA_HALF_WIDTH_MILLI {
        -ARENA_HALF_WIDTH_MILLI
    } else {
        p.x
    };
    let y = if p.y < -ARENA_HALF_HEIGHT_MILLI {
        ARENA_HALF_HEIGHT_MILLI
    } else if p.y > ARENA_HALF_HEIGHT_MILLI {
        -ARENA_HALF_HEIGHT_MILLI
    } else {
        p.y
    };
    Vec2i { x, y }
}

/// Runs the wraparound over every entity position of the tick, in place.
pub fn wraparound(positions: &mut Vec<Vec2i>)
    ensures
        final(positions)@.len() == old(positions)@.len(),
        forall|i: int|
            0 <= i < old(positions)@.len()
                ==> final(positions)@[i] == wrap_pos(old(positions)@[i]),
        forall|i: int| #![trigger final(positions)@[i]]
            0 <= i < final(positions)@.len() ==> -ARENA_HALF_WIDTH_MILLI
                <= final(positions)@[i].x <= ARENA_HALF_WIDTH_MILLI
                && -ARENA_HALF_HEIGHT_MILLI <= final(positions)@[i].y <= ARENA_HALF_HEIGHT_MILLI,
{
    let n = positions.len();
    let mut i: usize = 0;
    while i < n
        invariant
            n == positions@.len(),
            i <= n,
            positions@.len() == old(positions)@.len(),
            forall|k: int| 0 <= k < i ==> positions@[k] == wrap_pos(old(positions)@[k]),
            forall|k: int| i <= k < n ==> positions@[k] == old(positions)@[k],
        decreases n - i,
    {
        let wrapped = wrap_position(positions[i]);
        positions[i] = wrapped;
        i += 1;
    }
}

} // verus!

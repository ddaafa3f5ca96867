//! Integer grid geometry: positions, coordinate bounds, and the distance
//! covered by a speed over an elapsed time.

use vstd::prelude::*;
use vstd::arithmetic::mul::lemma_mul_upper_bound;
use vstd::arithmetic::div_mod::lemma_div_is_ordered;
use vstd::arithmetic::div_mod::lemma_div_pos_is_pos;

verus! {

/// Largest coordinate magnitude the simulation accepts.  The bound exists
/// only so that one more displacement can never overflow an `i64`; at the
/// speeds the game uses it would take decades of play to approach it.
pub const COORD_LIMIT: i64 = 1_000_000_000_000;

/// Upper bound on a single displacement: `u16::MAX * u32::MAX / 1000`,
/// rounded up to a round number.
pub const STEP_LIMIT: i64 = 300_000_000_000;

/// A point (or translation) on the integer grid.  The secondary axis `y`
/// grows upward and the primary axis `x` grows rightward.
#[derive(Clone, Copy, PartialEq, Eq, Structural, Debug)]
pub struct Vec2i {
    pub x: i64,
    pub y: i64,
}

/// Mathematical image of a `Vec2i`: the same point with unbounded
/// integer coordinates.
pub ghost struct PointV {
    pub x: int,
    pub y: int,
}

impl View for Vec2i {
    type V = PointV;

    open spec fn view(&self) -> PointV {
        PointV { x: self.x as int, y: self.y as int }
    }
}

/// Both coordinates lie within `COORD_LIMIT`.
pub open spec fn in_bounds(p: PointV) -> bool {
    &&& -COORD_LIMIT <= p.x <= COORD_LIMIT
    &&& -COORD_LIMIT <= p.y <= COORD_LIMIT
}

/// Distance covered in `dt_ms` milliseconds at `speed` units per second.
/// The division truncates: the fractional part of a displacement is
/// discarded, consistently on every tick.
pub open spec fn scaled_step(speed: u16, dt_ms: u32) -> int {
    (speed * dt_ms) / 1000
}

/// Computes `scaled_step` on machine integers.
pub fn step_distance(speed: u16, dt_ms: u32) -> (d: i64)
    ensures
        d == scaled_step(speed, dt_ms),
        0 <= d <= STEP_LIMIT,
{
    proof {
        lemma_mul_upper_bound(speed as int, u16::MAX as int, dt_ms as int, u32::MAX as int);
        lemma_div_is_ordered(speed * dt_ms, u16::MAX as int * u32::MAX as int, 1000);
        lemma_div_pos_is_pos(speed * dt_ms, 1000);
    }
    (((speed as u64) * (dt_ms as u64)) / 1000) as i64
}

} // verus!

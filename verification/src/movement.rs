//! Movement resolution: the facing chosen from the directional keys pressed
//! this tick, the move/no-move flag from the keys currently held, and the
//! displacement the player actor takes from both.

use vstd::prelude::*;
use crate::geometry::{Vec2i, PointV, in_bounds, scaled_step, step_distance};

verus! {

/// The cardinal direction the player last chose to face.
#[derive(Clone, Copy, PartialEq, Eq, Structural, Debug)]
pub enum Facing {
    Up,
    Left,
    Down,
    Right,
}

impl Default for Facing {
    /// A fresh actor faces up until a directional key is pressed.
    fn default() -> (r: Self)
        ensures
            r == Facing::Up,
    {
        Facing::Up
    }
}

/// The per-tick outcome of input resolution: which way the player faces and
/// whether the player should move this tick.  Recomputed every tick; only
/// `facing` persists when no key is involved.
#[derive(Clone, Copy, PartialEq, Eq, Structural, Debug)]
pub struct MovementIntent {
    pub facing: Facing,
    pub should_move: bool,
}

impl Default for MovementIntent {
    fn default() -> (r: Self)
        ensures
            r == (MovementIntent { facing: Facing::Up, should_move: false }),
    {
        MovementIntent { facing: Facing::Up, should_move: false }
    }
}

/// The intent after one tick of input: the facing is overwritten by each
/// "just pressed" direction in the order the input source reports them, so
/// the last press wins; the move flag simply mirrors whether any directional
/// key is currently held.
pub open spec fn resolved_intent(prev: MovementIntent, presses: Seq<Facing>, held: bool) -> MovementIntent {
    MovementIntent {
        facing: if presses.len() == 0 { prev.facing } else { presses.last() },
        should_move: held,
    }
}

/// Overwrites `intent` from this tick's sampled input: `presses` holds the
/// directions reported "just pressed" in source order, `held` whether any
/// directional key is currently held.
pub fn resolve_intent(intent: &mut MovementIntent, presses: &Vec<Facing>, held: bool)
    ensures
        *final(intent) == resolved_intent(*old(intent), presses@, held),
{
    let mut i: usize = 0;
    while i < presses.len()
        invariant
            0 <= i <= presses@.len(),
            intent.facing == resolved_intent(*old(intent), presses@.take(i as int), intent.should_move).facing,
            intent.should_move == old(intent).should_move,
        decreases presses@.len() - i,
    {
        intent.facing = presses[i];
        proof {
            assert(presses@.take(i + 1 as int).last() == presses@[i as int]);
        }
        i = i + 1;
    }
    proof {
        assert(presses@.take(presses@.len() as int) == presses@);
    }
    intent.should_move = held;
}

/// The facing law: after input resolution the facing equals the last
/// direction reported "just pressed" this tick (or the old facing when none
/// was), and the move flag equals "any directional key held", independent of
/// the facing history.
pub proof fn lemma_intent_follows_input(prev: MovementIntent, presses: Seq<Facing>, held: bool)
    ensures
        presses.len() > 0 ==> resolved_intent(prev, presses, held).facing == presses.last(),
        presses.len() == 0 ==> resolved_intent(prev, presses, held).facing == prev.facing,
        resolved_intent(prev, presses, held).should_move == held,
{
}

/// Where a point ends up on the primary axis after moving distance `d`
/// while facing `f`: right is positive, left negative.
pub open spec fn moved_x(p: PointV, f: Facing, d: int) -> int {
    match f {
        Facing::Left => p.x - d,
        Facing::Right => p.x + d,
        Facing::Up | Facing::Down => p.x,
    }
}

/// Where a point ends up on the secondary axis after moving distance `d`
/// while facing `f`: up is positive, down negative.
pub open spec fn moved_y(p: PointV, f: Facing, d: int) -> int {
    match f {
        Facing::Up => p.y + d,
        Facing::Down => p.y - d,
        Facing::Left | Facing::Right => p.y,
    }
}

/// The position after one tick of movement: displaced along the facing axis
/// by `scaled_step(speed, dt_ms)` when the intent says to move, unchanged
/// otherwise.
pub open spec fn stepped_point(p: PointV, m: MovementIntent, speed: u16, dt_ms: u32) -> PointV {
    if m.should_move {
        PointV {
            x: moved_x(p, m.facing, scaled_step(speed, dt_ms)),
            y: moved_y(p, m.facing, scaled_step(speed, dt_ms)),
        }
    } else {
        p
    }
}

/// Applies one tick of movement to `pos` at `speed` units per second over
/// `dt_ms` milliseconds of elapsed time.
pub fn apply_movement(pos: &mut Vec2i, m: &MovementIntent, speed: u16, dt_ms: u32)
    requires
        in_bounds(old(pos)@),
    ensures
        final(pos)@ == stepped_point(old(pos)@, *m, speed, dt_ms),
{
    if m.should_move {
        let d = step_distance(speed, dt_ms);
        match m.facing {
            Facing::Up => pos.y = pos.y + d,
            Facing::Down => pos.y = pos.y - d,
            Facing::Left => pos.x = pos.x - d,
            Facing::Right => pos.x = pos.x + d,
        }
    }
}

} // verus!

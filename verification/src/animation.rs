//! The walk-cycle animation state machine: a frame range per facing, a
//! repeating frame timer, and frame advance gated on movement.

use vstd::prelude::*;
use crate::movement::Facing;

verus! {

/// A contiguous range of sprite-sheet indices holding one directional walk
/// cycle.
#[derive(Clone, Copy, PartialEq, Eq, Structural, Debug)]
pub struct FrameRange {
    pub first: usize,
    pub last: usize,
}

/// A range is valid when it is non-empty in the weak sense: the first frame
/// does not come after the last.
pub open spec fn range_wf(r: FrameRange) -> bool {
    r.first <= r.last
}

/// The frame range for each facing on one sprite sheet, fixed at
/// configuration time.  The table is total by construction, so a missing
/// entry cannot arise at runtime; `table_wf` is the startup validation that
/// each range is well-formed.
#[derive(Clone, Copy, PartialEq, Eq, Structural, Debug)]
pub struct FacingFrameTable {
    pub up: FrameRange,
    pub down: FrameRange,
    pub left: FrameRange,
    pub right: FrameRange,
}

pub open spec fn table_wf(t: FacingFrameTable) -> bool {
    &&& range_wf(t.up)
    &&& range_wf(t.down)
    &&& range_wf(t.left)
    &&& range_wf(t.right)
}

/// The range the table assigns to a facing.
pub open spec fn range_for(t: FacingFrameTable, f: Facing) -> FrameRange {
    match f {
        Facing::Up => t.up,
        Facing::Down => t.down,
        Facing::Left => t.left,
        Facing::Right => t.right,
    }
}

/// Looks a facing up in the table.
pub fn lookup_range(t: &FacingFrameTable, f: Facing) -> (r: FrameRange)
    ensures
        r == range_for(*t, f),
{
    match f {
        Facing::Up => t.up,
        Facing::Down => t.down,
        Facing::Left => t.left,
        Facing::Right => t.right,
    }
}

/// Validates a table at startup: every facing must map to a well-formed
/// range.  A configuration that fails here must be rejected before the game
/// loop starts; no per-tick check exists.
pub fn validate_table(t: &FacingFrameTable) -> (ok: bool)
    ensures
        ok == table_wf(*t),
{
    t.up.first <= t.up.last && t.down.first <= t.down.last && t.left.first <= t.left.last
        && t.right.first <= t.right.last
}

/// The frame table of the character sprite sheet the game ships with.
pub fn character_frame_table() -> (t: FacingFrameTable)
    ensures
        t == (FacingFrameTable {
            up: FrameRange { first: 56, last: 57 },
            down: FrameRange { first: 53, last: 54 },
            left: FrameRange { first: 82, last: 83 },
            right: FrameRange { first: 79, last: 80 },
        }),
        table_wf(t),
{
    FacingFrameTable {
        up: FrameRange { first: 56, last: 57 },
        down: FrameRange { first: 53, last: 54 },
        left: FrameRange { first: 82, last: 83 },
        right: FrameRange { first: 79, last: 80 },
    }
}

/// Animation state of one entity: its current frame range, the current
/// frame, and a repeating timer that fires every `period_ms` milliseconds.
#[derive(Clone, Copy, PartialEq, Eq, Structural, Debug)]
pub struct AnimState {
    pub first: usize,
    pub last: usize,
    pub current: usize,
    pub elapsed_ms: u32,
    pub period_ms: u32,
}

/// The animation invariant: the current frame stays inside the range and the
/// timer accumulator stays below the (positive) period.
pub open spec fn anim_wf(a: AnimState) -> bool {
    &&& a.first <= a.current <= a.last
    &&& 0 < a.period_ms
    &&& a.elapsed_ms < a.period_ms
}

/// The next frame in the cycle: one step forward, wrapping to `first` once
/// the current frame would pass `last`.
pub open spec fn advanced_frame(first: usize, last: usize, current: usize) -> usize {
    if current >= last {
        first
    } else {
        (current + 1) as usize
    }
}

/// One animation tick: the timer always accumulates `dt_ms`; when it reaches
/// the period it fires and keeps the remainder (the carry is the accumulated
/// time modulo the period, a documented rounding choice), and the frame
/// advances exactly once per firing tick -- and only while moving.  When the
/// subject does not move the timer still accumulates and resets, but the
/// frame stays put.
pub open spec fn ticked_anim(a: AnimState, moving: bool, dt_ms: u32) -> AnimState {
    if a.elapsed_ms + dt_ms >= a.period_ms {
        AnimState {
            first: a.first,
            last: a.last,
            current: if moving {
                advanced_frame(a.first, a.last, a.current)
            } else {
                a.current
            },
            elapsed_ms: ((a.elapsed_ms + dt_ms) % (a.period_ms as int)) as u32,
            period_ms: a.period_ms,
        }
    } else {
        AnimState {
            first: a.first,
            last: a.last,
            current: a.current,
            elapsed_ms: (a.elapsed_ms + dt_ms) as u32,
            period_ms: a.period_ms,
        }
    }
}

/// Advances one entity's animation by `dt_ms` milliseconds of elapsed time.
pub fn tick_anim(a: &mut AnimState, moving: bool, dt_ms: u32)
    requires
        anim_wf(*old(a)),
    ensures
        *final(a) == ticked_anim(*old(a), moving, dt_ms),
        anim_wf(*final(a)),
{
    let total: u64 = a.elapsed_ms as u64 + dt_ms as u64;
    if total >= a.period_ms as u64 {
        a.elapsed_ms = (total % (a.period_ms as u64)) as u32;
        if moving {
            a.current = if a.current >= a.last {
                a.first
            } else {
                a.current + 1
            };
        }
    } else {
        a.elapsed_ms = total as u32;
    }
}

/// Re-targets an animation to a new frame range, resetting the current frame
/// to the range's first frame immediately, whether or not the subject moves.
/// The timer is not disturbed.
pub open spec fn retargeted_anim(a: AnimState, r: FrameRange) -> AnimState {
    AnimState {
        first: r.first,
        last: r.last,
        current: r.first,
        elapsed_ms: a.elapsed_ms,
        period_ms: a.period_ms,
    }
}

/// Points the animation at the walk cycle of a new facing.
pub fn retarget_anim(a: &mut AnimState, r: &FrameRange)
    ensures
        *final(a) == retargeted_anim(*old(a), *r),
{
    a.first = r.first;
    a.last = r.last;
    a.current = r.first;
}

/// The frame-wrap law: a tick never carries the frame past `last`, the
/// invariant is preserved, and whenever the timer fires while the subject
/// moves and stands on the range's last frame, the next frame is exactly the
/// range's first frame.
pub proof fn lemma_frame_wrap(a: AnimState, moving: bool, dt_ms: u32)
    requires
        anim_wf(a),
    ensures
        anim_wf(ticked_anim(a, moving, dt_ms)),
        ticked_anim(a, moving, dt_ms).current <= a.last,
        (moving && a.current == a.last && a.elapsed_ms + dt_ms >= a.period_ms) ==> ticked_anim(
            a,
            moving,
            dt_ms,
        ).current == a.first,
{
}

} // verus!

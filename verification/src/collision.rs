//! Push-collision resolution: classifying the contact between the player's
//! bounding box and a pushable box, displacing the box away from the player,
//! and suppressing the player's movement for the tick.

use vstd::prelude::*;
use vstd::math::abs;
use crate::geometry::{Vec2i, PointV, in_bounds, scaled_step, step_distance, STEP_LIMIT, COORD_LIMIT};
use crate::movement::MovementIntent;

verus! {

/// Largest half-extent a bounding box may have.  Keeps penetration-depth
/// arithmetic far from the `i64` range.
pub const EXTENT_LIMIT: i64 = 1_000_000_000;

/// Where a box touches the player, named from the player's point of view:
/// `Right` means the box sits to the player's right along the contact axis,
/// `Top` that it sits above.  `Inside` is the tolerated degenerate state
/// where the player's center lies within the box's bounds on both axes.
#[derive(Clone, Copy, PartialEq, Eq, Structural, Debug)]
pub enum ContactSide {
    Left,
    Right,
    Top,
    Bottom,
    Inside,
}

/// A pushable box: an axis-aligned square around `pos`.
#[derive(Clone, Copy, PartialEq, Eq, Structural, Debug)]
pub struct PushBox {
    pub pos: Vec2i,
    pub half_extent: i64,
}

/// Mathematical image of a `PushBox`.
pub ghost struct PushBoxV {
    pub pos: PointV,
    pub half_extent: int,
}

impl View for PushBox {
    type V = PushBoxV;

    open spec fn view(&self) -> PushBoxV {
        PushBoxV { pos: self.pos@, half_extent: self.half_extent as int }
    }
}

/// A box is valid when its center is on the grid and its half-extent is a
/// positive length within `EXTENT_LIMIT`.
pub open spec fn box_wf(b: PushBoxV) -> bool {
    &&& in_bounds(b.pos)
    &&& 0 < b.half_extent <= EXTENT_LIMIT
}

/// Two axis-aligned squares overlap when they interpenetrate strictly on
/// both axes; mere edge contact is no overlap.
pub open spec fn overlapping(p: PointV, ph: int, b: PointV, bh: int) -> bool {
    &&& abs(p.x - b.x) < ph + bh
    &&& abs(p.y - b.y) < ph + bh
}

/// Penetration depth along the horizontal axis (positive iff the squares
/// interpenetrate on that axis).
pub open spec fn x_penetration(p: PointV, ph: int, b: PointV, bh: int) -> int {
    ph + bh - abs(p.x - b.x)
}

/// Penetration depth along the vertical axis.
pub open spec fn y_penetration(p: PointV, ph: int, b: PointV, bh: int) -> int {
    ph + bh - abs(p.y - b.y)
}

/// The player's center lies within the box's bounds on both axes.
pub open spec fn center_inside(p: PointV, b: PointV, bh: int) -> bool {
    &&& abs(p.x - b.x) < bh
    &&& abs(p.y - b.y) < bh
}

/// Contact classification between the player's square (center `p`,
/// half-extent `ph`) and a box's square (center `b`, half-extent `bh`):
/// `None` without overlap; `Inside` when the player's center is within the
/// box's bounds; otherwise the side of the smaller-penetration axis, taken
/// from the sign of the box's offset from the player.  When the two
/// penetration depths are exactly equal the horizontal axis is chosen, a
/// deterministic tie-break.
pub open spec fn classified_contact(p: PointV, ph: int, b: PointV, bh: int) -> Option<ContactSide> {
    if !overlapping(p, ph, b, bh) {
        None
    } else if center_inside(p, b, bh) {
        Some(ContactSide::Inside)
    } else if x_penetration(p, ph, b, bh) <= y_penetration(p, ph, b, bh) {
        if b.x >= p.x {
            Some(ContactSide::Right)
        } else {
            Some(ContactSide::Left)
        }
    } else {
        if b.y >= p.y {
            Some(ContactSide::Top)
        } else {
            Some(ContactSide::Bottom)
        }
    }
}

/// Absolute difference of two in-range coordinates.
fn abs_diff(a: i64, b: i64) -> (r: i64)
    requires
        -COORD_LIMIT <= a <= COORD_LIMIT,
        -COORD_LIMIT <= b <= COORD_LIMIT,
    ensures
        r == abs(a - b),
{
    if a >= b {
        a - b
    } else {
        b - a
    }
}

/// Classifies the contact between the player and one box.
pub fn classify_contact(p: &Vec2i, ph: i64, b: &Vec2i, bh: i64) -> (r: Option<ContactSide>)
    requires
        in_bounds(p@),
        in_bounds(b@),
        0 < ph <= EXTENT_LIMIT,
        0 < bh <= EXTENT_LIMIT,
    ensures
        r == classified_contact(p@, ph as int, b@, bh as int),
{
    let dx = abs_diff(p.x, b.x);
    let dy = abs_diff(p.y, b.y);
    if !(dx < ph + bh && dy < ph + bh) {
        None
    } else if dx < bh && dy < bh {
        Some(ContactSide::Inside)
    } else if ph + bh - dx <= ph + bh - dy {
        if b.x >= p.x {
            Some(ContactSide::Right)
        } else {
            Some(ContactSide::Left)
        }
    } else {
        if b.y >= p.y {
            Some(ContactSide::Top)
        } else {
            Some(ContactSide::Bottom)
        }
    }
}

/// Whether a classification suppresses the player's movement this tick:
/// every real side contact does, the degenerate `Inside` state and the
/// absence of overlap do not.
pub open spec fn contact_suppresses(c: Option<ContactSide>) -> bool {
    match c {
        None => false,
        Some(ContactSide::Inside) => false,
        Some(_) => true,
    }
}

/// The box after one resolution step against contact `c`: displaced by `d`
/// away from the player along the contact axis, untouched otherwise.
pub open spec fn pushed_box(bx: PushBoxV, c: Option<ContactSide>, d: int) -> PushBoxV {
    match c {
        Some(ContactSide::Right) => PushBoxV { pos: PointV { x: bx.pos.x + d, y: bx.pos.y }, half_extent: bx.half_extent },
        Some(ContactSide::Left) => PushBoxV { pos: PointV { x: bx.pos.x - d, y: bx.pos.y }, half_extent: bx.half_extent },
        Some(ContactSide::Top) => PushBoxV { pos: PointV { x: bx.pos.x, y: bx.pos.y + d }, half_extent: bx.half_extent },
        Some(ContactSide::Bottom) => PushBoxV { pos: PointV { x: bx.pos.x, y: bx.pos.y - d }, half_extent: bx.half_extent },
        Some(ContactSide::Inside) => bx,
        None => bx,
    }
}

/// Mathematical image of a vector of boxes.
pub open spec fn boxes_view(s: Seq<PushBox>) -> Seq<PushBoxV> {
    s.map_values(|b: PushBox| b@)
}

/// Every box resolved independently against the same player square, each
/// displaced by the same distance `d` when its contact asks for it.
pub open spec fn resolved_boxes(boxes: Seq<PushBoxV>, p: PointV, ph: int, d: int) -> Seq<PushBoxV> {
    Seq::new(boxes.len(), |i: int| pushed_box(boxes[i], classified_contact(p, ph, boxes[i].pos, boxes[i].half_extent), d))
}

/// Some box makes side contact with the player, so movement is suppressed.
pub open spec fn any_suppression(boxes: Seq<PushBoxV>, p: PointV, ph: int) -> bool {
    exists|i: int|
        0 <= i < boxes.len() && contact_suppresses(
            #[trigger] classified_contact(p, ph, boxes[i].pos, boxes[i].half_extent),
        )
}

/// Resolves every box against the player for this tick: each overlapping box
/// is displaced away from the player by `scaled_step(push_speed, dt_ms)`
/// along its contact axis, and any side contact forces `should_move` off for
/// the tick.  Boxes are processed in ascending index order, independently of
/// one another; the facing is never touched.  A pushed box slides wherever
/// the push takes it -- no level-bounds clamp is applied, deliberately.
pub fn resolve_pushes(
    player_pos: &Vec2i,
    player_half: i64,
    boxes: &mut Vec<PushBox>,
    intent: &mut MovementIntent,
    push_speed: u16,
    dt_ms: u32,
)
    requires
        in_bounds(player_pos@),
        0 < player_half <= EXTENT_LIMIT,
        forall|i: int| 0 <= i < boxes_view(old(boxes)@).len() ==> box_wf(#[trigger] boxes_view(old(boxes)@)[i]),
    ensures
        boxes_view(final(boxes)@) == resolved_boxes(
            boxes_view(old(boxes)@),
            player_pos@,
            player_half as int,
            scaled_step(push_speed, dt_ms),
        ),
        final(intent).facing == old(intent).facing,
        final(intent).should_move == (old(intent).should_move && !any_suppression(
            boxes_view(old(boxes)@),
            player_pos@,
            player_half as int,
        )),
{
    let ghost orig = boxes_view(old(boxes)@);
    let ghost pv = player_pos@;
    let ghost phv = player_half as int;
    let ghost dv = scaled_step(push_speed, dt_ms);
    let d = step_distance(push_speed, dt_ms);
    let mut i: usize = 0;
    while i < boxes.len()
        invariant
            0 <= i <= boxes@.len(),
            boxes@.len() == orig.len(),
            in_bounds(pv),
            0 < phv <= EXTENT_LIMIT,
            0 <= d <= STEP_LIMIT,
            d == dv,
            player_pos@ == pv,
            player_half as int == phv,
            forall|j: int| 0 <= j < orig.len() ==> box_wf(#[trigger] orig[j]),
            forall|j: int| i <= j < orig.len() ==> #[trigger] boxes@[j]@ == orig[j],
            forall|j: int| 0 <= j < i ==> #[trigger] boxes@[j]@ == pushed_box(
                orig[j],
                classified_contact(pv, phv, orig[j].pos, orig[j].half_extent),
                dv,
            ),
            intent.facing == old(intent).facing,
            intent.should_move == (old(intent).should_move && !any_suppression(orig.take(i as int), pv, phv)),
        decreases boxes@.len() - i,
    {
        let ghost pre = boxes@[i as int]@;
        let bx = boxes[i].pos.x;
        let by = boxes[i].pos.y;
        let bh = boxes[i].half_extent;
        let contact = classify_contact(player_pos, player_half, &Vec2i { x: bx, y: by }, bh);
        match contact {
            Some(ContactSide::Right) => {
                boxes[i].pos.x = bx + d;
                intent.should_move = false;
            }
            Some(ContactSide::Left) => {
                boxes[i].pos.x = bx - d;
                intent.should_move = false;
            }
            Some(ContactSide::Top) => {
                boxes[i].pos.y = by + d;
                intent.should_move = false;
            }
            Some(ContactSide::Bottom) => {
                boxes[i].pos.y = by - d;
                intent.should_move = false;
            }
            Some(ContactSide::Inside) => {}
            None => {}
        }
        proof {
            assert(boxes@[i as int]@ == pushed_box(
                pre,
                classified_contact(pv, phv, pre.pos, pre.half_extent),
                dv,
            ));
            assert(orig.take(i + 1 as int).last() == orig[i as int]);
            assert(orig.take(i + 1 as int).take(i as int) == orig.take(i as int));
            if contact_suppresses(classified_contact(pv, phv, pre.pos, pre.half_extent)) {
                assert(any_suppression(orig.take(i + 1 as int), pv, phv));
            } else {
                assert(any_suppression(orig.take(i + 1 as int), pv, phv)
                    == any_suppression(orig.take(i as int), pv, phv)) by {
                    if any_suppression(orig.take(i as int), pv, phv) {
                        let k = choose|k: int|
                            0 <= k < orig.take(i as int).len() && contact_suppresses(
                                #[trigger] classified_contact(
                                    pv,
                                    phv,
                                    orig.take(i as int)[k].pos,
                                    orig.take(i as int)[k].half_extent,
                                ),
                            );
                        assert(orig.take(i + 1 as int)[k] == orig.take(i as int)[k]);
                    }
                    if any_suppression(orig.take(i + 1 as int), pv, phv) {
                        let k = choose|k: int|
                            0 <= k < orig.take(i + 1 as int).len() && contact_suppresses(
                                #[trigger] classified_contact(
                                    pv,
                                    phv,
                                    orig.take(i + 1 as int)[k].pos,
                                    orig.take(i + 1 as int)[k].half_extent,
                                ),
                            );
                        assert(k < i);
                        assert(orig.take(i as int)[k] == orig.take(i + 1 as int)[k]);
                    }
                }
            }
        }
        i = i + 1;
    }
    proof {
        assert(orig.take(orig.len() as int) == orig);
        assert(boxes_view(boxes@) =~= resolved_boxes(orig, pv, phv, dv));
    }
}

/// The resolver is idempotent on absent subjects: with no boxes there is
/// nothing to displace and no suppression, so the resolved state equals the
/// input state.
pub proof fn lemma_resolver_no_boxes(p: PointV, ph: int, d: int)
    ensures
        resolved_boxes(Seq::<PushBoxV>::empty(), p, ph, d) == Seq::<PushBoxV>::empty(),
        !any_suppression(Seq::<PushBoxV>::empty(), p, ph),
{
    assert(resolved_boxes(Seq::<PushBoxV>::empty(), p, ph, d) =~= Seq::<PushBoxV>::empty());
}

} // verus!

use maze_core::collision::{classify_contact, resolve_pushes, ContactSide, PushBox};
use maze_core::geometry::Vec2i;
use maze_core::movement::{Facing, MovementIntent};

fn square(x: i64, y: i64) -> PushBox {
    PushBox { pos: Vec2i { x, y }, half_extent: 64 }
}

#[test]
fn horizontal_contact_classified_right() {
    // player at the origin, box 100 to the right, both half-extent 64:
    // the squares overlap by 28 on the horizontal axis only.
    let c = classify_contact(&Vec2i { x: 0, y: 0 }, 64, &Vec2i { x: 100, y: 0 }, 64);
    assert_eq!(c, Some(ContactSide::Right));
}

#[test]
fn contact_sides_by_offset() {
    let p = Vec2i { x: 0, y: 0 };
    assert_eq!(classify_contact(&p, 64, &Vec2i { x: -100, y: 5 }, 64), Some(ContactSide::Left));
    assert_eq!(classify_contact(&p, 64, &Vec2i { x: 5, y: 100 }, 64), Some(ContactSide::Top));
    assert_eq!(classify_contact(&p, 64, &Vec2i { x: 5, y: -100 }, 64), Some(ContactSide::Bottom));
}

#[test]
fn no_overlap_is_no_contact() {
    let p = Vec2i { x: 0, y: 0 };
    assert_eq!(classify_contact(&p, 64, &Vec2i { x: 128, y: 0 }, 64), None, "edge touch is no overlap");
    assert_eq!(classify_contact(&p, 64, &Vec2i { x: 300, y: 300 }, 64), None);
}

#[test]
fn center_inside_is_degenerate_contact() {
    let c = classify_contact(&Vec2i { x: 0, y: 0 }, 64, &Vec2i { x: 10, y: -3 }, 64);
    assert_eq!(c, Some(ContactSide::Inside));
}

#[test]
fn push_scenario_displaces_box_and_suppresses_movement() {
    let player = Vec2i { x: 0, y: 0 };
    let mut boxes = vec![square(100, 0)];
    let mut intent = MovementIntent { facing: Facing::Right, should_move: true };
    // push speed 250 units/s over 100 ms displaces by 25
    resolve_pushes(&player, 64, &mut boxes, &mut intent, 250, 100);
    assert_eq!(boxes[0].pos, Vec2i { x: 125, y: 0 }, "box pushed further in +x");
    assert!(!intent.should_move, "side contact suppresses movement this tick");
    assert_eq!(intent.facing, Facing::Right, "facing untouched");
}

#[test]
fn no_contact_leaves_movement_alone() {
    let player = Vec2i { x: 0, y: 0 };
    let mut boxes = vec![square(300, 0)];
    let mut intent = MovementIntent { facing: Facing::Right, should_move: true };
    resolve_pushes(&player, 64, &mut boxes, &mut intent, 250, 100);
    assert_eq!(boxes[0].pos, Vec2i { x: 300, y: 0 });
    assert!(intent.should_move);
}

#[test]
fn inside_contact_neither_displaces_nor_suppresses() {
    let player = Vec2i { x: 0, y: 0 };
    let mut boxes = vec![square(10, 0)];
    let mut intent = MovementIntent { facing: Facing::Right, should_move: true };
    resolve_pushes(&player, 64, &mut boxes, &mut intent, 250, 100);
    assert_eq!(boxes[0].pos, Vec2i { x: 10, y: 0 }, "degenerate overlap is tolerated");
    assert!(intent.should_move);
}

#[test]
fn boxes_resolved_independently() {
    let player = Vec2i { x: 0, y: 0 };
    let mut boxes = vec![square(100, 0), square(-100, 0), square(0, 100), square(300, 300)];
    let mut intent = MovementIntent { facing: Facing::Up, should_move: true };
    resolve_pushes(&player, 64, &mut boxes, &mut intent, 250, 100);
    assert_eq!(boxes[0].pos, Vec2i { x: 125, y: 0 });
    assert_eq!(boxes[1].pos, Vec2i { x: -125, y: 0 });
    assert_eq!(boxes[2].pos, Vec2i { x: 0, y: 125 });
    assert_eq!(boxes[3].pos, Vec2i { x: 300, y: 300 });
    assert!(!intent.should_move);
}

#[test]
fn no_boxes_is_a_no_op() {
    let player = Vec2i { x: 0, y: 0 };
    let mut boxes: Vec<PushBox> = Vec::new();
    let mut intent = MovementIntent { facing: Facing::Down, should_move: true };
    resolve_pushes(&player, 64, &mut boxes, &mut intent, 250, 100);
    assert!(boxes.is_empty());
    assert_eq!(intent, MovementIntent { facing: Facing::Down, should_move: true });
}

#[test]
fn equal_penetration_tie_break_is_deterministic() {
    // diagonal placement with exactly equal penetration on both axes
    let player = Vec2i { x: 0, y: 0 };
    let run = || {
        let mut boxes = vec![square(100, 100)];
        let mut intent = MovementIntent { facing: Facing::Up, should_move: true };
        resolve_pushes(&player, 64, &mut boxes, &mut intent, 250, 100);
        (boxes[0].pos, intent)
    };
    let first = run();
    for _ in 0..10 {
        assert_eq!(run(), first, "tie-break must pick the same side every time");
    }
    // the tie is resolved along exactly one axis
    let moved_x = first.0.x != 100;
    let moved_y = first.0.y != 100;
    assert!(moved_x ^ moved_y);
    assert!(!first.1.should_move);
}

use maze_core::collision::PushBox;
use maze_core::geometry::Vec2i;
use maze_core::movement::Facing;
use maze_core::phase::GameState;
use maze_core::world::{
    snapshot_from_keys, standard_config, DebugCommand, InputSnapshot, Player, World,
};

fn empty_input() -> InputSnapshot {
    InputSnapshot { presses: Vec::new(), held: false, escape: false, commands: Vec::new() }
}

fn playing_world() -> World {
    let mut w = World::new(standard_config());
    w.on_assets_ready();
    w.on_play_requested();
    assert!(w.is_wf());
    w
}

#[test]
fn standard_config_is_valid() {
    let c = standard_config();
    assert_eq!(c.player_speed, 450);
    assert_eq!(c.push_speed, 250);
    assert_eq!(c.player_half_extent, 64);
    assert_eq!(c.box_half_extent, 64);
    assert_eq!(c.frame_period_ms, 300);
    assert!(World::new(c).is_wf());
}

#[test]
fn spawn_commands_create_entities() {
    let mut w = playing_world();
    let input = InputSnapshot {
        presses: Vec::new(),
        held: false,
        escape: false,
        commands: vec![DebugCommand::SpawnPlayer, DebugCommand::SpawnStar, DebugCommand::SpawnCrate],
    };
    w.playing_tick(&input, 16, 16);
    let p = w.player.as_ref().expect("player spawned");
    assert_eq!(p.pos, Vec2i { x: 0, y: 0 });
    assert_eq!((p.anim.first, p.anim.last, p.anim.current), (53, 54, 53));
    assert_eq!(p.anim.period_ms, 300);
    assert_eq!(w.stars, vec![Vec2i { x: 0, y: 0 }]);
    assert_eq!(w.boxes, vec![PushBox { pos: Vec2i { x: 200, y: 0 }, half_extent: 64 }]);
    assert!(w.is_wf());
}

#[test]
fn second_player_spawn_is_ignored() {
    let mut w = playing_world();
    let spawn = InputSnapshot {
        presses: Vec::new(),
        held: false,
        escape: false,
        commands: vec![DebugCommand::SpawnPlayer],
    };
    w.playing_tick(&spawn, 16, 16);
    let held = InputSnapshot {
        presses: vec![Facing::Right],
        held: true,
        escape: false,
        commands: vec![DebugCommand::SpawnPlayer],
    };
    w.playing_tick(&held, 16, 16);
    let p = w.player.as_ref().unwrap();
    assert_eq!(p.pos, Vec2i { x: 7, y: 0 }, "the old player moved; no new one was spawned");
}

#[test]
fn tick_outside_play_is_a_no_op() {
    let mut w = World::new(standard_config());
    let before = w.clone();
    let busy = InputSnapshot {
        presses: vec![Facing::Down],
        held: true,
        escape: true,
        commands: vec![DebugCommand::SpawnPlayer],
    };
    w.playing_tick(&busy, 100, 100);
    assert_eq!(w, before, "nothing moves while loading");
    w.on_assets_ready();
    let before = w.clone();
    w.playing_tick(&busy, 100, 100);
    assert_eq!(w, before, "nothing moves in the menu");
}

#[test]
fn resolver_idle_without_player_or_boxes() {
    // no player: the whole tick leaves the world unchanged
    let mut w = playing_world();
    let before = w.clone();
    w.playing_tick(&empty_input(), 16, 16);
    assert_eq!(w, before);
    // a player but no boxes: push resolution changes nothing, movement runs
    let mut w = playing_world();
    w.player = Some(Player {
        pos: Vec2i { x: 5, y: 5 },
        anim: maze_core::animation::AnimState { first: 53, last: 54, current: 53, elapsed_ms: 0, period_ms: 300 },
    });
    assert!(w.is_wf());
    let input = InputSnapshot { presses: vec![Facing::Up], held: true, escape: false, commands: Vec::new() };
    w.playing_tick(&input, 16, 100);
    assert_eq!(w.player.as_ref().unwrap().pos, Vec2i { x: 5, y: 50 }, "450 * 100ms / 1000 = 45 upward");
    assert!(w.boxes.is_empty());
}

#[test]
fn push_contact_suppresses_player_movement_that_tick() {
    let mut w = playing_world();
    w.player = Some(Player {
        pos: Vec2i { x: 0, y: 0 },
        anim: maze_core::animation::AnimState { first: 53, last: 54, current: 53, elapsed_ms: 0, period_ms: 300 },
    });
    w.boxes = vec![PushBox { pos: Vec2i { x: 100, y: 0 }, half_extent: 64 }];
    assert!(w.is_wf());
    let input = InputSnapshot { presses: vec![Facing::Right], held: true, escape: false, commands: Vec::new() };
    w.playing_tick(&input, 16, 100);
    assert_eq!(w.boxes[0].pos, Vec2i { x: 125, y: 0 }, "box pushed by 250 * 100ms / 1000");
    assert_eq!(w.player.as_ref().unwrap().pos, Vec2i { x: 0, y: 0 }, "player movement suppressed");
    assert!(!w.intent.should_move);

    // the box still overlaps (125 < 128), so it is pushed once more
    w.playing_tick(&input, 16, 100);
    assert_eq!(w.boxes[0].pos, Vec2i { x: 150, y: 0 });
    assert_eq!(w.player.as_ref().unwrap().pos, Vec2i { x: 0, y: 0 });

    // now the box is out of reach and the player walks again
    w.playing_tick(&input, 16, 100);
    assert_eq!(w.boxes[0].pos, Vec2i { x: 150, y: 0 });
    assert_eq!(w.player.as_ref().unwrap().pos, Vec2i { x: 45, y: 0 });
}

#[test]
fn facing_change_retargets_walk_cycle() {
    let mut w = playing_world();
    w.playing_tick(
        &InputSnapshot { presses: Vec::new(), held: false, escape: false, commands: vec![DebugCommand::SpawnPlayer] },
        16,
        16,
    );
    let input = InputSnapshot { presses: vec![Facing::Up, Facing::Left], held: false, escape: false, commands: Vec::new() };
    w.playing_tick(&input, 16, 16);
    let a = w.player.as_ref().unwrap().anim;
    assert_eq!((a.first, a.last, a.current), (82, 83, 82), "last press wins the re-target");
    assert_eq!(w.intent.facing, Facing::Left);
}

#[test]
fn escape_during_play_returns_to_menu() {
    let mut w = playing_world();
    let input = InputSnapshot { presses: Vec::new(), held: false, escape: true, commands: Vec::new() };
    w.playing_tick(&input, 16, 16);
    assert_eq!(w.phase, GameState::Menu);
}

#[test]
fn escape_tick_still_runs_that_ticks_systems() {
    // the phase gates a tick at its start; the pause request is evaluated
    // after the systems, so the same tick's movement still happens
    let mut w = playing_world();
    w.player = Some(Player {
        pos: Vec2i { x: 0, y: 0 },
        anim: maze_core::animation::AnimState { first: 53, last: 54, current: 53, elapsed_ms: 0, period_ms: 300 },
    });
    let input = InputSnapshot { presses: vec![Facing::Up], held: true, escape: true, commands: Vec::new() };
    w.playing_tick(&input, 16, 100);
    assert_eq!(w.phase, GameState::Menu);
    assert_eq!(w.player.as_ref().unwrap().pos, Vec2i { x: 0, y: 45 });
}

#[test]
fn identical_runs_are_identical() {
    let script = |w: &mut World| {
        let ticks: Vec<InputSnapshot> = vec![
            InputSnapshot { presses: Vec::new(), held: false, escape: false, commands: vec![DebugCommand::SpawnPlayer, DebugCommand::SpawnCrate] },
            InputSnapshot { presses: vec![Facing::Right], held: true, escape: false, commands: Vec::new() },
            InputSnapshot { presses: Vec::new(), held: true, escape: false, commands: Vec::new() },
            InputSnapshot { presses: vec![Facing::Down, Facing::Up], held: true, escape: false, commands: vec![DebugCommand::SpawnCrate] },
            InputSnapshot { presses: Vec::new(), held: false, escape: false, commands: Vec::new() },
        ];
        let dts = [(16, 16), (17, 16), (350, 100), (16, 16), (300, 100)];
        for (input, (frame_dt, fixed_dt)) in ticks.iter().zip(dts) {
            assert!(w.is_wf());
            w.playing_tick(input, frame_dt, fixed_dt);
        }
    };
    let mut a = playing_world();
    let mut b = playing_world();
    script(&mut a);
    script(&mut b);
    assert_eq!(a, b, "same input stream and elapsed times, same run");
    assert_eq!(
        a.player.as_ref().unwrap().pos,
        b.player.as_ref().unwrap().pos,
    );
    assert_eq!(a.player.as_ref().unwrap().anim.current, b.player.as_ref().unwrap().anim.current);
}

#[test]
fn snapshot_from_keys_maps_fixed_key_set() {
    let s = snapshot_from_keys(true, false, true, true, true, false, true, false, true);
    assert_eq!(s.presses, vec![Facing::Up, Facing::Down, Facing::Right]);
    assert!(s.held);
    assert!(!s.escape);
    assert_eq!(s.commands, vec![DebugCommand::SpawnPlayer, DebugCommand::SpawnCrate]);
    let quiet = snapshot_from_keys(false, false, false, false, false, true, false, false, false);
    assert!(quiet.presses.is_empty());
    assert!(!quiet.held);
    assert!(quiet.escape);
    assert!(quiet.commands.is_empty());
}

#[test]
fn is_wf_rejects_broken_states() {
    let mut w = playing_world();
    w.config.frame_period_ms = 0;
    assert!(!w.is_wf());
    let mut w = playing_world();
    w.boxes.push(PushBox { pos: Vec2i { x: 0, y: 0 }, half_extent: 0 });
    assert!(!w.is_wf());
    let mut w = playing_world();
    w.player = Some(Player {
        pos: Vec2i { x: 0, y: 0 },
        anim: maze_core::animation::AnimState { first: 5, last: 4, current: 5, elapsed_ms: 0, period_ms: 300 },
    });
    assert!(!w.is_wf());
}

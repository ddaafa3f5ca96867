use maze_core::phase::{GameState, PhaseEvent};
use maze_core::phase::GameState::{Game, Loading, Menu};
use maze_core::phase::PhaseEvent::{
    AssetsReady, LoadingTimedOut, PauseRequested, PlayRequested, QuitRequested,
};
use maze_core::world::{standard_config, InputSnapshot, World};

fn empty_input() -> InputSnapshot {
    InputSnapshot { presses: Vec::new(), held: false, escape: false, commands: Vec::new() }
}

#[test]
fn starts_loading() {
    let w = World::new(standard_config());
    assert_eq!(w.phase, GameState::Loading);
    assert!(w.player.is_none());
    assert_eq!(w.boxes.len(), 0);
}

#[test]
fn assets_ready_at_tick_five_enters_menu_exactly_then() {
    let mut w = World::new(standard_config());
    for tick in 0..10 {
        if tick == 5 {
            w.on_assets_ready();
        }
        if tick < 5 {
            assert_eq!(w.phase, GameState::Loading, "tick {tick}: left Loading too early");
        } else {
            assert_eq!(w.phase, GameState::Menu, "tick {tick}: not in Menu");
        }
        // the simulation tick itself never changes the phase outside play
        w.playing_tick(&empty_input(), 16, 16);
    }
}

#[test]
fn play_during_loading_is_ignored() {
    let mut w = World::new(standard_config());
    w.on_play_requested();
    assert_eq!(w.phase, GameState::Loading);
}

#[test]
fn loading_timeout_enters_menu() {
    let mut w = World::new(standard_config());
    w.on_loading_timed_out();
    assert_eq!(w.phase, GameState::Menu);
}

#[test]
fn menu_play_starts_game() {
    let mut w = World::new(standard_config());
    w.on_assets_ready();
    w.on_play_requested();
    assert_eq!(w.phase, GameState::Game);
}

#[test]
fn quit_requests_exit_only_in_menu() {
    let mut w = World::new(standard_config());
    assert!(!w.on_quit_requested());
    w.on_assets_ready();
    assert!(w.on_quit_requested());
    assert_eq!(w.phase, GameState::Menu, "quit never changes the phase");
    w.on_play_requested();
    assert!(!w.on_quit_requested());
}

#[test]
fn pause_returns_to_menu_and_keeps_entities() {
    let mut w = World::new(standard_config());
    w.on_assets_ready();
    w.on_play_requested();
    let spawn = InputSnapshot {
        presses: Vec::new(),
        held: false,
        escape: false,
        commands: vec![
            maze_core::world::DebugCommand::SpawnPlayer,
            maze_core::world::DebugCommand::SpawnCrate,
        ],
    };
    w.playing_tick(&spawn, 16, 16);
    assert!(w.player.is_some());
    assert_eq!(w.boxes.len(), 1);
    w.on_pause_requested();
    assert_eq!(w.phase, GameState::Menu);
    assert!(w.player.is_some(), "pausing keeps the player");
    assert_eq!(w.boxes.len(), 1, "pausing keeps the boxes");
}

#[test]
fn invalid_transitions_are_ignored() {
    let mut w = World::new(standard_config());
    w.on_pause_requested();
    assert_eq!(w.phase, GameState::Loading);
    w.on_assets_ready();
    w.on_assets_ready();
    assert_eq!(w.phase, GameState::Menu);
    w.on_play_requested();
    w.on_play_requested();
    assert_eq!(w.phase, GameState::Game);
    w.on_assets_ready();
    assert_eq!(w.phase, GameState::Game);
}

#[test]
fn step_covers_whole_table() {
    let cases = [
        (Loading, AssetsReady, Menu, false),
        (Loading, LoadingTimedOut, Menu, false),
        (Loading, PlayRequested, Loading, false),
        (Loading, QuitRequested, Loading, false),
        (Loading, PauseRequested, Loading, false),
        (Menu, AssetsReady, Menu, false),
        (Menu, LoadingTimedOut, Menu, false),
        (Menu, PlayRequested, Game, false),
        (Menu, QuitRequested, Menu, true),
        (Menu, PauseRequested, Menu, false),
        (Game, AssetsReady, Game, false),
        (Game, LoadingTimedOut, Game, false),
        (Game, PlayRequested, Game, false),
        (Game, QuitRequested, Game, false),
        (Game, PauseRequested, Menu, false),
    ];
    for (s, e, next, exit) in cases {
        assert_eq!(s.step(e), (next, exit), "{s:?} on {e:?}");
    }
}

//! The coarse game-state machine: asset loading, the menu, and active play.
//! Transitions are edge-triggered; a request that is invalid in the current
//! state is silently ignored, since such requests arise only from stale UI
//! events delivered on the tick a state changed.

use vstd::prelude::*;

verus! {

/// The coarse phase of the game.  `Game` is the in-play phase.
#[derive(Clone, Copy, PartialEq, Eq, Structural, Debug, Hash)]
pub enum GameState {
    Loading,
    Menu,
    Game,
}

impl Default for GameState {
    /// The game starts in the loading phase.
    fn default() -> (r: Self)
        ensures
            r == GameState::Loading,
    {
        GameState::Loading
    }
}

/// An edge-triggered request delivered to the state machine.
#[derive(Clone, Copy, PartialEq, Eq, Structural, Debug)]
pub enum PhaseEvent {
    /// The asset loader signals that every asset is ready; fires at most once
    /// per loading episode.
    AssetsReady,
    /// The fallback delay for asset loading elapsed.
    LoadingTimedOut,
    /// The menu's play action.
    PlayRequested,
    /// The menu's quit action.
    QuitRequested,
    /// The in-play pause (escape) action.
    PauseRequested,
}

/// The full transition table.  Loading moves to the menu when assets are
/// ready or the fallback delay elapses; the menu starts play on the play
/// action; play returns to the menu on pause.  Everything else -- including
/// the quit action, which signals the process exit without a phase change --
/// leaves the phase alone.
pub open spec fn next_phase(s: GameState, e: PhaseEvent) -> GameState {
    match (s, e) {
        (GameState::Loading, PhaseEvent::AssetsReady) => GameState::Menu,
        (GameState::Loading, PhaseEvent::LoadingTimedOut) => GameState::Menu,
        (GameState::Menu, PhaseEvent::PlayRequested) => GameState::Game,
        (GameState::Game, PhaseEvent::PauseRequested) => GameState::Menu,
        (_, _) => s,
    }
}

/// The quit action, valid only in the menu, asks the external exit
/// collaborator to terminate the process.
pub open spec fn requests_exit(s: GameState, e: PhaseEvent) -> bool {
    s is Menu && e is QuitRequested
}

impl GameState {
    /// Feeds one event to the state machine; returns the next phase and
    /// whether the process exit was requested.  Invalid requests are ignored
    /// rather than errors.
    pub fn step(self, e: PhaseEvent) -> (r: (GameState, bool))
        ensures
            r.0 == next_phase(self, e),
            r.1 == requests_exit(self, e),
    {
        match (self, e) {
            (GameState::Loading, PhaseEvent::AssetsReady) => (GameState::Menu, false),
            (GameState::Loading, PhaseEvent::LoadingTimedOut) => (GameState::Menu, false),
            (GameState::Menu, PhaseEvent::PlayRequested) => (GameState::Game, false),
            (GameState::Menu, PhaseEvent::QuitRequested) => (GameState::Menu, true),
            (GameState::Game, PhaseEvent::PauseRequested) => (GameState::Menu, false),
            (s, _) => (s, false),
        }
    }
}

/// No event moves the machine from loading straight into play: a play
/// action delivered while still loading is ignored.
pub proof fn lemma_loading_never_jumps_to_game(e: PhaseEvent)
    ensures
        next_phase(GameState::Loading, e) != GameState::Game,
{
}

} // verus!

//! The simulation context: one world value holds the phase, the movement
//! intent, the player, the pushable boxes and the decorative sprites, and a
//! tick function advances it from sampled input and elapsed time.  Entity
//! storage is explicit (an optional player, vectors of boxes and sprites)
//! rather than ambient engine state, so every per-tick rule is a function of
//! the world value alone.

use vstd::prelude::*;
use crate::geometry::{Vec2i, PointV, in_bounds, scaled_step};
use crate::movement::{Facing, MovementIntent, resolved_intent, resolve_intent, stepped_point, apply_movement};
use crate::collision::{PushBox, PushBoxV, box_wf, boxes_view, resolved_boxes, any_suppression, resolve_pushes, EXTENT_LIMIT};
use crate::animation::{AnimState, FacingFrameTable, anim_wf, table_wf, range_for, lookup_range, retargeted_anim, retarget_anim, ticked_anim, tick_anim, validate_table};
use crate::phase::{GameState, PhaseEvent, next_phase, requests_exit};

verus! {

/// The player actor: its position and its walk-cycle animation.  At most one
/// player exists at a time.
#[derive(Clone, Copy, PartialEq, Eq, Structural, Debug)]
pub struct Player {
    pub pos: Vec2i,
    pub anim: AnimState,
}

/// Mathematical image of a `Player`.
pub ghost struct PlayerV {
    pub pos: PointV,
    pub anim: AnimState,
}

impl View for Player {
    type V = PlayerV;

    open spec fn view(&self) -> PlayerV {
        PlayerV { pos: self.pos@, anim: self.anim }
    }
}

/// Fixed configuration of the simulation: speeds in units per second,
/// bounding-box half-extents, the facing-to-frame-range table with its timer
/// period, and where debug spawns place entities.
#[derive(Clone, Copy, PartialEq, Eq, Structural, Debug)]
pub struct SimConfig {
    pub player_speed: u16,
    pub push_speed: u16,
    pub player_half_extent: i64,
    pub box_half_extent: i64,
    pub frame_table: FacingFrameTable,
    pub frame_period_ms: u32,
    pub player_spawn: Vec2i,
    pub box_spawn: Vec2i,
}

/// Startup validity of a configuration: positive half-extents within the
/// arithmetic limit, a well-formed frame table, a positive frame period, and
/// spawn points on the grid.
pub open spec fn config_wf(c: SimConfig) -> bool {
    &&& 0 < c.player_half_extent <= EXTENT_LIMIT
    &&& 0 < c.box_half_extent <= EXTENT_LIMIT
    &&& table_wf(c.frame_table)
    &&& 0 < c.frame_period_ms
    &&& in_bounds(c.player_spawn@)
    &&& in_bounds(c.box_spawn@)
}

/// The configuration the game ships with.
pub fn standard_config() -> (c: SimConfig)
    ensures
        c.player_speed == 450,
        c.push_speed == 250,
        c.player_half_extent == 64,
        c.box_half_extent == 64,
        c.frame_table == (crate::animation::FacingFrameTable {
            up: crate::animation::FrameRange { first: 56, last: 57 },
            down: crate::animation::FrameRange { first: 53, last: 54 },
            left: crate::animation::FrameRange { first: 82, last: 83 },
            right: crate::animation::FrameRange { first: 79, last: 80 },
        }),
        c.frame_period_ms == 300,
        c.player_spawn == (Vec2i { x: 0, y: 0 }),
        c.box_spawn == (Vec2i { x: 200, y: 0 }),
        config_wf(c),
{
    SimConfig {
        player_speed: 450,
        push_speed: 250,
        player_half_extent: 64,
        box_half_extent: 64,
        frame_table: crate::animation::character_frame_table(),
        frame_period_ms: 300,
        player_spawn: Vec2i { x: 0, y: 0 },
        box_spawn: Vec2i { x: 200, y: 0 },
    }
}

/// A debug spawn action, delivered as an explicit per-tick message and
/// consumed exactly once.
#[derive(Clone, Copy, PartialEq, Eq, Structural, Debug)]
pub enum DebugCommand {
    SpawnPlayer,
    SpawnStar,
    SpawnCrate,
}

/// One tick's sampled input: the directions reported "just pressed" in
/// source order, whether any directional key is currently held, whether the
/// pause (escape) key was just pressed, and the debug spawn commands issued
/// this tick.
#[derive(Clone, PartialEq, Eq, Debug)]
pub struct InputSnapshot {
    pub presses: Vec<Facing>,
    pub held: bool,
    pub escape: bool,
    pub commands: Vec<DebugCommand>,
}

/// Mathematical image of an `InputSnapshot`.
pub ghost struct InputV {
    pub presses: Seq<Facing>,
    pub held: bool,
    pub escape: bool,
    pub commands: Seq<DebugCommand>,
}

impl View for InputSnapshot {
    type V = InputV;

    open spec fn view(&self) -> InputV {
        InputV {
            presses: self.presses@,
            held: self.held,
            escape: self.escape,
            commands: self.commands@,
        }
    }
}

/// The whole simulation state.
#[derive(Clone, PartialEq, Eq, Debug)]
pub struct World {
    pub phase: GameState,
    pub intent: MovementIntent,
    pub player: Option<Player>,
    pub boxes: Vec<PushBox>,
    pub stars: Vec<Vec2i>,
    pub config: SimConfig,
}

/// Mathematical image of a `World`.
#[verifier::ext_equal]
pub ghost struct WorldV {
    pub phase: GameState,
    pub intent: MovementIntent,
    pub player: Option<PlayerV>,
    pub boxes: Seq<PushBoxV>,
    pub stars: Seq<PointV>,
    pub config: SimConfig,
}

/// Mathematical image of the decorative sprites.
pub open spec fn stars_view(s: Seq<Vec2i>) -> Seq<PointV> {
    s.map_values(|v: Vec2i| v@)
}

/// View of the optional player.
pub open spec fn player_view(p: Option<Player>) -> Option<PlayerV> {
    match p {
        Some(pl) => Some(pl@),
        None => None,
    }
}

impl View for World {
    type V = WorldV;

    open spec fn view(&self) -> WorldV {
        WorldV {
            phase: self.phase,
            intent: self.intent,
            player: player_view(self.player),
            boxes: boxes_view(self.boxes@),
            stars: stars_view(self.stars@),
            config: self.config,
        }
    }
}

/// The world invariant: a valid configuration, a player (when present) on
/// the grid with a well-formed animation, and well-formed boxes.
pub open spec fn world_wf(w: WorldV) -> bool {
    &&& config_wf(w.config)
    &&& (w.player matches Some(p) ==> in_bounds(p.pos) && anim_wf(p.anim))
    &&& forall|i: int| 0 <= i < w.boxes.len() ==> box_wf(#[trigger] w.boxes[i])
}

/// The player a spawn command creates: standing at the configured spawn
/// point, showing the first frame of the downward walk cycle, its timer at
/// zero.
pub open spec fn spawned_player(c: SimConfig) -> PlayerV {
    PlayerV {
        pos: c.player_spawn@,
        anim: AnimState {
            first: c.frame_table.down.first,
            last: c.frame_table.down.last,
            current: c.frame_table.down.first,
            elapsed_ms: 0,
            period_ms: c.frame_period_ms,
        },
    }
}

/// The world after one debug command.  Spawning a player is a no-op while
/// one exists, preserving the at-most-one-player invariant; stars and crates
/// accumulate.
pub open spec fn command_applied(w: WorldV, c: DebugCommand) -> WorldV {
    match c {
        DebugCommand::SpawnPlayer => if w.player is Some {
            w
        } else {
            WorldV { player: Some(spawned_player(w.config)), ..w }
        },
        DebugCommand::SpawnStar => WorldV { stars: w.stars.push(PointV { x: 0, y: 0 }), ..w },
        DebugCommand::SpawnCrate => WorldV {
            boxes: w.boxes.push(
                PushBoxV {
                    pos: w.config.box_spawn@,
                    half_extent: w.config.box_half_extent as int,
                },
            ),
            ..w
        },
    }
}

/// The world after a whole tick's command list, drained front to back.
pub open spec fn commands_applied(w: WorldV, cs: Seq<DebugCommand>) -> WorldV
    decreases cs.len(),
{
    if cs.len() == 0 {
        w
    } else {
        command_applied(commands_applied(w, cs.drop_last()), cs.last())
    }
}

/// The world after input resolution: only the intent changes.
pub open spec fn intent_applied(w: WorldV, presses: Seq<Facing>, held: bool) -> WorldV {
    WorldV { intent: resolved_intent(w.intent, presses, held), ..w }
}

/// The world after push resolution: every box resolved against the player,
/// and movement suppressed for the tick when any box makes side contact.
/// With no player the resolver is a no-op.
pub open spec fn pushes_applied(w: WorldV, fixed_dt_ms: u32) -> WorldV {
    match w.player {
        None => w,
        Some(p) => WorldV {
            boxes: resolved_boxes(
                w.boxes,
                p.pos,
                w.config.player_half_extent as int,
                scaled_step(w.config.push_speed, fixed_dt_ms),
            ),
            intent: MovementIntent {
                facing: w.intent.facing,
                should_move: w.intent.should_move && !any_suppression(
                    w.boxes,
                    p.pos,
                    w.config.player_half_extent as int,
                ),
            },
            ..w
        },
    }
}

/// The world after the movement step: the player displaced along its facing
/// when the (possibly suppressed) intent says to move.
pub open spec fn movement_applied(w: WorldV, fixed_dt_ms: u32) -> WorldV {
    match w.player {
        None => w,
        Some(p) => WorldV {
            player: Some(
                PlayerV {
                    pos: stepped_point(p.pos, w.intent, w.config.player_speed, fixed_dt_ms),
                    anim: p.anim,
                },
            ),
            ..w
        },
    }
}

/// The world after the animation step: a facing change this tick re-targets
/// the frame range (resetting the current frame) before the timer is
/// checked, then the timer accumulates and the frame advances only while
/// moving.
pub open spec fn animation_applied(w: WorldV, presses: Seq<Facing>, frame_dt_ms: u32) -> WorldV {
    match w.player {
        None => w,
        Some(p) => {
            let anim0 = if presses.len() > 0 {
                retargeted_anim(p.anim, range_for(w.config.frame_table, presses.last()))
            } else {
                p.anim
            };
            WorldV {
                player: Some(
                    PlayerV {
                        pos: p.pos,
                        anim: ticked_anim(anim0, w.intent.should_move, frame_dt_ms),
                    },
                ),
                ..w
            }
        },
    }
}

/// The phase check that follows the tick's systems: the pause key returns
/// the game to the menu.
pub open spec fn escape_applied(w: WorldV, escape: bool) -> WorldV {
    if escape {
        WorldV { phase: next_phase(w.phase, PhaseEvent::PauseRequested), ..w }
    } else {
        w
    }
}

/// One whole simulation tick while in play: drain the spawn commands,
/// resolve the movement intent from input, resolve box pushes, apply player
/// movement, advance the animation, then evaluate the pause request.  In any
/// other phase the world is untouched: movement and animation are never
/// updated outside play.
pub open spec fn playing_tick_spec(w: WorldV, input: InputV, frame_dt_ms: u32, fixed_dt_ms: u32) -> WorldV {
    if !(w.phase is Game) {
        w
    } else {
        escape_applied(
            animation_applied(
                movement_applied(
                    pushes_applied(
                        intent_applied(commands_applied(w, input.commands), input.presses, input.held),
                        fixed_dt_ms,
                    ),
                    fixed_dt_ms,
                ),
                input.presses,
                frame_dt_ms,
            ),
            input.escape,
        )
    }
}

impl World {
    /// A fresh world: loading phase, default intent, no entities.
    pub fn new(config: SimConfig) -> (w: World)
        ensures
            w@ == (WorldV {
                phase: GameState::Loading,
                intent: MovementIntent { facing: Facing::Up, should_move: false },
                player: None::<PlayerV>,
                boxes: Seq::<PushBoxV>::empty(),
                stars: Seq::<PointV>::empty(),
                config,
            }),
            config_wf(config) ==> world_wf(w@),
    {
        let w = World {
            phase: GameState::Loading,
            intent: MovementIntent { facing: Facing::Up, should_move: false },
            player: None,
            boxes: Vec::new(),
            stars: Vec::new(),
            config,
        };
        proof {
            assert(boxes_view(w.boxes@) =~= Seq::<PushBoxV>::empty());
            assert(stars_view(w.stars@) =~= Seq::<PointV>::empty());
        }
        w
    }

    /// Runtime check of the world invariant, for unverified callers that
    /// must establish it before ticking.
    pub fn is_wf(&self) -> (ok: bool)
        ensures
            ok == world_wf(self@),
    {
        let c = &self.config;
        let config_ok = 0 < c.player_half_extent && c.player_half_extent <= EXTENT_LIMIT
            && 0 < c.box_half_extent && c.box_half_extent <= EXTENT_LIMIT
            && validate_table(&c.frame_table) && 0 < c.frame_period_ms
            && in_bounds_exec(&c.player_spawn) && in_bounds_exec(&c.box_spawn);
        let player_ok = match &self.player {
            None => true,
            Some(p) => in_bounds_exec(&p.pos) && p.anim.first <= p.anim.current
                && p.anim.current <= p.anim.last && 0 < p.anim.period_ms
                && p.anim.elapsed_ms < p.anim.period_ms,
        };
        let mut boxes_ok = true;
        let mut i: usize = 0;
        while i < self.boxes.len()
            invariant
                0 <= i <= self.boxes@.len(),
                boxes_ok == (forall|j: int| 0 <= j < i ==> box_wf(#[trigger] self@.boxes[j])),
            decreases self.boxes@.len() - i,
        {
            let b = &self.boxes[i];
            let this_ok = in_bounds_exec(&b.pos) && 0 < b.half_extent && b.half_extent <= EXTENT_LIMIT;
            proof {
                assert(self@.boxes[i as int] == self.boxes@[i as int]@);
                assert(this_ok == box_wf(self@.boxes[i as int]));
            }
            boxes_ok = boxes_ok && this_ok;
            i = i + 1;
        }
        config_ok && player_ok && boxes_ok
    }

    /// Feeds the asset loader's ready signal to the state machine.
    pub fn on_assets_ready(&mut self)
        ensures
            final(self)@ == (WorldV { phase: next_phase(old(self)@.phase, PhaseEvent::AssetsReady), ..old(self)@ }),
    {
        let (next, _) = self.phase.step(PhaseEvent::AssetsReady);
        self.phase = next;
    }

    /// Feeds the loading fallback timeout to the state machine.
    pub fn on_loading_timed_out(&mut self)
        ensures
            final(self)@ == (WorldV { phase: next_phase(old(self)@.phase, PhaseEvent::LoadingTimedOut), ..old(self)@ }),
    {
        let (next, _) = self.phase.step(PhaseEvent::LoadingTimedOut);
        self.phase = next;
    }

    /// Feeds the menu's play action to the state machine.
    pub fn on_play_requested(&mut self)
        ensures
            final(self)@ == (WorldV { phase: next_phase(old(self)@.phase, PhaseEvent::PlayRequested), ..old(self)@ }),
    {
        let (next, _) = self.phase.step(PhaseEvent::PlayRequested);
        self.phase = next;
    }

    /// Feeds the menu's quit action to the state machine.  The phase never
    /// changes; the result says whether the process exit was requested.
    pub fn on_quit_requested(&self) -> (exit: bool)
        ensures
            exit == requests_exit(self@.phase, PhaseEvent::QuitRequested),
    {
        let (_, exit) = self.phase.step(PhaseEvent::QuitRequested);
        exit
    }

    /// Feeds the in-play pause action to the state machine.  Pausing keeps
    /// the player and the boxes: returning to the menu does not despawn
    /// in-play entities (a documented design choice).
    pub fn on_pause_requested(&mut self)
        ensures
            final(self)@ == (WorldV { phase: next_phase(old(self)@.phase, PhaseEvent::PauseRequested), ..old(self)@ }),
            final(self).player == old(self).player,
            final(self).boxes == old(self).boxes,
    {
        let (next, _) = self.phase.step(PhaseEvent::PauseRequested);
        self.phase = next;
    }

    /// Drains one tick's debug commands front to back.
    fn apply_commands(&mut self, cmds: &Vec<DebugCommand>)
        requires
            world_wf(old(self)@),
        ensures
            final(self)@ == commands_applied(old(self)@, cmds@),
            world_wf(final(self)@),
    {
        let ghost orig = self@;
        let mut i: usize = 0;
        while i < cmds.len()
            invariant
                0 <= i <= cmds@.len(),
                self@ == commands_applied(orig, cmds@.take(i as int)),
                world_wf(self@),
                self.config == orig.config,
            decreases cmds@.len() - i,
        {
            let ghost prev = self@;
            match cmds[i] {
                DebugCommand::SpawnPlayer => {
                    if self.player.is_none() {
                        self.player = Some(
                            Player {
                                pos: self.config.player_spawn,
                                anim: AnimState {
                                    first: self.config.frame_table.down.first,
                                    last: self.config.frame_table.down.last,
                                    current: self.config.frame_table.down.first,
                                    elapsed_ms: 0,
                                    period_ms: self.config.frame_period_ms,
                                },
                            },
                        );
                    }
                }
                DebugCommand::SpawnStar => {
                    self.stars.push(Vec2i { x: 0, y: 0 });
                }
                DebugCommand::SpawnCrate => {
                    self.boxes.push(
                        PushBox { pos: self.config.box_spawn, half_extent: self.config.box_half_extent },
                    );
                }
            }
            proof {
                assert(self@ =~= command_applied(prev, cmds@[i as int])) by {
                    match cmds@[i as int] {
                        DebugCommand::SpawnPlayer => {}
                        DebugCommand::SpawnStar => {
                            assert(stars_view(self.stars@) =~= prev.stars.push(PointV { x: 0, y: 0 }));
                        }
                        DebugCommand::SpawnCrate => {
                            assert(boxes_view(self.boxes@) =~= prev.boxes.push(
                                PushBoxV {
                                    pos: prev.config.box_spawn@,
                                    half_extent: prev.config.box_half_extent as int,
                                },
                            ));
                        }
                    }
                }
                assert(cmds@.take(i + 1 as int).drop_last() == cmds@.take(i as int));
                assert(cmds@.take(i + 1 as int).last() == cmds@[i as int]);
            }
            i = i + 1;
        }
        proof {
            assert(cmds@.take(cmds@.len() as int) == cmds@);
        }
    }

    /// One simulation tick while in play, from this tick's input snapshot,
    /// the frame's elapsed time, and the fixed physics step.  Outside the
    /// play phase nothing happens.
    pub fn playing_tick(&mut self, input: &InputSnapshot, frame_dt_ms: u32, fixed_dt_ms: u32)
        requires
            world_wf(old(self)@),
        ensures
            final(self)@ == playing_tick_spec(old(self)@, input@, frame_dt_ms, fixed_dt_ms),
    {
        let ghost w0 = self@;
        if !(self.phase == GameState::Game) {
            return ;
        }
        self.apply_commands(&input.commands);
        let ghost w1 = self@;
        resolve_intent(&mut self.intent, &input.presses, input.held);
        let ghost w2 = self@;
        proof {
            assert(w2 =~= intent_applied(w1, input@.presses, input@.held));
            assert(world_wf(w2));
        }
        if let Some(pl) = &self.player {
            resolve_pushes(
                &pl.pos,
                self.config.player_half_extent,
                &mut self.boxes,
                &mut self.intent,
                self.config.push_speed,
                fixed_dt_ms,
            );
        }
        let ghost w3 = self@;
        proof {
            assert(w3 =~= pushes_applied(w2, fixed_dt_ms));
        }
        if let Some(pl) = &mut self.player {
            apply_movement(&mut pl.pos, &self.intent, self.config.player_speed, fixed_dt_ms);
        }
        let ghost w4 = self@;
        proof {
            assert(w4 =~= movement_applied(w3, fixed_dt_ms));
        }
        if let Some(pl) = &mut self.player {
            if input.presses.len() > 0 {
                let r = lookup_range(&self.config.frame_table, input.presses[input.presses.len() - 1]);
                retarget_anim(&mut pl.anim, &r);
            }
            tick_anim(&mut pl.anim, self.intent.should_move, frame_dt_ms);
        }
        let ghost w5 = self@;
        proof {
            assert(w5 =~= animation_applied(w4, input@.presses, frame_dt_ms));
        }
        if input.escape {
            let (next, _) = self.phase.step(PhaseEvent::PauseRequested);
            self.phase = next;
        }
        proof {
            assert(self@ =~= escape_applied(w5, input@.escape));
        }
    }
}

/// The "just pressed" directions one tick reports, in the fixed order the
/// directional keys are polled: up, left, down, right.  A later key in the
/// polling order wins the facing when several are pressed in the same tick.
pub open spec fn presses_for_keys(up: bool, left: bool, down: bool, right: bool) -> Seq<Facing> {
    (if up { seq![Facing::Up] } else { Seq::<Facing>::empty() })
    + (if left { seq![Facing::Left] } else { Seq::<Facing>::empty() })
    + (if down { seq![Facing::Down] } else { Seq::<Facing>::empty() })
    + (if right { seq![Facing::Right] } else { Seq::<Facing>::empty() })
}

/// The debug commands one tick issues, in the fixed order the spawn keys are
/// polled: player, star, crate.
pub open spec fn commands_for_keys(player_key: bool, star_key: bool, crate_key: bool) -> Seq<DebugCommand> {
    (if player_key { seq![DebugCommand::SpawnPlayer] } else { Seq::<DebugCommand>::empty() })
    + (if star_key { seq![DebugCommand::SpawnStar] } else { Seq::<DebugCommand>::empty() })
    + (if crate_key { seq![DebugCommand::SpawnCrate] } else { Seq::<DebugCommand>::empty() })
}

/// Builds one tick's input snapshot from the sampled key states: a "just
/// pressed" flag per directional key, whether any directional key is held,
/// the pause key, and the three debug spawn keys.
pub fn snapshot_from_keys(
    just_up: bool,
    just_left: bool,
    just_down: bool,
    just_right: bool,
    any_direction_held: bool,
    just_escape: bool,
    spawn_player_key: bool,
    spawn_star_key: bool,
    spawn_crate_key: bool,
) -> (s: InputSnapshot)
    ensures
        s@.presses == presses_for_keys(just_up, just_left, just_down, just_right),
        s@.held == any_direction_held,
        s@.escape == just_escape,
        s@.commands == commands_for_keys(spawn_player_key, spawn_star_key, spawn_crate_key),
{
    let mut presses: Vec<Facing> = Vec::new();
    if just_up {
        presses.push(Facing::Up);
    }
    if just_left {
        presses.push(Facing::Left);
    }
    if just_down {
        presses.push(Facing::Down);
    }
    if just_right {
        presses.push(Facing::Right);
    }
    let mut commands: Vec<DebugCommand> = Vec::new();
    if spawn_player_key {
        commands.push(DebugCommand::SpawnPlayer);
    }
    if spawn_star_key {
        commands.push(DebugCommand::SpawnStar);
    }
    if spawn_crate_key {
        commands.push(DebugCommand::SpawnCrate);
    }
    proof {
        assert(presses@ =~= presses_for_keys(just_up, just_left, just_down, just_right));
        assert(commands@ =~= commands_for_keys(spawn_player_key, spawn_star_key, spawn_crate_key));
    }
    InputSnapshot { presses, held: any_direction_held, escape: just_escape, commands }
}

/// Exec check that a point lies within `COORD_LIMIT` on both axes.
fn in_bounds_exec(p: &Vec2i) -> (ok: bool)
    ensures
        ok == in_bounds(p@),
{
    -crate::geometry::COORD_LIMIT <= p.x && p.x <= crate::geometry::COORD_LIMIT
        && -crate::geometry::COORD_LIMIT <= p.y && p.y <= crate::geometry::COORD_LIMIT
}

/// One tick's worth of outside stimulus: the input snapshot and the two
/// elapsed times.
pub ghost struct TickV {
    pub input: InputV,
    pub frame_dt_ms: u32,
    pub fixed_dt_ms: u32,
}

/// A whole run: the world after a sequence of in-play ticks.
pub open spec fn run_ticks(w: WorldV, ticks: Seq<TickV>) -> WorldV
    decreases ticks.len(),
{
    if ticks.len() == 0 {
        w
    } else {
        playing_tick_spec(
            run_ticks(w, ticks.drop_last()),
            ticks.last().input,
            ticks.last().frame_dt_ms,
            ticks.last().fixed_dt_ms,
        )
    }
}

/// Determinism: a tick is a pure function of the world, the input and the
/// elapsed times, so two runs fed identical input streams and elapsed-time
/// sequences from identical worlds end in identical worlds -- in particular
/// with identical actor positions and frame indices.
pub proof fn lemma_run_deterministic(w1: WorldV, w2: WorldV, t1: Seq<TickV>, t2: Seq<TickV>)
    requires
        w1 == w2,
        t1 == t2,
    ensures
        run_ticks(w1, t1) == run_ticks(w2, t2),
{
}

/// Idempotence of the push resolver: with no player, or with no boxes, push
/// resolution leaves the whole world unchanged.
pub proof fn lemma_resolver_idle(w: WorldV, fixed_dt_ms: u32)
    ensures
        w.player is None ==> pushes_applied(w, fixed_dt_ms) == w,
        w.boxes.len() == 0 ==> pushes_applied(w, fixed_dt_ms) == w,
{
    if w.boxes.len() == 0 {
        match w.player {
            None => {}
            Some(p) => {
                crate::collision::lemma_resolver_no_boxes(
                    p.pos,
                    w.config.player_half_extent as int,
                    scaled_step(w.config.push_speed, fixed_dt_ms),
                );
                assert(w.boxes =~= Seq::<PushBoxV>::empty());
                assert(pushes_applied(w, fixed_dt_ms) =~= w);
            }
        }
    }
}

/// Outside the play phase a tick is a no-op: movement and animation are
/// never updated while the game is loading or in the menu.
pub proof fn lemma_tick_outside_play(w: WorldV, input: InputV, frame_dt_ms: u32, fixed_dt_ms: u32)
    ensures
        !(w.phase is Game) ==> playing_tick_spec(w, input, frame_dt_ms, fixed_dt_ms) == w,
{
}

/// Draining debug commands touches only the entities: the intent, the phase
/// and the configuration come through unchanged.
pub proof fn lemma_commands_preserve_intent(w: WorldV, cs: Seq<DebugCommand>)
    ensures
        commands_applied(w, cs).intent == w.intent,
        commands_applied(w, cs).phase == w.phase,
        commands_applied(w, cs).config == w.config,
    decreases cs.len(),
{
    if cs.len() > 0 {
        lemma_commands_preserve_intent(w, cs.drop_last());
    }
}

/// The facing law at whole-tick level: after an in-play tick the facing
/// equals the last direction reported "just pressed" that tick, or the
/// previous facing when none was.  No later stage of the tick touches it.
pub proof fn lemma_tick_facing(w: WorldV, input: InputV, frame_dt_ms: u32, fixed_dt_ms: u32)
    requires
        w.phase is Game,
    ensures
        input.presses.len() > 0 ==> playing_tick_spec(w, input, frame_dt_ms, fixed_dt_ms).intent.facing
            == input.presses.last(),
        input.presses.len() == 0 ==> playing_tick_spec(w, input, frame_dt_ms, fixed_dt_ms).intent.facing
            == w.intent.facing,
{
    lemma_commands_preserve_intent(w, input.commands);
}

/// The animation invariant holds at all times: an in-play tick of a
/// well-formed world leaves the player (when present) with a well-formed
/// animation -- its current frame inside its range, its timer below its
/// period.
pub proof fn lemma_tick_keeps_anim_wf(w: WorldV, input: InputV, frame_dt_ms: u32, fixed_dt_ms: u32)
    requires
        world_wf(w),
    ensures
        playing_tick_spec(w, input, frame_dt_ms, fixed_dt_ms).player matches Some(p) ==> anim_wf(p.anim),
{
    if w.phase is Game {
        let w1 = commands_applied(w, input.commands);
        lemma_commands_keep_wf(w, input.commands);
        let w2 = intent_applied(w1, input.presses, input.held);
        let w3 = pushes_applied(w2, fixed_dt_ms);
        let w4 = movement_applied(w3, fixed_dt_ms);
        match w4.player {
            None => {}
            Some(p) => {
                assert(anim_wf(p.anim));
                let anim0 = if input.presses.len() > 0 {
                    retargeted_anim(p.anim, range_for(w4.config.frame_table, input.presses.last()))
                } else {
                    p.anim
                };
                assert(anim_wf(anim0));
                crate::animation::lemma_frame_wrap(anim0, w4.intent.should_move, frame_dt_ms);
            }
        }
    }
}

/// Draining debug commands keeps the world invariant: spawned entities are
/// well-formed by construction.
pub proof fn lemma_commands_keep_wf(w: WorldV, cs: Seq<DebugCommand>)
    requires
        world_wf(w),
    ensures
        world_wf(commands_applied(w, cs)),
    decreases cs.len(),
{
    if cs.len() > 0 {
        lemma_commands_keep_wf(w, cs.drop_last());
        let prev = commands_applied(w, cs.drop_last());
        match cs.last() {
            DebugCommand::SpawnPlayer => {}
            DebugCommand::SpawnStar => {}
            DebugCommand::SpawnCrate => {
                assert forall|i: int| 0 <= i < commands_applied(w, cs).boxes.len() implies box_wf(
                    #[trigger] commands_applied(w, cs).boxes[i],
                ) by {
                    if i < prev.boxes.len() {
                        assert(box_wf(prev.boxes[i]));
                    }
                }
            }
        }
    }
}

} // verus!

//! Simulation core for a top-down box-pushing puzzle game.
//!
//! The library models the gameplay state that the surrounding engine drives
//! each tick: the coarse game phase (loading, menu, in play), the player's
//! movement intent resolved from directional keys, the player actor's
//! position, pushable boxes displaced on contact, and the walk-cycle
//! animation state machine.  All geometry is kept on an integer grid and all
//! durations are integer milliseconds, so every rule is exact and verified.

pub mod animation;
pub mod collision;
pub mod geometry;
pub mod movement;
pub mod phase;
pub mod world;

pub use geometry::Vec2i;

//! Game rules of a lane-based endless runner, stated and proved over plain values.
//!
//! The engine around these rules measures positions, reads the keyboard and
//! samples the terrain noise; the rules decide, from those plain readings, which
//! lane the player heads for, when input is accepted, which animation plays and
//! where the obstacles stand.

use vstd::prelude::*;

pub mod animation;
pub mod cooldown;
pub mod player;
pub mod terrain;

verus! {

/// Seed of the terrain noise.
pub const SEED: i32 = 23;

/// Number of parallel lanes on the terrain strip.
pub const LANES: i32 = 10;

/// Number of cells in each lane.
pub const MAX_OBSTACLES_PER_LANE: i32 = 100;

/// Width of one lane, in world units.
pub const LANES_WIDTH: i32 = 10;

/// Length of one cell along its lane, in world units.
pub const OBSTACLE_LENGTH: i32 = 50;

/// Height of one level of a block, in world units.
pub const OBSTACLE_HEIGHT: i32 = 3;

/// Most levels a block can have.
pub const MAX_OBSTACLE_STACK: i32 = 10;

/// Width of the terrain strip, in world units.
pub const TERRAIN_WIDTH: i32 = LANES_WIDTH * LANES;

/// Length of the terrain strip, in world units.
pub const TERRAIN_LENGTH: i32 = OBSTACLE_LENGTH * MAX_OBSTACLES_PER_LANE;

/// Time after an accepted input during which further input is ignored, in
/// milliseconds.
pub const MOVE_COOLDOWN_MILLIS: u64 = 200;

} // verus!

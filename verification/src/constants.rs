//! The fixed numeric tables of the game: field borders, ship handling values,
//! the asteroid size-class table, projectile speed and timer intervals.
//!
//! Scales: positions in nano-units (1_000_000_000 per world unit), linear
//! speeds in milli-units per second, angular speeds in milli-degrees per
//! second, drags in milli-per-millisecond, headings in nano-degrees.

use vstd::prelude::*;

verus! {

/// Nano-units per world unit: the position scale.
pub const POSITION_UNIT: i64 = 1_000_000_000;

/// Nano-degrees in one full turn; headings are kept in `[0, FULL_TURN)`.
pub const FULL_TURN: i64 = 360_000_000_000;

/// Every entity position stays well inside this bound on both axes
/// (nano-units); it keeps the integration sums inside `i64`.
pub const POSITION_BOUND: i64 = 2_000_000_000_000;

/// A direction component of 1.0 on the milli scale.
pub const DIRECTION_UNIT: i64 = 1000;

// The rectangular play field (nano-units).
pub const RIGHT_BORDER_POSITION: i64 = 400_000_000_000;
pub const LEFT_BORDER_POSITION: i64 = -400_000_000_000;
pub const TOP_BORDER_POSITION: i64 = 260_000_000_000;
pub const BOTTOM_BORDER_POSITION: i64 = -260_000_000_000;

// The larger offscreen rectangle; asteroids beyond it are recycled.
pub const RIGHT_BORDER_OFFSCREEN_POSITION: i64 = 460_000_000_000;
pub const LEFT_BORDER_OFFSCREEN_POSITION: i64 = -460_000_000_000;
pub const TOP_BORDER_OFFSCREEN_POSITION: i64 = 320_000_000_000;
pub const BOTTOM_BORDER_OFFSCREEN_POSITION: i64 = -320_000_000_000;

/// The perpendicular offset applied on screen-wrap and the inset used when
/// recycling an asteroid to a point just inside the offscreen rectangle
/// (10 world units, nano-units).
pub const BORDER_OFFSET: i64 = 10_000_000_000;

/// Initial spawns keep this distance from the field center on each axis
/// (50 world units, nano-units).
pub const CENTER_EXCLUSION: i64 = 50_000_000_000;

// Hero ship handling (speeds in milli-units/s, rotation in milli-deg/s,
// drags in milli per millisecond of tick time).
pub const HERO_SHIP_MOVEMENT_SPEED_DRAG: i64 = 100;
pub const HERO_SHIP_INCREMENTAL_MOVEMENT_SPEED: i64 = 3_000;
pub const HERO_SHIP_MAX_MOVEMENT_SPEED: i64 = 320_000;
pub const HERO_SHIP_ROTATION_SPEED_DRAG: i64 = 250;
pub const HERO_SHIP_INCREMENTAL_ROTATION_SPEED: i64 = 15_000;
pub const HERO_SHIP_MAX_ROTATION_SPEED: i64 = 360_000;

/// Collision radius of the hero ship (nano-units).
pub const HERO_SHIP_COLLIDER_BALL_SIZE: i64 = 5_000_000_000;

// Asteroid size-class table: collider radii (nano-units).
pub const INITIAL_BIG_ASTEROIDS_ONSCREEN: usize = 4;
pub const SMALL_ASTEROID_COLLIDER_BALL_SIZE: i64 = 5_500_000_000;
pub const MEDIUM_ASTEROID_COLLIDER_BALL_SIZE: i64 = 30_000_000_000;
pub const BIG_ASTEROID_COLLIDER_BALL_SIZE: i64 = 70_000_000_000;

// Asteroid size-class table: speeds (milli-units/s, milli-deg/s).
pub const SMALL_ASTEROID_MOVEMENT_SPEED: i64 = 175_000;
pub const SMALL_ASTEROID_ROTATION_SPEED: i64 = 150_000;
pub const MEDIUM_ASTEROID_MOVEMENT_SPEED: i64 = 145_000;
pub const MEDIUM_ASTEROID_ROTATION_SPEED: i64 = 100_000;
pub const BIG_ASTEROID_MOVEMENT_SPEED: i64 = 80_000;
pub const BIG_ASTEROID_ROTATION_SPEED: i64 = 40_000;

/// Projectile speed (milli-units/s).
pub const PROJECTILE_MOVEMENT_SPEED: i64 = 200_000;

/// Collision radius of a projectile (nano-units).
pub const PROJECTILE_COLLIDER_BALL_SIZE: i64 = 3_500_000_000;

// Score values per destroyed asteroid, and the periodic survival bonus.
pub const SMALL_ASTEROID_SCORE: usize = 50;
pub const MEDIUM_ASTEROID_SCORE: usize = 30;
pub const BIG_ASTEROID_SCORE: usize = 10;
pub const STILL_ALIVE_SCORE_BONUS: usize = 5;

/// Lives a session starts with.
pub const INITIAL_LIVES: usize = 3;

// Timer intervals (milliseconds).
pub const PROJECTILE_SPAWN_INTERVAL_MS: u64 = 200;
pub const HERO_SHIP_RESPAWN_INTERVAL_MS: u64 = 2_000;
pub const STILL_ALIVE_INTERVAL_MS: u64 = 10_000;

/// Upper bound on one tick's elapsed time (milliseconds); keeps every
/// integration product comfortably inside `i64`.
pub const MAX_TICK_MS: u64 = 1_000;

} // verus!

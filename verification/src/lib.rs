//! Simulation core of a single-screen arcade shooter: fixed-tick kinematics
//! for the hero ship, asteroids and projectiles, circle collision resolution
//! with split-on-destroy fan-out, score and lives bookkeeping, and the
//! top-level session state machine.
//!
//! All quantities are fixed-point integers so that every tick update is exact:
//! positions are measured in nano-units (one world unit is 1_000_000_000),
//! direction components in milli (1000 stands for 1.0), linear speeds in
//! milli-units per second, angular speeds in milli-degrees per second, and
//! headings in nano-degrees. A tick's elapsed time is a whole number of
//! milliseconds, so `speed * dt` lands exactly on the position scale and no
//! division is ever needed.

pub mod asteroid;
pub mod collision;
pub mod constants;
pub mod game;
pub mod hero_ship;
pub mod kinematics;
pub mod projectile;
pub mod rng;
pub mod seq_util;
pub mod session;
pub mod timer;

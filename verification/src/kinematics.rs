//! Position and rotation integration shared by the hero ship, asteroids and
//! projectiles: given a direction, a speed and the tick's elapsed time,
//! produce the next position or heading. Pure functions with exact contracts;
//! the fixed-point scales are chosen so the update is a plain multiplication.

use vstd::prelude::*;

use crate::constants::{
    BOTTOM_BORDER_OFFSCREEN_POSITION,
    DIRECTION_UNIT,
    FULL_TURN,
    HERO_SHIP_MAX_ROTATION_SPEED,
    LEFT_BORDER_OFFSCREEN_POSITION,
    MAX_TICK_MS,
    POSITION_BOUND,
    RIGHT_BORDER_OFFSCREEN_POSITION,
    TOP_BORDER_OFFSCREEN_POSITION,
};

verus! {

/// A two-dimensional fixed-point vector. Positions use the nano-unit scale,
/// directions the milli scale (1000 stands for 1.0).
#[derive(Clone, Copy, Debug, PartialEq, Eq, Structural)]
pub struct Vec2 {
    pub x: i64,
    pub y: i64,
}

/// A direction vector has both components within one unit on the milli scale.
pub open spec fn direction_bounded(d: Vec2) -> bool {
    &&& -DIRECTION_UNIT <= d.x <= DIRECTION_UNIT
    &&& -DIRECTION_UNIT <= d.y <= DIRECTION_UNIT
}

/// Positions stay within this window on both axes.
pub open spec fn position_bounded(p: Vec2) -> bool {
    &&& -POSITION_BOUND <= p.x <= POSITION_BOUND
    &&& -POSITION_BOUND <= p.y <= POSITION_BOUND
}

/// Linear speeds handled by the kinematics (milli-units per second).
pub open spec fn speed_bounded(s: int) -> bool {
    0 <= s <= 500_000
}

/// A position at or beyond the offscreen rectangle on at least one axis:
/// asteroids there are recycled, projectiles there are despawned.
pub open spec fn outside_offscreen(p: Vec2) -> bool {
    ||| p.x >= RIGHT_BORDER_OFFSCREEN_POSITION
    ||| p.x <= LEFT_BORDER_OFFSCREEN_POSITION
    ||| p.y >= TOP_BORDER_OFFSCREEN_POSITION
    ||| p.y <= BOTTOM_BORDER_OFFSCREEN_POSITION
}

/// A heading lies in `[0, FULL_TURN)` nano-degrees.
pub open spec fn heading_bounded(h: int) -> bool {
    0 <= h < FULL_TURN
}

/// Brings a heading that drifted by at most one full turn back into
/// `[0, FULL_TURN)`.
pub open spec fn wrap_turn(h: int) -> int {
    if h >= FULL_TURN {
        h - FULL_TURN
    } else if h < 0 {
        h + FULL_TURN
    } else {
        h
    }
}

/// The magnitude of a product is bounded by the product of the bounds.
pub proof fn lemma_mul_abs_bound(a: int, b: int, abound: int, bbound: int)
    requires
        0 <= abound,
        0 <= bbound,
        -abound <= a <= abound,
        -bbound <= b <= bbound,
    ensures
        -(abound * bbound) <= a * b <= abound * bbound,
{
    assert(-(abound * bbound) <= a * b <= abound * bbound) by (nonlinear_arith)
        requires
            0 <= abound,
            0 <= bbound,
            -abound <= a <= abound,
            -bbound <= b <= bbound,
    ;
}

/// Advances one position axis: `p + d * speed * dt`, exactly. With `d` on the
/// milli scale, the speed in milli-units/s and `dt` in milliseconds, the
/// product lands directly on the nano-unit position scale.
pub fn integrate_axis(p: i64, d: i64, movement_speed: i64, delta_ms: u64) -> (r: i64)
    requires
        -POSITION_BOUND <= p <= POSITION_BOUND,
        -DIRECTION_UNIT <= d <= DIRECTION_UNIT,
        speed_bounded(movement_speed as int),
        delta_ms <= MAX_TICK_MS,
    ensures
        r == p + d * movement_speed * delta_ms,
        -500_000_000_000 <= r - p <= 500_000_000_000,
        -POSITION_BOUND - 500_000_000_000 <= r <= POSITION_BOUND + 500_000_000_000,
{
    proof {
        lemma_mul_abs_bound(d as int, movement_speed as int, DIRECTION_UNIT as int, 500_000);
        lemma_mul_abs_bound(
            d as int * movement_speed as int,
            delta_ms as int,
            500_000_000,
            MAX_TICK_MS as int,
        );
    }
    p + d * movement_speed * (delta_ms as i64)
}

/// Advances a position along a stored direction vector, both axes exactly.
pub fn integrate_position(position: Vec2, direction: Vec2, movement_speed: i64, delta_ms: u64) -> (r: Vec2)
    requires
        position_bounded(position),
        direction_bounded(direction),
        speed_bounded(movement_speed as int),
        delta_ms <= MAX_TICK_MS,
    ensures
        r.x == position.x + direction.x * movement_speed * delta_ms,
        r.y == position.y + direction.y * movement_speed * delta_ms,
        -500_000_000_000 <= r.x - position.x <= 500_000_000_000,
        -500_000_000_000 <= r.y - position.y <= 500_000_000_000,
{
    Vec2 {
        x: integrate_axis(position.x, direction.x, movement_speed, delta_ms),
        y: integrate_axis(position.y, direction.y, movement_speed, delta_ms),
    }
}

/// Advances a heading by `rotation_direction * rotation_speed * dt` and wraps
/// it back into `[0, FULL_TURN)`. The turn sign (or an asteroid's spin
/// direction) is on the milli scale, the rotation speed in milli-deg/s, `dt`
/// in milliseconds, so the product is in nano-degrees and never exceeds one
/// full turn in magnitude.
pub fn integrate_rotation(heading: i64, rotation_direction: i64, rotation_speed: i64, delta_ms: u64) -> (r: i64)
    requires
        heading_bounded(heading as int),
        -DIRECTION_UNIT <= rotation_direction <= DIRECTION_UNIT,
        0 <= rotation_speed <= HERO_SHIP_MAX_ROTATION_SPEED,
        delta_ms <= MAX_TICK_MS,
    ensures
        r == wrap_turn(heading + rotation_direction * rotation_speed * delta_ms),
        heading_bounded(r as int),
{
    proof {
        lemma_mul_abs_bound(
            rotation_direction as int,
            rotation_speed as int,
            DIRECTION_UNIT as int,
            HERO_SHIP_MAX_ROTATION_SPEED as int,
        );
        lemma_mul_abs_bound(
            rotation_direction as int * rotation_speed as int,
            delta_ms as int,
            360_000_000,
            MAX_TICK_MS as int,
        );
    }
    let advanced: i64 = heading + rotation_direction * rotation_speed * (delta_ms as i64);
    if advanced >= FULL_TURN {
        advanced - FULL_TURN
    } else if advanced < 0 {
        advanced + FULL_TURN
    } else {
        advanced
    }
}

} // verus!

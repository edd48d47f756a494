//! The hero ship: turning, thrust, braking and passive drag evaluated in a
//! fixed per-tick order, screen-wrap at the field borders, rate-limited
//! firing, the respawn cycle after a hit, and the periodic still-alive bonus.

use vstd::prelude::*;

use crate::constants::{
    BORDER_OFFSET,
    BOTTOM_BORDER_POSITION,
    DIRECTION_UNIT,
    HERO_SHIP_INCREMENTAL_MOVEMENT_SPEED,
    HERO_SHIP_INCREMENTAL_ROTATION_SPEED,
    HERO_SHIP_MAX_MOVEMENT_SPEED,
    HERO_SHIP_MAX_ROTATION_SPEED,
    HERO_SHIP_MOVEMENT_SPEED_DRAG,
    HERO_SHIP_RESPAWN_INTERVAL_MS,
    HERO_SHIP_ROTATION_SPEED_DRAG,
    INITIAL_LIVES,
    LEFT_BORDER_POSITION,
    MAX_TICK_MS,
    POSITION_BOUND,
    RIGHT_BORDER_POSITION,
    STILL_ALIVE_INTERVAL_MS,
    STILL_ALIVE_SCORE_BONUS,
    TOP_BORDER_POSITION,
};
use crate::kinematics::{
    direction_bounded,
    heading_bounded,
    integrate_position,
    integrate_rotation,
    position_bounded,
    wrap_turn,
    Vec2,
};
use crate::constants::PROJECTILE_MOVEMENT_SPEED;
use crate::projectile::{Projectile, ProjectileSpawnTimer};
use crate::session::ScoreboardScore;
use crate::timer::{timer_after_tick, timer_wf, CountdownTimer};

verus! {

/// The player's per-tick input: held movement keys and the discrete
/// just-pressed edges that drive the session state machine.
#[derive(Clone, Copy, Debug, PartialEq, Eq, Structural)]
pub struct InputState {
    pub left_pressed: bool,
    pub right_pressed: bool,
    pub up_pressed: bool,
    pub down_pressed: bool,
    pub fire_pressed: bool,
    pub confirm_just_pressed: bool,
    pub cancel_just_pressed: bool,
}

impl InputState {
    /// No key held, no edge fired.
    pub fn idle() -> (r: InputState)
        ensures
            r == (InputState {
                left_pressed: false,
                right_pressed: false,
                up_pressed: false,
                down_pressed: false,
                fire_pressed: false,
                confirm_just_pressed: false,
                cancel_just_pressed: false,
            }),
    {
        InputState {
            left_pressed: false,
            right_pressed: false,
            up_pressed: false,
            down_pressed: false,
            fire_pressed: false,
            confirm_just_pressed: false,
            cancel_just_pressed: false,
        }
    }
}

/// The hero ship: its handling constants, current linear and angular speed,
/// kinematic state, and whether it is currently drawn and hittable
/// (hidden between destruction and respawn).
#[derive(Clone, Copy, Debug, PartialEq, Eq, Structural)]
pub struct HeroShip {
    pub movement_speed: i64,
    pub movement_speed_drag: i64,
    pub movement_speed_incrementation: i64,
    pub movement_speed_maximum: i64,
    pub rotation_speed: i64,
    pub rotation_speed_drag: i64,
    pub rotation_speed_incrementation: i64,
    pub rotation_speed_maximum: i64,
    pub translation: Vec2,
    pub heading: i64,
    pub visible: bool,
    pub collidable: bool,
}

/// The ship never rests farther from the field than the wrap offset: wrapping
/// re-establishes this window every tick.
pub open spec fn ship_position_in_window(p: Vec2) -> bool {
    &&& LEFT_BORDER_POSITION - BORDER_OFFSET <= p.x <= RIGHT_BORDER_POSITION + BORDER_OFFSET
    &&& BOTTOM_BORDER_POSITION - BORDER_OFFSET <= p.y <= TOP_BORDER_POSITION + BORDER_OFFSET
}

/// Well-formedness: the handling constants are the fixed table values and
/// both speeds lie between zero and their maxima.
pub open spec fn hero_ship_wf(s: HeroShip) -> bool {
    &&& s.movement_speed_drag == HERO_SHIP_MOVEMENT_SPEED_DRAG
    &&& s.movement_speed_incrementation == HERO_SHIP_INCREMENTAL_MOVEMENT_SPEED
    &&& s.movement_speed_maximum == HERO_SHIP_MAX_MOVEMENT_SPEED
    &&& s.rotation_speed_drag == HERO_SHIP_ROTATION_SPEED_DRAG
    &&& s.rotation_speed_incrementation == HERO_SHIP_INCREMENTAL_ROTATION_SPEED
    &&& s.rotation_speed_maximum == HERO_SHIP_MAX_ROTATION_SPEED
    &&& 0 <= s.movement_speed <= s.movement_speed_maximum
    &&& 0 <= s.rotation_speed <= s.rotation_speed_maximum
    &&& heading_bounded(s.heading as int)
}

impl Default for HeroShip {
    /// A fresh ship: at rest at the field center, pointing up, visible and
    /// hittable, with the fixed handling constants.
    fn default() -> (s: Self)
        ensures
            hero_ship_wf(s),
            s.movement_speed == 0,
            s.rotation_speed == 0,
            s.translation == (Vec2 { x: 0, y: 0 }),
            s.heading == 0,
            s.visible,
            s.collidable,
    {
        HeroShip {
            movement_speed: 0,
            movement_speed_drag: HERO_SHIP_MOVEMENT_SPEED_DRAG,
            movement_speed_incrementation: HERO_SHIP_INCREMENTAL_MOVEMENT_SPEED,
            movement_speed_maximum: HERO_SHIP_MAX_MOVEMENT_SPEED,
            rotation_speed: 0,
            rotation_speed_drag: HERO_SHIP_ROTATION_SPEED_DRAG,
            rotation_speed_incrementation: HERO_SHIP_INCREMENTAL_ROTATION_SPEED,
            rotation_speed_maximum: HERO_SHIP_MAX_ROTATION_SPEED,
            translation: Vec2 { x: 0, y: 0 },
            heading: 0,
            visible: true,
            collidable: true,
        }
    }
}

/// Builds the session's hero ship in its spawn state.
pub fn spawn_hero_ship() -> (s: HeroShip)
    ensures
        hero_ship_wf(s),
        s.movement_speed == 0,
        s.rotation_speed == 0,
        s.translation == (Vec2 { x: 0, y: 0 }),
        s.heading == 0,
        s.visible,
        s.collidable,
{
    HeroShip::default()
}

/// Lives remaining in the session; zero means the session is over.
#[derive(Clone, Copy, Debug, PartialEq, Eq, Structural)]
pub struct HeroShipRemainingLives {
    pub lives_remaining: usize,
}

impl Default for HeroShipRemainingLives {
    /// A session starts with the full set of lives.
    fn default() -> (l: Self)
        ensures
            l.lives_remaining == INITIAL_LIVES,
    {
        HeroShipRemainingLives { lives_remaining: INITIAL_LIVES }
    }
}

/// The delay between the ship being hit and reappearing at the center.
#[derive(Clone, Copy, Debug, PartialEq, Eq, Structural)]
pub struct HeroShipRespawnTimer(pub CountdownTimer);

impl Default for HeroShipRespawnTimer {
    /// The respawn delay at its full period.
    fn default() -> (t: Self)
        ensures
            timer_wf(t.0),
            t.0.interval == HERO_SHIP_RESPAWN_INTERVAL_MS,
            t.0.remaining == HERO_SHIP_RESPAWN_INTERVAL_MS,
            !t.0.just_finished,
    {
        HeroShipRespawnTimer(CountdownTimer::new(HERO_SHIP_RESPAWN_INTERVAL_MS))
    }
}

/// The period of the survival score bonus.
#[derive(Clone, Copy, Debug, PartialEq, Eq, Structural)]
pub struct HeroShipStillAliveTimer(pub CountdownTimer);

impl Default for HeroShipStillAliveTimer {
    /// The bonus period at its full length.
    fn default() -> (t: Self)
        ensures
            timer_wf(t.0),
            t.0.interval == STILL_ALIVE_INTERVAL_MS,
            t.0.remaining == STILL_ALIVE_INTERVAL_MS,
            !t.0.just_finished,
    {
        HeroShipStillAliveTimer(CountdownTimer::new(STILL_ALIVE_INTERVAL_MS))
    }
}

/// The shared turn sign this tick's kinematics use: right wins over left,
/// on the milli scale.
pub open spec fn turn_factor(input: InputState) -> int {
    if input.right_pressed {
        -DIRECTION_UNIT as int
    } else if input.left_pressed {
        DIRECTION_UNIT as int
    } else {
        0
    }
}

/// A speed incremented toward a maximum, capped there.
pub open spec fn clamped_increment(speed: int, increment: int, maximum: int) -> int {
    if speed + increment <= maximum {
        speed + increment
    } else {
        maximum
    }
}

/// A speed decremented toward zero, floored there (no sign inversion).
pub open spec fn dragged_toward_zero(speed: int, drag_per_ms: int, delta_ms: int) -> int {
    if speed - drag_per_ms * delta_ms >= 0 {
        speed - drag_per_ms * delta_ms
    } else {
        0
    }
}

/// The angular speed after the turn step: each held turn key increments it
/// toward the maximum.
pub open spec fn turned_rotation_speed(speed: int, input: InputState) -> int {
    let after_left = if input.left_pressed {
        clamped_increment(
            speed,
            HERO_SHIP_INCREMENTAL_ROTATION_SPEED as int,
            HERO_SHIP_MAX_ROTATION_SPEED as int,
        )
    } else {
        speed
    };
    if input.right_pressed {
        clamped_increment(
            after_left,
            HERO_SHIP_INCREMENTAL_ROTATION_SPEED as int,
            HERO_SHIP_MAX_ROTATION_SPEED as int,
        )
    } else {
        after_left
    }
}

/// The linear speed after the thrust step.
pub open spec fn boosted_movement_speed(speed: int, input: InputState) -> int {
    if input.up_pressed {
        clamped_increment(
            speed,
            HERO_SHIP_INCREMENTAL_MOVEMENT_SPEED as int,
            HERO_SHIP_MAX_MOVEMENT_SPEED as int,
        )
    } else {
        speed
    }
}

/// The linear speed after the brake step: decelerated toward zero only while
/// the brake key is held and the ship is moving.
pub open spec fn braked_movement_speed(speed: int, input: InputState, delta_ms: int) -> int {
    if input.down_pressed && speed > 0 {
        dragged_toward_zero(speed, HERO_SHIP_MOVEMENT_SPEED_DRAG as int, delta_ms)
    } else {
        speed
    }
}

/// The linear speed after passive drag: decelerated toward zero while thrust
/// is not held.
pub open spec fn passive_dragged_movement_speed(speed: int, input: InputState, delta_ms: int) -> int {
    if !input.up_pressed && speed > 0 {
        dragged_toward_zero(speed, HERO_SHIP_MOVEMENT_SPEED_DRAG as int, delta_ms)
    } else {
        speed
    }
}

/// The angular speed after passive drag: decelerated toward zero while
/// neither turn key is held.
pub open spec fn passive_dragged_rotation_speed(speed: int, input: InputState, delta_ms: int) -> int {
    if !input.left_pressed && !input.right_pressed && speed > 0 {
        dragged_toward_zero(speed, HERO_SHIP_ROTATION_SPEED_DRAG as int, delta_ms)
    } else {
        speed
    }
}

/// The ship as one whole controller step leaves it: turn, thrust and brake
/// applied to the speeds, rotation and position integrated with the results,
/// then passive drag on both speeds. Everything else is kept.
pub open spec fn ship_after_controller(
    s: HeroShip,
    input: InputState,
    movement_direction: Vec2,
    delta_ms: int,
) -> HeroShip {
    let rotation_after_turn = turned_rotation_speed(s.rotation_speed as int, input);
    let speed_after_input = braked_movement_speed(
        boosted_movement_speed(s.movement_speed as int, input),
        input,
        delta_ms,
    );
    HeroShip {
        movement_speed: passive_dragged_movement_speed(speed_after_input, input, delta_ms) as i64,
        rotation_speed: passive_dragged_rotation_speed(rotation_after_turn, input, delta_ms) as i64,
        translation: Vec2 {
            x: (s.translation.x + movement_direction.x * speed_after_input * delta_ms) as i64,
            y: (s.translation.y + movement_direction.y * speed_after_input * delta_ms) as i64,
        },
        heading: wrap_turn(s.heading + turn_factor(input) * rotation_after_turn * delta_ms) as i64,
        ..s
    }
}

/// The ship after the screen-wrap step: both axes judged against the entry
/// position, a crossed border teleports to the opposite one with the small
/// perpendicular offset.
pub open spec fn ship_after_wrap(s: HeroShip) -> HeroShip {
    let px = s.translation.x as int;
    let py = s.translation.y as int;
    let wrapped_x = if px >= RIGHT_BORDER_POSITION {
        LEFT_BORDER_POSITION as int
    } else if px <= LEFT_BORDER_POSITION {
        RIGHT_BORDER_POSITION as int
    } else {
        px
    };
    let shifted_y = if px >= RIGHT_BORDER_POSITION {
        py - BORDER_OFFSET
    } else if px <= LEFT_BORDER_POSITION {
        py + BORDER_OFFSET
    } else {
        py
    };
    let final_y = if py >= TOP_BORDER_POSITION {
        BOTTOM_BORDER_POSITION as int
    } else if py <= BOTTOM_BORDER_POSITION {
        TOP_BORDER_POSITION as int
    } else {
        shifted_y
    };
    let final_x = if py >= TOP_BORDER_POSITION {
        wrapped_x - BORDER_OFFSET
    } else if py <= BOTTOM_BORDER_POSITION {
        wrapped_x + BORDER_OFFSET
    } else {
        wrapped_x
    };
    HeroShip { translation: Vec2 { x: final_x as i64, y: final_y as i64 }, ..s }
}

/// The ship after the respawn step: a hidden ship whose delay just ran out
/// reappears at the center, hittable again; anything else is kept.
pub open spec fn ship_after_respawn(s: HeroShip, t: CountdownTimer, delta_ms: int) -> HeroShip {
    if s.visible {
        s
    } else if timer_after_tick(t, delta_ms).just_finished {
        HeroShip { translation: Vec2 { x: 0, y: 0 }, visible: true, collidable: true, ..s }
    } else {
        s
    }
}

/// The respawn delay after the respawn step: it counts down only while the
/// ship is hidden.
pub open spec fn respawn_timer_after(s: HeroShip, t: CountdownTimer, delta_ms: int) -> CountdownTimer {
    if s.visible {
        t
    } else {
        timer_after_tick(t, delta_ms)
    }
}

/// The projectile store after the fire step: while the fire key is held and
/// the cooldown just ran out and the ship is visible, one fresh projectile at
/// the ship's position along its forward direction; otherwise unchanged.
pub open spec fn projectiles_after_fire(
    s: Seq<Projectile>,
    t: CountdownTimer,
    ship: HeroShip,
    input: InputState,
    movement_direction: Vec2,
    delta_ms: int,
) -> Seq<Projectile> {
    if input.fire_pressed && timer_after_tick(t, delta_ms).just_finished && ship.visible {
        s.push(
            Projectile {
                translation: ship.translation,
                direction: movement_direction,
                movement_speed: PROJECTILE_MOVEMENT_SPEED,
                visible: false,
            },
        )
    } else {
        s
    }
}

/// The fire cooldown after the fire step: it counts down only while the fire
/// key is held.
pub open spec fn fire_timer_after(t: CountdownTimer, input: InputState, delta_ms: int) -> CountdownTimer {
    if input.fire_pressed {
        timer_after_tick(t, delta_ms)
    } else {
        t
    }
}

/// Turn step: bumps the angular speed for each held turn key and returns the
/// turn sign used by this tick's rotation integration.
pub fn set_hero_ship_rotation_factor(hero_ship_entity: &mut HeroShip, input: InputState) -> (factor: i64)
    requires
        hero_ship_wf(*old(hero_ship_entity)),
    ensures
        hero_ship_wf(*final(hero_ship_entity)),
        factor == turn_factor(input),
        -DIRECTION_UNIT <= factor <= DIRECTION_UNIT,
        final(hero_ship_entity).rotation_speed == turned_rotation_speed(
            old(hero_ship_entity).rotation_speed as int,
            input,
        ),
        *final(hero_ship_entity) == (HeroShip {
            rotation_speed: final(hero_ship_entity).rotation_speed,
            ..*old(hero_ship_entity)
        }),
{
    let mut factor: i64 = 0;
    if input.left_pressed {
        if hero_ship_entity.rotation_speed + hero_ship_entity.rotation_speed_incrementation
            <= hero_ship_entity.rotation_speed_maximum {
            hero_ship_entity.rotation_speed =
                hero_ship_entity.rotation_speed + hero_ship_entity.rotation_speed_incrementation;
        } else {
            hero_ship_entity.rotation_speed = hero_ship_entity.rotation_speed_maximum;
        }
        factor = DIRECTION_UNIT;
    }
    if input.right_pressed {
        if hero_ship_entity.rotation_speed + hero_ship_entity.rotation_speed_incrementation
            <= hero_ship_entity.rotation_speed_maximum {
            hero_ship_entity.rotation_speed =
                hero_ship_entity.rotation_speed + hero_ship_entity.rotation_speed_incrementation;
        } else {
            hero_ship_entity.rotation_speed = hero_ship_entity.rotation_speed_maximum;
        }
        factor = -DIRECTION_UNIT;
    }
    factor
}

/// Thrust step: while the thrust key is held the linear speed climbs toward
/// its maximum, capped there, never negative.
pub fn increase_hero_ship_movement_speed(hero_ship_entity: &mut HeroShip, input: InputState)
    requires
        hero_ship_wf(*old(hero_ship_entity)),
    ensures
        hero_ship_wf(*final(hero_ship_entity)),
        final(hero_ship_entity).movement_speed == boosted_movement_speed(
            old(hero_ship_entity).movement_speed as int,
            input,
        ),
        *final(hero_ship_entity) == (HeroShip {
            movement_speed: final(hero_ship_entity).movement_speed,
            ..*old(hero_ship_entity)
        }),
{
    if input.up_pressed {
        if hero_ship_entity.movement_speed + hero_ship_entity.movement_speed_incrementation
            <= hero_ship_entity.movement_speed_maximum {
            hero_ship_entity.movement_speed =
                hero_ship_entity.movement_speed + hero_ship_entity.movement_speed_incrementation;
        } else {
            hero_ship_entity.movement_speed = hero_ship_entity.movement_speed_maximum;
        }
    }
}

/// Brake step: while the brake key is held a moving ship decelerates toward
/// zero by the drag coefficient, floored at zero.
pub fn apply_brake_on_hero_ship_movement_speed(
    hero_ship_entity: &mut HeroShip,
    input: InputState,
    delta_ms: u64,
)
    requires
        hero_ship_wf(*old(hero_ship_entity)),
        delta_ms <= MAX_TICK_MS,
    ensures
        hero_ship_wf(*final(hero_ship_entity)),
        final(hero_ship_entity).movement_speed == braked_movement_speed(
            old(hero_ship_entity).movement_speed as int,
            input,
            delta_ms as int,
        ),
        *final(hero_ship_entity) == (HeroShip {
            movement_speed: final(hero_ship_entity).movement_speed,
            ..*old(hero_ship_entity)
        }),
{
    if input.down_pressed && hero_ship_entity.movement_speed > 0 {
        let decrement: i64 = hero_ship_entity.movement_speed_drag * (delta_ms as i64);
        if hero_ship_entity.movement_speed >= decrement {
            hero_ship_entity.movement_speed = hero_ship_entity.movement_speed - decrement;
        } else {
            hero_ship_entity.movement_speed = 0;
        }
    }
}

/// Passive linear drag: while thrust is not held a moving ship decelerates
/// toward zero, floored at zero.
pub fn apply_drag_on_hero_ship_movement_speed(
    hero_ship_entity: &mut HeroShip,
    input: InputState,
    delta_ms: u64,
)
    requires
        hero_ship_wf(*old(hero_ship_entity)),
        delta_ms <= MAX_TICK_MS,
    ensures
        hero_ship_wf(*final(hero_ship_entity)),
        final(hero_ship_entity).movement_speed == passive_dragged_movement_speed(
            old(hero_ship_entity).movement_speed as int,
            input,
            delta_ms as int,
        ),
        *final(hero_ship_entity) == (HeroShip {
            movement_speed: final(hero_ship_entity).movement_speed,
            ..*old(hero_ship_entity)
        }),
{
    if !input.up_pressed && hero_ship_entity.movement_speed > 0 {
        let decrement: i64 = hero_ship_entity.movement_speed_drag * (delta_ms as i64);
        if hero_ship_entity.movement_speed >= decrement {
            hero_ship_entity.movement_speed = hero_ship_entity.movement_speed - decrement;
        } else {
            hero_ship_entity.movement_speed = 0;
        }
    }
}

/// Passive angular drag: while neither turn key is held a turning ship's
/// angular speed decays toward zero, floored at zero.
pub fn apply_drag_on_hero_ship_rotation_speed(
    hero_ship_entity: &mut HeroShip,
    input: InputState,
    delta_ms: u64,
)
    requires
        hero_ship_wf(*old(hero_ship_entity)),
        delta_ms <= MAX_TICK_MS,
    ensures
        hero_ship_wf(*final(hero_ship_entity)),
        final(hero_ship_entity).rotation_speed == passive_dragged_rotation_speed(
            old(hero_ship_entity).rotation_speed as int,
            input,
            delta_ms as int,
        ),
        *final(hero_ship_entity) == (HeroShip {
            rotation_speed: final(hero_ship_entity).rotation_speed,
            ..*old(hero_ship_entity)
        }),
{
    if !input.left_pressed && !input.right_pressed && hero_ship_entity.rotation_speed > 0 {
        let decrement: i64 = hero_ship_entity.rotation_speed_drag * (delta_ms as i64);
        if hero_ship_entity.rotation_speed >= decrement {
            hero_ship_entity.rotation_speed = hero_ship_entity.rotation_speed - decrement;
        } else {
            hero_ship_entity.rotation_speed = 0;
        }
    }
}

/// One tick of the ship controller, in the fixed order the design demands:
/// turn, thrust, brake, integrate rotation then position along the given
/// forward direction, then passive drag on both speeds. The forward direction
/// is the unit vector of the ship's heading, supplied by the caller on the
/// milli scale.
pub fn set_hero_ship_movement_and_rotation(
    hero_ship_entity: &mut HeroShip,
    input: InputState,
    movement_direction: Vec2,
    delta_ms: u64,
)
    requires
        hero_ship_wf(*old(hero_ship_entity)),
        position_bounded(old(hero_ship_entity).translation),
        direction_bounded(movement_direction),
        delta_ms <= MAX_TICK_MS,
    ensures
        hero_ship_wf(*final(hero_ship_entity)),
        ({
            let rotation_after_turn = turned_rotation_speed(
                old(hero_ship_entity).rotation_speed as int,
                input,
            );
            let speed_after_input = braked_movement_speed(
                boosted_movement_speed(old(hero_ship_entity).movement_speed as int, input),
                input,
                delta_ms as int,
            );
            &&& final(hero_ship_entity).heading == wrap_turn(
                old(hero_ship_entity).heading + turn_factor(input) * rotation_after_turn * delta_ms,
            )
            &&& final(hero_ship_entity).translation.x == old(hero_ship_entity).translation.x
                + movement_direction.x * speed_after_input * delta_ms
            &&& final(hero_ship_entity).translation.y == old(hero_ship_entity).translation.y
                + movement_direction.y * speed_after_input * delta_ms
            &&& final(hero_ship_entity).movement_speed == passive_dragged_movement_speed(
                speed_after_input,
                input,
                delta_ms as int,
            )
            &&& final(hero_ship_entity).rotation_speed == passive_dragged_rotation_speed(
                rotation_after_turn,
                input,
                delta_ms as int,
            )
        }),
        final(hero_ship_entity).visible == old(hero_ship_entity).visible,
        final(hero_ship_entity).collidable == old(hero_ship_entity).collidable,
        -500_000_000_000 <= final(hero_ship_entity).translation.x
            - old(hero_ship_entity).translation.x <= 500_000_000_000,
        -500_000_000_000 <= final(hero_ship_entity).translation.y
            - old(hero_ship_entity).translation.y <= 500_000_000_000,
        *final(hero_ship_entity) == ship_after_controller(
            *old(hero_ship_entity),
            input,
            movement_direction,
            delta_ms as int,
        ),
{
    let factor: i64 = set_hero_ship_rotation_factor(hero_ship_entity, input);
    increase_hero_ship_movement_speed(hero_ship_entity, input);
    apply_brake_on_hero_ship_movement_speed(hero_ship_entity, input, delta_ms);

    hero_ship_entity.heading = integrate_rotation(
        hero_ship_entity.heading,
        factor,
        hero_ship_entity.rotation_speed,
        delta_ms,
    );
    hero_ship_entity.translation = integrate_position(
        hero_ship_entity.translation,
        movement_direction,
        hero_ship_entity.movement_speed,
        delta_ms,
    );

    apply_drag_on_hero_ship_movement_speed(hero_ship_entity, input, delta_ms);
    apply_drag_on_hero_ship_rotation_speed(hero_ship_entity, input, delta_ms);
}

/// Screen-wrap: a ship beyond a border reappears at the opposite border,
/// shifted by the small perpendicular offset; the orthogonal axis is changed
/// by nothing else. Both axes are judged against the position read before
/// any wrapping.
pub fn set_hero_ship_position_after_border_outbounds(hero_ship_entity: &mut HeroShip)
    requires
        -POSITION_BOUND - 500_000_000_000 <= old(hero_ship_entity).translation.x
            <= POSITION_BOUND + 500_000_000_000,
        -POSITION_BOUND - 500_000_000_000 <= old(hero_ship_entity).translation.y
            <= POSITION_BOUND + 500_000_000_000,
    ensures
        ({
            let px = old(hero_ship_entity).translation.x as int;
            let py = old(hero_ship_entity).translation.y as int;
            let wrapped_x = if px >= RIGHT_BORDER_POSITION {
                LEFT_BORDER_POSITION as int
            } else if px <= LEFT_BORDER_POSITION {
                RIGHT_BORDER_POSITION as int
            } else {
                px
            };
            let shifted_y = if px >= RIGHT_BORDER_POSITION {
                py - BORDER_OFFSET
            } else if px <= LEFT_BORDER_POSITION {
                py + BORDER_OFFSET
            } else {
                py
            };
            let final_y = if py >= TOP_BORDER_POSITION {
                BOTTOM_BORDER_POSITION as int
            } else if py <= BOTTOM_BORDER_POSITION {
                TOP_BORDER_POSITION as int
            } else {
                shifted_y
            };
            let final_x = if py >= TOP_BORDER_POSITION {
                wrapped_x - BORDER_OFFSET
            } else if py <= BOTTOM_BORDER_POSITION {
                wrapped_x + BORDER_OFFSET
            } else {
                wrapped_x
            };
            &&& final(hero_ship_entity).translation.x == final_x
            &&& final(hero_ship_entity).translation.y == final_y
        }),
        *final(hero_ship_entity) == (HeroShip {
            translation: final(hero_ship_entity).translation,
            ..*old(hero_ship_entity)
        }),
        ship_position_in_window(final(hero_ship_entity).translation),
        *final(hero_ship_entity) == ship_after_wrap(*old(hero_ship_entity)),
{
    let hero_ship_position_x: i64 = hero_ship_entity.translation.x;
    let hero_ship_position_y: i64 = hero_ship_entity.translation.y;

    if hero_ship_position_x >= RIGHT_BORDER_POSITION {
        hero_ship_entity.translation.x = LEFT_BORDER_POSITION;
        hero_ship_entity.translation.y = hero_ship_entity.translation.y - BORDER_OFFSET;
    } else if hero_ship_position_x <= LEFT_BORDER_POSITION {
        hero_ship_entity.translation.x = RIGHT_BORDER_POSITION;
        hero_ship_entity.translation.y = hero_ship_entity.translation.y + BORDER_OFFSET;
    }

    if hero_ship_position_y >= TOP_BORDER_POSITION {
        hero_ship_entity.translation.y = BOTTOM_BORDER_POSITION;
        hero_ship_entity.translation.x = hero_ship_entity.translation.x - BORDER_OFFSET;
    } else if hero_ship_position_y <= BOTTOM_BORDER_POSITION {
        hero_ship_entity.translation.y = TOP_BORDER_POSITION;
        hero_ship_entity.translation.x = hero_ship_entity.translation.x + BORDER_OFFSET;
    }
}

/// Respawn cycle: while the ship is hidden the respawn delay counts down;
/// when it elapses the ship reappears at the field center with collisions
/// re-enabled. A visible ship and its timer are untouched.
pub fn respawn_hero_ship_on_demand(
    hero_ship_entity: &mut HeroShip,
    hero_ship_respawn_timer: &mut HeroShipRespawnTimer,
    delta_ms: u64,
)
    requires
        hero_ship_wf(*old(hero_ship_entity)),
        timer_wf(old(hero_ship_respawn_timer).0),
    ensures
        hero_ship_wf(*final(hero_ship_entity)),
        timer_wf(final(hero_ship_respawn_timer).0),
        old(hero_ship_entity).visible ==> {
            &&& *final(hero_ship_entity) == *old(hero_ship_entity)
            &&& *final(hero_ship_respawn_timer) == *old(hero_ship_respawn_timer)
        },
        !old(hero_ship_entity).visible ==> {
            &&& final(hero_ship_respawn_timer).0.interval == old(hero_ship_respawn_timer).0.interval
            &&& final(hero_ship_respawn_timer).0.just_finished == (delta_ms
                >= old(hero_ship_respawn_timer).0.remaining)
            &&& if final(hero_ship_respawn_timer).0.just_finished {
                *final(hero_ship_entity) == (HeroShip {
                    translation: Vec2 { x: 0, y: 0 },
                    visible: true,
                    collidable: true,
                    ..*old(hero_ship_entity)
                })
            } else {
                *final(hero_ship_entity) == *old(hero_ship_entity)
            }
        },
        *final(hero_ship_entity) == ship_after_respawn(
            *old(hero_ship_entity),
            old(hero_ship_respawn_timer).0,
            delta_ms as int,
        ),
        final(hero_ship_respawn_timer).0 == respawn_timer_after(
            *old(hero_ship_entity),
            old(hero_ship_respawn_timer).0,
            delta_ms as int,
        ),
{
    if !hero_ship_entity.visible {
        hero_ship_respawn_timer.0.tick(delta_ms);
        if hero_ship_respawn_timer.0.just_finished {
            hero_ship_entity.translation = Vec2 { x: 0, y: 0 };
            hero_ship_entity.visible = true;
            hero_ship_entity.collidable = true;
        }
    }
}

/// Fire control: while the fire key is held the cooldown counts down; when it
/// elapses and the ship is visible, exactly one projectile spawns at the
/// ship's position along its forward direction. Firing is suppressed while
/// the ship is hidden, and the cooldown does not run while the key is up.
pub fn hero_ship_fire_projectile(
    hero_ship_entity: &HeroShip,
    projectiles: &mut Vec<Projectile>,
    projectile_spawn_timer: &mut ProjectileSpawnTimer,
    input: InputState,
    movement_direction: Vec2,
    delta_ms: u64,
)
    requires
        timer_wf(old(projectile_spawn_timer).0),
        direction_bounded(movement_direction),
    ensures
        timer_wf(final(projectile_spawn_timer).0),
        !input.fire_pressed ==> {
            &&& *final(projectile_spawn_timer) == *old(projectile_spawn_timer)
            &&& final(projectiles)@ == old(projectiles)@
        },
        input.fire_pressed ==> {
            &&& final(projectile_spawn_timer).0.interval == old(projectile_spawn_timer).0.interval
            &&& final(projectile_spawn_timer).0.just_finished == (delta_ms
                >= old(projectile_spawn_timer).0.remaining)
            &&& if final(projectile_spawn_timer).0.just_finished && hero_ship_entity.visible {
                final(projectiles)@ == old(projectiles)@.push(
                    Projectile {
                        translation: hero_ship_entity.translation,
                        direction: movement_direction,
                        movement_speed: PROJECTILE_MOVEMENT_SPEED,
                        visible: false,
                    },
                )
            } else {
                final(projectiles)@ == old(projectiles)@
            }
        },
        final(projectiles)@ == projectiles_after_fire(
            old(projectiles)@,
            old(projectile_spawn_timer).0,
            *hero_ship_entity,
            input,
            movement_direction,
            delta_ms as int,
        ),
        final(projectile_spawn_timer).0 == fire_timer_after(
            old(projectile_spawn_timer).0,
            input,
            delta_ms as int,
        ),
{
    if input.fire_pressed {
        projectile_spawn_timer.0.tick(delta_ms);
        if projectile_spawn_timer.0.just_finished && hero_ship_entity.visible {
            Projectile::spawn_projectile(
                projectiles,
                hero_ship_entity.translation,
                movement_direction,
            );
        }
    }
}

/// Survival bonus: the still-alive period counts down every gameplay tick;
/// each time it elapses the score grows by the fixed bonus.
pub fn dynamic_hero_ship_still_alive_check(
    hero_ship_still_alive_timer: &mut HeroShipStillAliveTimer,
    scoreboard_score: &mut ScoreboardScore,
    delta_ms: u64,
)
    requires
        timer_wf(old(hero_ship_still_alive_timer).0),
        old(scoreboard_score).score <= usize::MAX - STILL_ALIVE_SCORE_BONUS,
    ensures
        timer_wf(final(hero_ship_still_alive_timer).0),
        final(hero_ship_still_alive_timer).0.interval == old(hero_ship_still_alive_timer).0.interval,
        final(hero_ship_still_alive_timer).0.just_finished == (delta_ms
            >= old(hero_ship_still_alive_timer).0.remaining),
        final(scoreboard_score).score == if final(hero_ship_still_alive_timer).0.just_finished {
            old(scoreboard_score).score + STILL_ALIVE_SCORE_BONUS
        } else {
            old(scoreboard_score).score as int
        },
        final(hero_ship_still_alive_timer).0 == timer_after_tick(
            old(hero_ship_still_alive_timer).0,
            delta_ms as int,
        ),
{
    hero_ship_still_alive_timer.0.tick(delta_ms);
    if hero_ship_still_alive_timer.0.just_finished {
        scoreboard_score.score = scoreboard_score.score + STILL_ALIVE_SCORE_BONUS;
    }
}

} // verus!

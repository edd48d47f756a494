//! Asteroids: the size-class table, spawning at session start, the
//! split-on-destroy fan-out, per-tick drift, and off-field recycling.
//!
//! The invariant of the whole module is that an asteroid's speed, spin rate
//! and collider radius are exactly the values its size class fixes; they are
//! set at spawn and never mutated afterwards.

use vstd::prelude::*;

use crate::constants::{
    BIG_ASTEROID_COLLIDER_BALL_SIZE,
    BIG_ASTEROID_MOVEMENT_SPEED,
    BIG_ASTEROID_ROTATION_SPEED,
    BORDER_OFFSET,
    BOTTOM_BORDER_OFFSCREEN_POSITION,
    BOTTOM_BORDER_POSITION,
    CENTER_EXCLUSION,
    DIRECTION_UNIT,
    INITIAL_BIG_ASTEROIDS_ONSCREEN,
    LEFT_BORDER_OFFSCREEN_POSITION,
    LEFT_BORDER_POSITION,
    MAX_TICK_MS,
    MEDIUM_ASTEROID_COLLIDER_BALL_SIZE,
    MEDIUM_ASTEROID_MOVEMENT_SPEED,
    MEDIUM_ASTEROID_ROTATION_SPEED,
    POSITION_BOUND,
    RIGHT_BORDER_OFFSCREEN_POSITION,
    RIGHT_BORDER_POSITION,
    SMALL_ASTEROID_COLLIDER_BALL_SIZE,
    SMALL_ASTEROID_MOVEMENT_SPEED,
    SMALL_ASTEROID_ROTATION_SPEED,
    TOP_BORDER_OFFSCREEN_POSITION,
    TOP_BORDER_POSITION,
};
use crate::kinematics::{
    direction_bounded,
    heading_bounded,
    integrate_position,
    integrate_rotation,
    outside_offscreen,
    position_bounded,
    wrap_turn,
    Vec2,
};
use crate::rng::random_in_range;

verus! {

/// The four sides an asteroid can re-enter the field from.
#[derive(Clone, Copy, Debug, PartialEq, Eq, Structural)]
pub enum BorderSide {
    Right,
    Left,
    Top,
    Bottom,
}

impl BorderSide {
    /// Picks one of the four sides at random.
    pub fn get_randomic_border_side() -> Self {
        let randomic_border_side: i64 = random_in_range(1, 4);
        match randomic_border_side {
            1 => Self::Right,
            2 => Self::Left,
            3 => Self::Top,
            _ => Self::Bottom,
        }
    }
}

/// The closed set of asteroid size classes, ordered by descending collider
/// radius and ascending speed and score value.
#[derive(Clone, Copy, Debug, PartialEq, Eq, Hash, Structural)]
pub enum AsteroidType {
    Small,
    Medium,
    Big,
}

/// Size-class table: linear speed (milli-units/s).
pub open spec fn movement_speed_of(t: AsteroidType) -> i64 {
    match t {
        AsteroidType::Small => SMALL_ASTEROID_MOVEMENT_SPEED,
        AsteroidType::Medium => MEDIUM_ASTEROID_MOVEMENT_SPEED,
        AsteroidType::Big => BIG_ASTEROID_MOVEMENT_SPEED,
    }
}

/// Size-class table: spin rate (milli-deg/s).
pub open spec fn rotation_speed_of(t: AsteroidType) -> i64 {
    match t {
        AsteroidType::Small => SMALL_ASTEROID_ROTATION_SPEED,
        AsteroidType::Medium => MEDIUM_ASTEROID_ROTATION_SPEED,
        AsteroidType::Big => BIG_ASTEROID_ROTATION_SPEED,
    }
}

/// Size-class table: collider radius (nano-units).
pub open spec fn collider_ball_size_of(t: AsteroidType) -> i64 {
    match t {
        AsteroidType::Small => SMALL_ASTEROID_COLLIDER_BALL_SIZE,
        AsteroidType::Medium => MEDIUM_ASTEROID_COLLIDER_BALL_SIZE,
        AsteroidType::Big => BIG_ASTEROID_COLLIDER_BALL_SIZE,
    }
}

/// Size-class table: fragments spawned when an asteroid of this class is
/// destroyed.
pub open spec fn split_count_of(t: AsteroidType) -> int {
    match t {
        AsteroidType::Small => 0,
        AsteroidType::Medium => 5,
        AsteroidType::Big => 3,
    }
}

/// Size class of the fragments of a destroyed asteroid. A Small asteroid
/// spawns no fragments, so its child class is never used.
pub open spec fn split_child_of(t: AsteroidType) -> AsteroidType {
    match t {
        AsteroidType::Small => AsteroidType::Small,
        AsteroidType::Medium => AsteroidType::Small,
        AsteroidType::Big => AsteroidType::Medium,
    }
}

/// One asteroid: its size class, the physical constants that class fixes,
/// a fixed random drift direction and spin, and its kinematic state.
#[derive(Clone, Copy, Debug, PartialEq, Eq, Structural)]
pub struct Asteroid {
    pub asteroid_type: AsteroidType,
    pub collider_ball_size: i64,
    pub movement_speed: i64,
    pub movement_direction: Vec2,
    pub rotation_speed: i64,
    pub rotation_direction: i64,
    pub translation: Vec2,
    pub heading: i64,
}

/// Well-formedness: the physical constants equal the size-class table's
/// values, and direction, spin and heading are on their scales.
pub open spec fn asteroid_wf(a: Asteroid) -> bool {
    &&& a.movement_speed == movement_speed_of(a.asteroid_type)
    &&& a.rotation_speed == rotation_speed_of(a.asteroid_type)
    &&& a.collider_ball_size == collider_ball_size_of(a.asteroid_type)
    &&& direction_bounded(a.movement_direction)
    &&& -DIRECTION_UNIT <= a.rotation_direction <= DIRECTION_UNIT
    &&& heading_bounded(a.heading as int)
}

/// A re-entry point: on one side band just inside the offscreen rectangle,
/// strictly outside the inner field, level with the visible field on the
/// other axis.
pub open spec fn recycled_position(p: Vec2) -> bool {
    ||| (p.x == RIGHT_BORDER_OFFSCREEN_POSITION - BORDER_OFFSET
        && BOTTOM_BORDER_POSITION <= p.y <= TOP_BORDER_POSITION)
    ||| (p.x == LEFT_BORDER_OFFSCREEN_POSITION + BORDER_OFFSET
        && BOTTOM_BORDER_POSITION <= p.y <= TOP_BORDER_POSITION)
    ||| (p.y == TOP_BORDER_OFFSCREEN_POSITION - BORDER_OFFSET
        && LEFT_BORDER_POSITION <= p.x <= RIGHT_BORDER_POSITION)
    ||| (p.y == BOTTOM_BORDER_OFFSCREEN_POSITION + BORDER_OFFSET
        && LEFT_BORDER_POSITION <= p.x <= RIGHT_BORDER_POSITION)
}

/// After recycling, the drift points back toward the field interior on the
/// axis of the re-entry side, with a free lateral component.
pub open spec fn reentry_direction_ok(p: Vec2, d: Vec2) -> bool {
    &&& p.x == RIGHT_BORDER_OFFSCREEN_POSITION - BORDER_OFFSET ==> d.x == -DIRECTION_UNIT
    &&& p.x == LEFT_BORDER_OFFSCREEN_POSITION + BORDER_OFFSET ==> d.x == DIRECTION_UNIT
    &&& p.y == TOP_BORDER_OFFSCREEN_POSITION - BORDER_OFFSET ==> d.y == -DIRECTION_UNIT
    &&& p.y == BOTTOM_BORDER_OFFSCREEN_POSITION + BORDER_OFFSET ==> d.y == DIRECTION_UNIT
}

/// One asteroid one drift step later: the position advanced along the stored
/// drift at the class speed, the heading by the spin; everything else kept.
pub open spec fn asteroid_after_movement(a: Asteroid, delta_ms: int) -> Asteroid {
    Asteroid {
        translation: Vec2 {
            x: (a.translation.x + a.movement_direction.x * a.movement_speed * delta_ms) as i64,
            y: (a.translation.y + a.movement_direction.y * a.movement_speed * delta_ms) as i64,
        },
        heading: wrap_turn(a.heading + a.rotation_direction * a.rotation_speed * delta_ms) as i64,
        ..a
    }
}

/// The whole asteroid store one drift step later, in order.
pub open spec fn asteroids_after_movement(s: Seq<Asteroid>, delta_ms: int) -> Seq<Asteroid> {
    Seq::new(s.len(), |i: int| asteroid_after_movement(s[i], delta_ms))
}

/// What the recycle step may do to one asteroid: an asteroid at or beyond
/// the offscreen rectangle moves to a re-entry band with its drift turned
/// back toward the interior (the exact point and lateral drift are random);
/// any other asteroid is untouched. Class, constants, spin and heading are
/// kept either way.
pub open spec fn recycle_step_ok(a: Asteroid, b: Asteroid) -> bool {
    &&& b.asteroid_type == a.asteroid_type
    &&& b.collider_ball_size == a.collider_ball_size
    &&& b.movement_speed == a.movement_speed
    &&& b.rotation_speed == a.rotation_speed
    &&& b.rotation_direction == a.rotation_direction
    &&& b.heading == a.heading
    &&& direction_bounded(b.movement_direction)
    &&& if outside_offscreen(a.translation) {
        &&& recycled_position(b.translation)
        &&& reentry_direction_ok(b.translation, b.movement_direction)
    } else {
        b == a
    }
}

/// The recycle step's whole outcome: positionwise related by
/// `recycle_step_ok`.
pub open spec fn recycled_from(s: Seq<Asteroid>, r: Seq<Asteroid>) -> bool {
    &&& r.len() == s.len()
    &&& forall|i: int| 0 <= i < s.len() ==> recycle_step_ok(s[i], #[trigger] r[i])
}

/// A well-formed asteroid's speed, spin rate and collider radius are exactly
/// the values its size class's lookup table specifies; every constructor
/// establishes this and every update preserves it.
pub proof fn lemma_asteroid_table(a: Asteroid)
    requires
        asteroid_wf(a),
    ensures
        a.movement_speed == movement_speed_of(a.asteroid_type),
        a.rotation_speed == rotation_speed_of(a.asteroid_type),
        a.collider_ball_size == collider_ball_size_of(a.asteroid_type),
{
}

/// The split table: destroying one Big asteroid yields exactly three Medium
/// fragments, one Medium yields exactly five Small, one Small yields none.
pub proof fn lemma_split_fanout()
    ensures
        split_count_of(AsteroidType::Big) == 3,
        split_child_of(AsteroidType::Big) == AsteroidType::Medium,
        split_count_of(AsteroidType::Medium) == 5,
        split_child_of(AsteroidType::Medium) == AsteroidType::Small,
        split_count_of(AsteroidType::Small) == 0,
{
}

impl Asteroid {
    /// Builds an asteroid of the given size class at the given position,
    /// taking speed, spin rate and collider radius from the class table and
    /// drawing an independent random drift direction and spin direction.
    pub fn initialize_asteroid_based_on_type(asteroid_type: AsteroidType, translation: Vec2) -> (a: Asteroid)
        ensures
            asteroid_wf(a),
            a.asteroid_type == asteroid_type,
            a.translation == translation,
            a.heading == 0,
    {
        let movement_direction: Vec2 = Vec2 {
            x: random_in_range(-DIRECTION_UNIT, DIRECTION_UNIT),
            y: random_in_range(-DIRECTION_UNIT, DIRECTION_UNIT),
        };
        let rotation_direction: i64 = random_in_range(-DIRECTION_UNIT, DIRECTION_UNIT);
        match asteroid_type {
            AsteroidType::Small => Asteroid {
                asteroid_type,
                collider_ball_size: SMALL_ASTEROID_COLLIDER_BALL_SIZE,
                movement_speed: SMALL_ASTEROID_MOVEMENT_SPEED,
                movement_direction,
                rotation_speed: SMALL_ASTEROID_ROTATION_SPEED,
                rotation_direction,
                translation,
                heading: 0,
            },
            AsteroidType::Medium => Asteroid {
                asteroid_type,
                collider_ball_size: MEDIUM_ASTEROID_COLLIDER_BALL_SIZE,
                movement_speed: MEDIUM_ASTEROID_MOVEMENT_SPEED,
                movement_direction,
                rotation_speed: MEDIUM_ASTEROID_ROTATION_SPEED,
                rotation_direction,
                translation,
                heading: 0,
            },
            AsteroidType::Big => Asteroid {
                asteroid_type,
                collider_ball_size: BIG_ASTEROID_COLLIDER_BALL_SIZE,
                movement_speed: BIG_ASTEROID_MOVEMENT_SPEED,
                movement_direction,
                rotation_speed: BIG_ASTEROID_ROTATION_SPEED,
                rotation_direction,
                translation,
                heading: 0,
            },
        }
    }
}

/// Appends one asteroid of the given size class at the given position; the
/// asteroids already present are untouched.
pub fn spawn_asteroids(
    asteroids: &mut Vec<Asteroid>,
    asteroid_type: AsteroidType,
    position_x: i64,
    position_y: i64,
)
    ensures
        final(asteroids)@.len() == old(asteroids)@.len() + 1,
        forall|i: int| 0 <= i < old(asteroids)@.len() ==> final(asteroids)@[i] == old(asteroids)@[i],
        asteroid_wf(final(asteroids)@.last()),
        final(asteroids)@.last().asteroid_type == asteroid_type,
        final(asteroids)@.last().translation == (Vec2 { x: position_x, y: position_y }),
{
    let a: Asteroid = Asteroid::initialize_asteroid_based_on_type(
        asteroid_type,
        Vec2 { x: position_x, y: position_y },
    );
    asteroids.push(a);
}

/// Draws a coordinate in `[position_initial_range, position_final_range]`
/// that keeps clear of the field center by `CENTER_EXCLUSION`.
pub fn get_randomic_asteroid_onscreen_position(
    position_initial_range: i64,
    position_final_range: i64,
) -> (r: i64)
    requires
        position_initial_range <= -CENTER_EXCLUSION,
        CENTER_EXCLUSION <= position_final_range,
    ensures
        position_initial_range <= r <= position_final_range,
        r >= CENTER_EXCLUSION || r <= -CENTER_EXCLUSION,
{
    let side: i64 = random_in_range(0, 1);
    if side == 0 {
        random_in_range(CENTER_EXCLUSION, position_final_range)
    } else {
        random_in_range(position_initial_range, -CENTER_EXCLUSION)
    }
}

/// Spawns the session-start population: `INITIAL_BIG_ASTEROIDS_ONSCREEN` Big
/// asteroids at random field positions that avoid the center region on both
/// axes.
pub fn spawn_initial_asteroids(asteroids: &mut Vec<Asteroid>)
    ensures
        final(asteroids)@.len() == old(asteroids)@.len() + INITIAL_BIG_ASTEROIDS_ONSCREEN,
        forall|i: int| 0 <= i < old(asteroids)@.len() ==> final(asteroids)@[i] == old(asteroids)@[i],
        forall|i: int|
            old(asteroids)@.len() <= i < final(asteroids)@.len() ==> {
                let a = #[trigger] final(asteroids)@[i];
                &&& asteroid_wf(a)
                &&& a.asteroid_type == AsteroidType::Big
                &&& LEFT_BORDER_POSITION <= a.translation.x <= RIGHT_BORDER_POSITION
                &&& BOTTOM_BORDER_POSITION <= a.translation.y <= TOP_BORDER_POSITION
                &&& (a.translation.x >= CENTER_EXCLUSION || a.translation.x <= -CENTER_EXCLUSION)
                &&& (a.translation.y >= CENTER_EXCLUSION || a.translation.y <= -CENTER_EXCLUSION)
            },
{
    let ghost initial: Seq<Asteroid> = asteroids@;
    let mut spawned: usize = 0;
    while spawned < INITIAL_BIG_ASTEROIDS_ONSCREEN
        invariant
            spawned <= INITIAL_BIG_ASTEROIDS_ONSCREEN,
            asteroids@.len() == initial.len() + spawned,
            forall|i: int| 0 <= i < initial.len() ==> asteroids@[i] == initial[i],
            forall|i: int|
                initial.len() <= i < asteroids@.len() ==> {
                    let a = #[trigger] asteroids@[i];
                    &&& asteroid_wf(a)
                    &&& a.asteroid_type == AsteroidType::Big
                    &&& LEFT_BORDER_POSITION <= a.translation.x <= RIGHT_BORDER_POSITION
                    &&& BOTTOM_BORDER_POSITION <= a.translation.y <= TOP_BORDER_POSITION
                    &&& (a.translation.x >= CENTER_EXCLUSION || a.translation.x <= -CENTER_EXCLUSION)
                    &&& (a.translation.y >= CENTER_EXCLUSION || a.translation.y <= -CENTER_EXCLUSION)
                },
        decreases INITIAL_BIG_ASTEROIDS_ONSCREEN - spawned,
    {
        let position_x: i64 =
            get_randomic_asteroid_onscreen_position(LEFT_BORDER_POSITION, RIGHT_BORDER_POSITION);
        let position_y: i64 =
            get_randomic_asteroid_onscreen_position(BOTTOM_BORDER_POSITION, TOP_BORDER_POSITION);
        spawn_asteroids(asteroids, AsteroidType::Big, position_x, position_y);
        spawned = spawned + 1;
    }
}

/// Split fan-out: appends exactly `split_count_of` fragments of the next
/// smaller size class at the destroyed asteroid's position, each with an
/// independent random drift and spin. A Small asteroid yields none.
pub fn spawn_asteroids_after_collision(
    asteroids: &mut Vec<Asteroid>,
    asteroid_type: AsteroidType,
    translation: Vec2,
)
    ensures
        final(asteroids)@.len() == old(asteroids)@.len() + split_count_of(asteroid_type),
        forall|i: int| 0 <= i < old(asteroids)@.len() ==> final(asteroids)@[i] == old(asteroids)@[i],
        forall|i: int|
            old(asteroids)@.len() <= i < final(asteroids)@.len() ==> {
                let a = #[trigger] final(asteroids)@[i];
                &&& asteroid_wf(a)
                &&& a.asteroid_type == split_child_of(asteroid_type)
                &&& a.translation == translation
            },
{
    let fragment_count: usize = match asteroid_type {
        AsteroidType::Small => 0,
        AsteroidType::Medium => 5,
        AsteroidType::Big => 3,
    };
    let child_type: AsteroidType = match asteroid_type {
        AsteroidType::Small => AsteroidType::Small,
        AsteroidType::Medium => AsteroidType::Small,
        AsteroidType::Big => AsteroidType::Medium,
    };
    let ghost initial: Seq<Asteroid> = asteroids@;
    let mut spawned: usize = 0;
    while spawned < fragment_count
        invariant
            spawned <= fragment_count,
            fragment_count == split_count_of(asteroid_type),
            child_type == split_child_of(asteroid_type),
            asteroids@.len() == initial.len() + spawned,
            forall|i: int| 0 <= i < initial.len() ==> asteroids@[i] == initial[i],
            forall|i: int|
                initial.len() <= i < asteroids@.len() ==> {
                    let a = #[trigger] asteroids@[i];
                    &&& asteroid_wf(a)
                    &&& a.asteroid_type == child_type
                    &&& a.translation == translation
                },
        decreases fragment_count - spawned,
    {
        spawn_asteroids(asteroids, child_type, translation.x, translation.y);
        spawned = spawned + 1;
    }
}

/// One tick of drift for every asteroid: the heading advances by the spin,
/// the position by the fixed drift direction times the class speed. Size
/// class, physical constants, drift and spin are untouched.
pub fn set_asteroid_movement_and_rotation(asteroids: &mut Vec<Asteroid>, delta_ms: u64)
    requires
        delta_ms <= MAX_TICK_MS,
        forall|i: int| 0 <= i < old(asteroids)@.len() ==> asteroid_wf(#[trigger] old(asteroids)@[i]),
        forall|i: int|
            0 <= i < old(asteroids)@.len() ==> position_bounded(
                (#[trigger] old(asteroids)@[i]).translation,
            ),
    ensures
        final(asteroids)@.len() == old(asteroids)@.len(),
        forall|i: int|
            0 <= i < old(asteroids)@.len() ==> {
                let a = #[trigger] old(asteroids)@[i];
                let b = final(asteroids)@[i];
                &&& b.asteroid_type == a.asteroid_type
                &&& b.collider_ball_size == a.collider_ball_size
                &&& b.movement_speed == a.movement_speed
                &&& b.movement_direction == a.movement_direction
                &&& b.rotation_speed == a.rotation_speed
                &&& b.rotation_direction == a.rotation_direction
                &&& b.translation.x == a.translation.x
                    + a.movement_direction.x * a.movement_speed * delta_ms
                &&& b.translation.y == a.translation.y
                    + a.movement_direction.y * a.movement_speed * delta_ms
                &&& b.heading == wrap_turn(a.heading + a.rotation_direction * a.rotation_speed * delta_ms)
                &&& asteroid_wf(b)
                &&& -500_000_000_000 <= b.translation.x - a.translation.x <= 500_000_000_000
                &&& -500_000_000_000 <= b.translation.y - a.translation.y <= 500_000_000_000
            },
        final(asteroids)@ == asteroids_after_movement(old(asteroids)@, delta_ms as int),
{
    let ghost initial: Seq<Asteroid> = asteroids@;
    let mut idx: usize = 0;
    while idx < asteroids.len()
        invariant
            idx <= asteroids@.len(),
            asteroids@.len() == initial.len(),
            delta_ms <= MAX_TICK_MS,
            forall|i: int| 0 <= i < initial.len() ==> asteroid_wf(#[trigger] initial[i]),
            forall|i: int|
                0 <= i < initial.len() ==> position_bounded((#[trigger] initial[i]).translation),
            forall|i: int| idx <= i < initial.len() ==> asteroids@[i] == initial[i],
            forall|i: int|
                0 <= i < idx ==> {
                    let a = #[trigger] initial[i];
                    let b = asteroids@[i];
                    &&& b.asteroid_type == a.asteroid_type
                    &&& b.collider_ball_size == a.collider_ball_size
                    &&& b.movement_speed == a.movement_speed
                    &&& b.movement_direction == a.movement_direction
                    &&& b.rotation_speed == a.rotation_speed
                    &&& b.rotation_direction == a.rotation_direction
                    &&& b.translation.x == a.translation.x
                        + a.movement_direction.x * a.movement_speed * delta_ms
                    &&& b.translation.y == a.translation.y
                        + a.movement_direction.y * a.movement_speed * delta_ms
                    &&& b.heading == wrap_turn(
                        a.heading + a.rotation_direction * a.rotation_speed * delta_ms,
                    )
                    &&& asteroid_wf(b)
                    &&& -500_000_000_000 <= b.translation.x - a.translation.x <= 500_000_000_000
                    &&& -500_000_000_000 <= b.translation.y - a.translation.y <= 500_000_000_000
                },
        decreases asteroids@.len() - idx,
    {
        let a: Asteroid = asteroids[idx];
        proof {
            assert(a == initial[idx as int]);
            assert(asteroid_wf(a));
            assert(position_bounded(a.translation));
        }
        let new_heading: i64 =
            integrate_rotation(a.heading, a.rotation_direction, a.rotation_speed, delta_ms);
        let new_translation: Vec2 =
            integrate_position(a.translation, a.movement_direction, a.movement_speed, delta_ms);
        let updated: Asteroid = Asteroid { translation: new_translation, heading: new_heading, ..a };
        asteroids.set(idx, updated);
        idx = idx + 1;
    }
    proof {
        assert forall|i: int| 0 <= i < asteroids@.len() implies asteroids@[i]
            == asteroid_after_movement(old(asteroids)@[i], delta_ms as int) by {
            assert(asteroid_wf(initial[i]));
        }
        assert(asteroids@ =~= asteroids_after_movement(old(asteroids)@, delta_ms as int));
    }
}

/// Draws an x coordinate level with the visible field.
pub fn get_randomic_asteroid_offscreen_x_position() -> (r: i64)
    ensures
        LEFT_BORDER_POSITION <= r <= RIGHT_BORDER_POSITION,
{
    random_in_range(LEFT_BORDER_POSITION, RIGHT_BORDER_POSITION)
}

/// Draws a y coordinate level with the visible field.
pub fn get_randomic_asteroid_offscreen_y_position() -> (r: i64)
    ensures
        BOTTOM_BORDER_POSITION <= r <= TOP_BORDER_POSITION,
{
    random_in_range(BOTTOM_BORDER_POSITION, TOP_BORDER_POSITION)
}

/// Picks a random side and a random re-entry point on it: just inside the
/// offscreen rectangle, strictly outside the inner field.
pub fn get_randomic_asteroid_offscreen_position() -> (p: Vec2)
    ensures
        recycled_position(p),
{
    let side: BorderSide = BorderSide::get_randomic_border_side();
    match side {
        BorderSide::Right => Vec2 {
            x: RIGHT_BORDER_OFFSCREEN_POSITION - BORDER_OFFSET,
            y: get_randomic_asteroid_offscreen_y_position(),
        },
        BorderSide::Left => Vec2 {
            x: LEFT_BORDER_OFFSCREEN_POSITION + BORDER_OFFSET,
            y: get_randomic_asteroid_offscreen_y_position(),
        },
        BorderSide::Top => Vec2 {
            x: get_randomic_asteroid_offscreen_x_position(),
            y: TOP_BORDER_OFFSCREEN_POSITION - BORDER_OFFSET,
        },
        BorderSide::Bottom => Vec2 {
            x: get_randomic_asteroid_offscreen_x_position(),
            y: BOTTOM_BORDER_OFFSCREEN_POSITION + BORDER_OFFSET,
        },
    }
}

/// Reassigns the drift of a just-recycled asteroid toward the field interior
/// on the axis of its re-entry side, with a random lateral component.
pub fn set_asteroid_movement_direction_after_border_outbounds(asteroid_entity: &mut Asteroid)
    requires
        asteroid_wf(*old(asteroid_entity)),
        recycled_position(old(asteroid_entity).translation),
    ensures
        asteroid_wf(*final(asteroid_entity)),
        final(asteroid_entity).asteroid_type == old(asteroid_entity).asteroid_type,
        final(asteroid_entity).collider_ball_size == old(asteroid_entity).collider_ball_size,
        final(asteroid_entity).movement_speed == old(asteroid_entity).movement_speed,
        final(asteroid_entity).rotation_speed == old(asteroid_entity).rotation_speed,
        final(asteroid_entity).rotation_direction == old(asteroid_entity).rotation_direction,
        final(asteroid_entity).translation == old(asteroid_entity).translation,
        final(asteroid_entity).heading == old(asteroid_entity).heading,
        direction_bounded(final(asteroid_entity).movement_direction),
        reentry_direction_ok(final(asteroid_entity).translation, final(asteroid_entity).movement_direction),
{
    let lateral: i64 = random_in_range(-DIRECTION_UNIT, DIRECTION_UNIT);
    let p: Vec2 = asteroid_entity.translation;
    if p.x == RIGHT_BORDER_OFFSCREEN_POSITION - BORDER_OFFSET {
        asteroid_entity.movement_direction = Vec2 { x: -DIRECTION_UNIT, y: lateral };
    } else if p.x == LEFT_BORDER_OFFSCREEN_POSITION + BORDER_OFFSET {
        asteroid_entity.movement_direction = Vec2 { x: DIRECTION_UNIT, y: lateral };
    } else if p.y == TOP_BORDER_OFFSCREEN_POSITION - BORDER_OFFSET {
        asteroid_entity.movement_direction = Vec2 { x: lateral, y: -DIRECTION_UNIT };
    } else {
        asteroid_entity.movement_direction = Vec2 { x: lateral, y: DIRECTION_UNIT };
    }
}

/// Off-field recycling: every asteroid at or beyond the offscreen rectangle
/// is moved to a random re-entry point just inside it and its drift is turned
/// back toward the field interior; all other asteroids are untouched.
pub fn set_asteroid_position_after_border_outbounds(asteroids: &mut Vec<Asteroid>)
    requires
        forall|i: int| 0 <= i < old(asteroids)@.len() ==> asteroid_wf(#[trigger] old(asteroids)@[i]),
    ensures
        final(asteroids)@.len() == old(asteroids)@.len(),
        forall|i: int|
            0 <= i < old(asteroids)@.len() ==> {
                let a = #[trigger] old(asteroids)@[i];
                let b = final(asteroids)@[i];
                &&& asteroid_wf(b)
                &&& b.asteroid_type == a.asteroid_type
                &&& b.collider_ball_size == a.collider_ball_size
                &&& b.movement_speed == a.movement_speed
                &&& b.rotation_speed == a.rotation_speed
                &&& b.rotation_direction == a.rotation_direction
                &&& b.heading == a.heading
                &&& if outside_offscreen(a.translation) {
                    &&& recycled_position(b.translation)
                    &&& reentry_direction_ok(b.translation, b.movement_direction)
                } else {
                    b == a
                }
            },
        recycled_from(old(asteroids)@, final(asteroids)@),
{
    let ghost initial: Seq<Asteroid> = asteroids@;
    let mut idx: usize = 0;
    while idx < asteroids.len()
        invariant
            idx <= asteroids@.len(),
            asteroids@.len() == initial.len(),
            forall|i: int| 0 <= i < initial.len() ==> asteroid_wf(#[trigger] initial[i]),
            forall|i: int| idx <= i < initial.len() ==> asteroids@[i] == initial[i],
            forall|i: int|
                0 <= i < idx ==> {
                    let a = #[trigger] initial[i];
                    let b = asteroids@[i];
                    &&& asteroid_wf(b)
                    &&& b.asteroid_type == a.asteroid_type
                    &&& b.collider_ball_size == a.collider_ball_size
                    &&& b.movement_speed == a.movement_speed
                    &&& b.rotation_speed == a.rotation_speed
                    &&& b.rotation_direction == a.rotation_direction
                    &&& b.heading == a.heading
                    &&& if outside_offscreen(a.translation) {
                        &&& recycled_position(b.translation)
                        &&& reentry_direction_ok(b.translation, b.movement_direction)
                    } else {
                        b == a
                    }
                },
        decreases asteroids@.len() - idx,
    {
        let a: Asteroid = asteroids[idx];
        proof {
            assert(a == initial[idx as int]);
            assert(asteroid_wf(a));
        }
        let outside: bool = a.translation.x >= RIGHT_BORDER_OFFSCREEN_POSITION
            || a.translation.x <= LEFT_BORDER_OFFSCREEN_POSITION
            || a.translation.y >= TOP_BORDER_OFFSCREEN_POSITION
            || a.translation.y <= BOTTOM_BORDER_OFFSCREEN_POSITION;
        if outside {
            let mut updated: Asteroid = a;
            updated.translation = get_randomic_asteroid_offscreen_position();
            set_asteroid_movement_direction_after_border_outbounds(&mut updated);
            asteroids.set(idx, updated);
        }
        idx = idx + 1;
    }
    proof {
        assert forall|i: int| 0 <= i < old(asteroids)@.len() implies recycle_step_ok(
            old(asteroids)@[i],
            #[trigger] asteroids@[i],
        ) by {
            assert(asteroid_wf(initial[i]));
            assert(asteroid_wf(asteroids@[i]));
        }
        assert(recycled_from(old(asteroids)@, asteroids@));
    }
}

} // verus!

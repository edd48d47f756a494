//! Exact-value checks of the ship controller steps, the countdown timers,
//! screen wrap, asteroid recycling and projectile despawn.

use asteroids_core::asteroid::{
    set_asteroid_position_after_border_outbounds, Asteroid, AsteroidType,
};
use asteroids_core::constants::{
    BORDER_OFFSET, BOTTOM_BORDER_OFFSCREEN_POSITION, BOTTOM_BORDER_POSITION,
    HERO_SHIP_MAX_MOVEMENT_SPEED, LEFT_BORDER_OFFSCREEN_POSITION, LEFT_BORDER_POSITION,
    PROJECTILE_MOVEMENT_SPEED, RIGHT_BORDER_OFFSCREEN_POSITION, RIGHT_BORDER_POSITION,
    TOP_BORDER_OFFSCREEN_POSITION, TOP_BORDER_POSITION,
};
use asteroids_core::game::{tick, GameWorld};
use asteroids_core::hero_ship::{
    set_hero_ship_position_after_border_outbounds, spawn_hero_ship, InputState,
};
use asteroids_core::kinematics::Vec2;
use asteroids_core::projectile::{despawn_border_outbound_projectiles, Projectile};
use asteroids_core::timer::CountdownTimer;

fn up_axis() -> Vec2 {
    Vec2 { x: 0, y: 1000 }
}

fn ship_only_world_in_game() -> GameWorld {
    let mut w = GameWorld::new();
    let mut confirm = InputState::idle();
    confirm.confirm_just_pressed = true;
    tick(&mut w, confirm, up_axis(), 16);
    w.asteroids.clear();
    w
}

// --- ship controller, exact values ---

#[test]
fn thrust_adds_exactly_the_increment_and_moves_the_ship() {
    let mut w = ship_only_world_in_game();
    let mut input = InputState::idle();
    input.up_pressed = true;
    tick(&mut w, input, up_axis(), 16);
    // One increment of 3 units/s, applied before integration:
    // delta = 1000 * 3000 * 16 nano-units along the forward axis.
    assert_eq!(w.hero_ship.movement_speed, 3000);
    assert_eq!(w.hero_ship.translation, Vec2 { x: 0, y: 48_000_000 });
}

#[test]
fn thrust_is_capped_at_the_maximum_speed() {
    let mut w = ship_only_world_in_game();
    w.hero_ship.movement_speed = HERO_SHIP_MAX_MOVEMENT_SPEED - 1000;
    let mut input = InputState::idle();
    input.up_pressed = true;
    tick(&mut w, input, up_axis(), 16);
    assert_eq!(w.hero_ship.movement_speed, HERO_SHIP_MAX_MOVEMENT_SPEED);
}

#[test]
fn turning_left_spins_up_and_advances_the_heading() {
    let mut w = ship_only_world_in_game();
    let mut input = InputState::idle();
    input.left_pressed = true;
    tick(&mut w, input, up_axis(), 16);
    // One increment of 15 deg/s; heading advance = 1000 * 15000 * 16
    // nano-degrees, counterclockwise.
    assert_eq!(w.hero_ship.rotation_speed, 15_000);
    assert_eq!(w.hero_ship.heading, 240_000_000);
}

#[test]
fn braking_floors_the_speed_at_zero() {
    let mut w = ship_only_world_in_game();
    w.hero_ship.movement_speed = 1000;
    let mut input = InputState::idle();
    input.down_pressed = true;
    // Brake drag removes 100 * 16 = 1600 milli-units/s, more than is left.
    tick(&mut w, input, up_axis(), 16);
    assert_eq!(w.hero_ship.movement_speed, 0);
    assert_eq!(w.hero_ship.translation, Vec2 { x: 0, y: 0 });
}

#[test]
fn passive_drag_slows_linear_and_angular_speed() {
    let mut w = ship_only_world_in_game();
    w.hero_ship.movement_speed = 10_000;
    w.hero_ship.rotation_speed = 5_000;
    tick(&mut w, InputState::idle(), up_axis(), 16);
    // Linear drag 100/ms and angular drag 250/ms over 16 ms; the ship still
    // travels at the pre-drag speed this tick.
    assert_eq!(w.hero_ship.movement_speed, 10_000 - 1_600);
    assert_eq!(w.hero_ship.rotation_speed, 5_000 - 4_000);
    assert_eq!(w.hero_ship.translation, Vec2 { x: 0, y: 1000 * 10_000 * 16 });
}

// --- screen wrap ---

#[test]
fn wrap_left_exit_reenters_on_the_right() {
    let mut ship = spawn_hero_ship();
    ship.translation = Vec2 { x: LEFT_BORDER_POSITION - 5, y: 77 };
    set_hero_ship_position_after_border_outbounds(&mut ship);
    assert_eq!(ship.translation.x, RIGHT_BORDER_POSITION);
    assert_eq!(ship.translation.y, 77 + BORDER_OFFSET);
}

#[test]
fn wrap_corner_applies_both_axes_from_the_entry_position() {
    let mut ship = spawn_hero_ship();
    ship.translation = Vec2 { x: RIGHT_BORDER_POSITION + 1, y: TOP_BORDER_POSITION + 1 };
    set_hero_ship_position_after_border_outbounds(&mut ship);
    assert_eq!(
        ship.translation,
        Vec2 { x: LEFT_BORDER_POSITION - BORDER_OFFSET, y: BOTTOM_BORDER_POSITION }
    );
}

#[test]
fn wrap_leaves_an_inside_position_alone() {
    let mut ship = spawn_hero_ship();
    ship.translation = Vec2 { x: 123, y: -321 };
    set_hero_ship_position_after_border_outbounds(&mut ship);
    assert_eq!(ship.translation, Vec2 { x: 123, y: -321 });
}

// --- timers ---

#[test]
fn countdown_reports_just_finished_exactly_on_expiry() {
    let mut t = CountdownTimer::new(200);
    t.tick(100);
    assert!(!t.just_finished);
    assert_eq!(t.remaining, 100);
    t.tick(150);
    assert!(t.just_finished);
    assert_eq!(t.remaining, 200);
    t.tick(50);
    assert!(!t.just_finished);
    assert_eq!(t.remaining, 150);
}

// --- asteroid recycling ---

fn on_reentry_band(p: Vec2) -> bool {
    (p.x == RIGHT_BORDER_OFFSCREEN_POSITION - BORDER_OFFSET
        && p.y >= BOTTOM_BORDER_POSITION
        && p.y <= TOP_BORDER_POSITION)
        || (p.x == LEFT_BORDER_OFFSCREEN_POSITION + BORDER_OFFSET
            && p.y >= BOTTOM_BORDER_POSITION
            && p.y <= TOP_BORDER_POSITION)
        || (p.y == TOP_BORDER_OFFSCREEN_POSITION - BORDER_OFFSET
            && p.x >= LEFT_BORDER_POSITION
            && p.x <= RIGHT_BORDER_POSITION)
        || (p.y == BOTTOM_BORDER_OFFSCREEN_POSITION + BORDER_OFFSET
            && p.x >= LEFT_BORDER_POSITION
            && p.x <= RIGHT_BORDER_POSITION)
}

#[test]
fn offscreen_asteroid_is_recycled_toward_the_interior() {
    let inside = Asteroid::initialize_asteroid_based_on_type(
        AsteroidType::Medium,
        Vec2 { x: 100, y: 200 },
    );
    let outside = Asteroid::initialize_asteroid_based_on_type(
        AsteroidType::Big,
        Vec2 { x: RIGHT_BORDER_OFFSCREEN_POSITION + 5_000_000_000, y: 0 },
    );
    let mut asteroids = vec![inside, outside];
    set_asteroid_position_after_border_outbounds(&mut asteroids);

    // The onscreen one is untouched.
    assert_eq!(asteroids[0], inside);

    // The offscreen one sits on a re-entry band, drifting back inward, with
    // its class constants intact.
    let recycled = asteroids[1];
    assert!(on_reentry_band(recycled.translation));
    assert_eq!(recycled.asteroid_type, AsteroidType::Big);
    assert_eq!(recycled.movement_speed, outside.movement_speed);
    if recycled.translation.x == RIGHT_BORDER_OFFSCREEN_POSITION - BORDER_OFFSET {
        assert_eq!(recycled.movement_direction.x, -1000);
    }
    if recycled.translation.x == LEFT_BORDER_OFFSCREEN_POSITION + BORDER_OFFSET {
        assert_eq!(recycled.movement_direction.x, 1000);
    }
    if recycled.translation.y == TOP_BORDER_OFFSCREEN_POSITION - BORDER_OFFSET {
        assert_eq!(recycled.movement_direction.y, -1000);
    }
    if recycled.translation.y == BOTTOM_BORDER_OFFSCREEN_POSITION + BORDER_OFFSET {
        assert_eq!(recycled.movement_direction.y, 1000);
    }
}

// --- projectile despawn ---

#[test]
fn projectiles_outside_the_outer_bound_despawn_in_order() {
    let keep_a = Projectile {
        translation: Vec2 { x: 0, y: 0 },
        direction: up_axis(),
        movement_speed: PROJECTILE_MOVEMENT_SPEED,
        visible: true,
    };
    let gone = Projectile {
        translation: Vec2 { x: RIGHT_BORDER_OFFSCREEN_POSITION, y: 0 },
        direction: up_axis(),
        movement_speed: PROJECTILE_MOVEMENT_SPEED,
        visible: true,
    };
    let keep_b = Projectile {
        translation: Vec2 { x: -100, y: 500 },
        direction: up_axis(),
        movement_speed: PROJECTILE_MOVEMENT_SPEED,
        visible: true,
    };
    let mut projectiles = vec![keep_a, gone, keep_b];
    despawn_border_outbound_projectiles(&mut projectiles);
    assert_eq!(projectiles, vec![keep_a, keep_b]);
}

//! End-to-end checks of the simulation core on concrete values: the size
//! class table, split fan-out, collision resolution, scoring, lives, screen
//! wrap, timers and the session state machine.

use asteroids_core::asteroid::{
    spawn_asteroids_after_collision, spawn_initial_asteroids, Asteroid, AsteroidType,
};
use asteroids_core::collision::{
    detect_asteroid_hero_ship_collision, detect_asteroid_projectile_collision,
    increase_score_based_on_asteroid_type, resolve_collisions,
};
use asteroids_core::constants::{
    BIG_ASTEROID_COLLIDER_BALL_SIZE, BIG_ASTEROID_MOVEMENT_SPEED, BIG_ASTEROID_ROTATION_SPEED,
    BOTTOM_BORDER_POSITION, BORDER_OFFSET, CENTER_EXCLUSION, INITIAL_BIG_ASTEROIDS_ONSCREEN,
    INITIAL_LIVES, LEFT_BORDER_POSITION, MEDIUM_ASTEROID_COLLIDER_BALL_SIZE,
    MEDIUM_ASTEROID_MOVEMENT_SPEED, MEDIUM_ASTEROID_ROTATION_SPEED, PROJECTILE_MOVEMENT_SPEED,
    RIGHT_BORDER_POSITION, SMALL_ASTEROID_COLLIDER_BALL_SIZE, SMALL_ASTEROID_MOVEMENT_SPEED,
    SMALL_ASTEROID_ROTATION_SPEED, TOP_BORDER_POSITION,
};
use asteroids_core::game::{despawn_entities, tick, GameWorld};
use asteroids_core::hero_ship::{
    spawn_hero_ship, HeroShip, HeroShipRemainingLives, InputState,
};
use asteroids_core::kinematics::Vec2;
use asteroids_core::projectile::Projectile;
use asteroids_core::session::{GameState, PausingState, ScoreboardScore};

fn idle_input() -> InputState {
    InputState::idle()
}

fn confirm_input() -> InputState {
    let mut input = InputState::idle();
    input.confirm_just_pressed = true;
    input
}

fn cancel_input() -> InputState {
    let mut input = InputState::idle();
    input.cancel_just_pressed = true;
    input
}

fn up_axis() -> Vec2 {
    Vec2 { x: 0, y: 1000 }
}

fn projectile_at(x: i64, y: i64) -> Projectile {
    Projectile {
        translation: Vec2 { x, y },
        direction: up_axis(),
        movement_speed: PROJECTILE_MOVEMENT_SPEED,
        visible: true,
    }
}

// --- size class table ---

#[test]
fn asteroid_table_fixes_physical_constants() {
    let origin = Vec2 { x: 0, y: 0 };
    let small = Asteroid::initialize_asteroid_based_on_type(AsteroidType::Small, origin);
    assert_eq!(small.movement_speed, SMALL_ASTEROID_MOVEMENT_SPEED);
    assert_eq!(small.rotation_speed, SMALL_ASTEROID_ROTATION_SPEED);
    assert_eq!(small.collider_ball_size, SMALL_ASTEROID_COLLIDER_BALL_SIZE);

    let medium = Asteroid::initialize_asteroid_based_on_type(AsteroidType::Medium, origin);
    assert_eq!(medium.movement_speed, MEDIUM_ASTEROID_MOVEMENT_SPEED);
    assert_eq!(medium.rotation_speed, MEDIUM_ASTEROID_ROTATION_SPEED);
    assert_eq!(medium.collider_ball_size, MEDIUM_ASTEROID_COLLIDER_BALL_SIZE);

    let big = Asteroid::initialize_asteroid_based_on_type(AsteroidType::Big, origin);
    assert_eq!(big.movement_speed, BIG_ASTEROID_MOVEMENT_SPEED);
    assert_eq!(big.rotation_speed, BIG_ASTEROID_ROTATION_SPEED);
    assert_eq!(big.collider_ball_size, BIG_ASTEROID_COLLIDER_BALL_SIZE);
}

#[test]
fn asteroid_random_drift_and_spin_are_on_scale() {
    let a = Asteroid::initialize_asteroid_based_on_type(
        AsteroidType::Big,
        Vec2 { x: 7, y: -7 },
    );
    assert!(a.movement_direction.x >= -1000 && a.movement_direction.x <= 1000);
    assert!(a.movement_direction.y >= -1000 && a.movement_direction.y <= 1000);
    assert!(a.rotation_direction >= -1000 && a.rotation_direction <= 1000);
    assert_eq!(a.translation, Vec2 { x: 7, y: -7 });
}

// --- split fan-out ---

#[test]
fn big_asteroid_splits_into_three_medium() {
    let mut asteroids: Vec<Asteroid> = Vec::new();
    let origin = Vec2 { x: 123, y: -456 };
    spawn_asteroids_after_collision(&mut asteroids, AsteroidType::Big, origin);
    assert_eq!(asteroids.len(), 3);
    for child in &asteroids {
        assert_eq!(child.asteroid_type, AsteroidType::Medium);
        assert_eq!(child.translation, origin);
        assert_eq!(child.movement_speed, MEDIUM_ASTEROID_MOVEMENT_SPEED);
    }
}

#[test]
fn medium_asteroid_splits_into_five_small() {
    let mut asteroids: Vec<Asteroid> = Vec::new();
    let origin = Vec2 { x: 0, y: 0 };
    spawn_asteroids_after_collision(&mut asteroids, AsteroidType::Medium, origin);
    assert_eq!(asteroids.len(), 5);
    for child in &asteroids {
        assert_eq!(child.asteroid_type, AsteroidType::Small);
        assert_eq!(child.translation, origin);
    }
}

#[test]
fn small_asteroid_splits_into_nothing() {
    let mut asteroids: Vec<Asteroid> = Vec::new();
    spawn_asteroids_after_collision(&mut asteroids, AsteroidType::Small, Vec2 { x: 1, y: 2 });
    assert_eq!(asteroids.len(), 0);
}

#[test]
fn initial_spawn_avoids_the_center() {
    let mut asteroids: Vec<Asteroid> = Vec::new();
    spawn_initial_asteroids(&mut asteroids);
    assert_eq!(asteroids.len(), INITIAL_BIG_ASTEROIDS_ONSCREEN);
    for a in &asteroids {
        assert_eq!(a.asteroid_type, AsteroidType::Big);
        assert!(a.translation.x >= LEFT_BORDER_POSITION);
        assert!(a.translation.x <= RIGHT_BORDER_POSITION);
        assert!(a.translation.y >= BOTTOM_BORDER_POSITION);
        assert!(a.translation.y <= TOP_BORDER_POSITION);
        assert!(a.translation.x.abs() >= CENTER_EXCLUSION);
        assert!(a.translation.y.abs() >= CENTER_EXCLUSION);
    }
}

// --- score table ---

#[test]
fn score_values_per_size_class() {
    let mut score = ScoreboardScore { score: 0 };
    increase_score_based_on_asteroid_type(AsteroidType::Small, &mut score);
    assert_eq!(score.score, 50);
    increase_score_based_on_asteroid_type(AsteroidType::Medium, &mut score);
    assert_eq!(score.score, 80);
    increase_score_based_on_asteroid_type(AsteroidType::Big, &mut score);
    assert_eq!(score.score, 90);
}

// --- collision detection ---

#[test]
fn projectile_detection_pairs_touching_entities() {
    let asteroids = vec![Asteroid::initialize_asteroid_based_on_type(
        AsteroidType::Big,
        Vec2 { x: 0, y: 0 },
    )];
    let projectiles = vec![projectile_at(0, 0)];
    let pairs = detect_asteroid_projectile_collision(&asteroids, &projectiles, None);
    assert_eq!(pairs.len(), 1);
    assert_eq!(pairs[0].asteroid_index, 0);
    assert_eq!(pairs[0].projectile_index, 0);
}

#[test]
fn one_projectile_is_consumed_by_at_most_one_asteroid() {
    // Two Big asteroids both overlap the single projectile.
    let asteroids = vec![
        Asteroid::initialize_asteroid_based_on_type(AsteroidType::Big, Vec2 { x: 0, y: 0 }),
        Asteroid::initialize_asteroid_based_on_type(
            AsteroidType::Big,
            Vec2 { x: 10_000_000_000, y: 0 },
        ),
    ];
    let projectiles = vec![projectile_at(5_000_000_000, 0)];
    let pairs = detect_asteroid_projectile_collision(&asteroids, &projectiles, None);
    assert_eq!(pairs.len(), 1);
}

#[test]
fn ship_collision_takes_priority_over_projectile() {
    // One asteroid touches both the ship and a projectile in the same tick.
    let asteroids = vec![Asteroid::initialize_asteroid_based_on_type(
        AsteroidType::Big,
        Vec2 { x: 0, y: 0 },
    )];
    let ship = spawn_hero_ship();
    let hit = detect_asteroid_hero_ship_collision(&asteroids, &ship);
    assert_eq!(hit, Some(0));
    let projectiles = vec![projectile_at(0, 0)];
    let pairs = detect_asteroid_projectile_collision(&asteroids, &projectiles, hit);
    assert_eq!(pairs.len(), 0);
}

#[test]
fn hidden_ship_is_not_collidable() {
    let asteroids = vec![Asteroid::initialize_asteroid_based_on_type(
        AsteroidType::Big,
        Vec2 { x: 0, y: 0 },
    )];
    let mut ship = spawn_hero_ship();
    ship.collidable = false;
    let hit = detect_asteroid_hero_ship_collision(&asteroids, &ship);
    assert_eq!(hit, None);
}

// --- full resolution scenarios ---

#[test]
fn projectile_kill_splits_big_asteroid_and_scores_ten() {
    // One Big asteroid at the origin, one projectile intersecting it; the
    // ship is far away in a corner of the field.
    let mut asteroids = vec![Asteroid::initialize_asteroid_based_on_type(
        AsteroidType::Big,
        Vec2 { x: 0, y: 0 },
    )];
    let mut projectiles = vec![projectile_at(0, 0)];
    let mut ship = spawn_hero_ship();
    ship.translation = Vec2 { x: 300_000_000_000, y: 200_000_000_000 };
    let mut lives = HeroShipRemainingLives { lives_remaining: INITIAL_LIVES };
    let mut state = GameState::InGame;
    let mut score = ScoreboardScore { score: 0 };

    let outcome = resolve_collisions(
        &mut asteroids,
        &mut projectiles,
        &mut ship,
        &mut lives,
        &mut state,
        &mut score,
    );

    assert_eq!(outcome.ship_hit, None);
    assert_eq!(outcome.pairs.len(), 1);
    assert_eq!(asteroids.len(), 3);
    for child in &asteroids {
        assert_eq!(child.asteroid_type, AsteroidType::Medium);
        assert_eq!(child.translation, Vec2 { x: 0, y: 0 });
        assert!(child.movement_direction.x >= -1000 && child.movement_direction.x <= 1000);
        assert!(child.movement_direction.y >= -1000 && child.movement_direction.y <= 1000);
    }
    assert_eq!(projectiles.len(), 0);
    assert_eq!(score.score, 10);
    assert_eq!(lives.lives_remaining, INITIAL_LIVES);
    assert_eq!(state, GameState::InGame);
}

#[test]
fn ship_hit_on_last_life_ends_the_game() {
    let mut asteroids = vec![Asteroid::initialize_asteroid_based_on_type(
        AsteroidType::Big,
        Vec2 { x: 0, y: 0 },
    )];
    let mut projectiles: Vec<Projectile> = Vec::new();
    let mut ship = spawn_hero_ship();
    let mut lives = HeroShipRemainingLives { lives_remaining: 1 };
    let mut state = GameState::InGame;
    let mut score = ScoreboardScore { score: 40 };

    let outcome = resolve_collisions(
        &mut asteroids,
        &mut projectiles,
        &mut ship,
        &mut lives,
        &mut state,
        &mut score,
    );

    assert_eq!(outcome.ship_hit, Some(0));
    assert_eq!(lives.lives_remaining, 0);
    assert_eq!(state, GameState::EndGame);
    assert!(!ship.visible);
    assert!(!ship.collidable);
    // The asteroid that hit the ship is not destroyed (ship priority, no
    // double resolution) and the score is untouched.
    assert_eq!(asteroids.len(), 1);
    assert_eq!(score.score, 40);
}

#[test]
fn ship_hit_with_lives_left_hides_ship_and_keeps_playing() {
    let mut asteroids = vec![Asteroid::initialize_asteroid_based_on_type(
        AsteroidType::Big,
        Vec2 { x: 0, y: 0 },
    )];
    let mut projectiles: Vec<Projectile> = Vec::new();
    let mut ship = spawn_hero_ship();
    let mut lives = HeroShipRemainingLives { lives_remaining: 3 };
    let mut state = GameState::InGame;
    let mut score = ScoreboardScore { score: 0 };

    resolve_collisions(
        &mut asteroids,
        &mut projectiles,
        &mut ship,
        &mut lives,
        &mut state,
        &mut score,
    );

    assert_eq!(lives.lives_remaining, 2);
    assert_eq!(state, GameState::InGame);
    assert!(!ship.visible);
    assert!(!ship.collidable);
}

// --- whole-world ticks ---

#[test]
fn new_world_starts_on_the_start_screen() {
    let w = GameWorld::new();
    assert_eq!(w.game_state, GameState::StartScreen);
    assert_eq!(w.pausing_state, PausingState::Running);
    assert_eq!(w.hero_ship_remaining_lives.lives_remaining, INITIAL_LIVES);
    assert_eq!(w.scoreboard_score.score, 0);
    assert_eq!(w.asteroids.len(), INITIAL_BIG_ASTEROIDS_ONSCREEN);
    assert_eq!(w.projectiles.len(), 0);
    assert!(w.hero_ship.visible);
}

#[test]
fn confirm_starts_the_game() {
    let mut w = GameWorld::new();
    let r = tick(&mut w, confirm_input(), up_axis(), 16);
    assert!(r.is_none());
    assert_eq!(w.game_state, GameState::InGame);
}

#[test]
fn cancel_toggles_pause_and_back() {
    let mut w = GameWorld::new();
    tick(&mut w, confirm_input(), up_axis(), 16);
    assert_eq!(w.pausing_state, PausingState::Running);
    tick(&mut w, cancel_input(), up_axis(), 16);
    assert_eq!(w.pausing_state, PausingState::Paused);
    tick(&mut w, cancel_input(), up_axis(), 16);
    assert_eq!(w.pausing_state, PausingState::Running);
}

#[test]
fn paused_ticks_change_nothing() {
    let mut w = GameWorld::new();
    tick(&mut w, confirm_input(), up_axis(), 16);
    tick(&mut w, cancel_input(), up_axis(), 16);
    assert_eq!(w.pausing_state, PausingState::Paused);

    let asteroids_before = w.asteroids.clone();
    let ship_before = w.hero_ship;
    let score_before = w.scoreboard_score.score;
    let lives_before = w.hero_ship_remaining_lives.lives_remaining;
    for _ in 0..10 {
        let r = tick(&mut w, idle_input(), up_axis(), 16);
        assert!(r.is_none());
    }
    assert_eq!(w.asteroids, asteroids_before);
    assert_eq!(w.hero_ship, ship_before);
    assert_eq!(w.scoreboard_score.score, score_before);
    assert_eq!(w.hero_ship_remaining_lives.lives_remaining, lives_before);
    assert_eq!(w.game_state, GameState::InGame);
    assert_eq!(w.pausing_state, PausingState::Paused);
}

#[test]
fn running_tick_moves_asteroids() {
    let mut w = GameWorld::new();
    tick(&mut w, confirm_input(), up_axis(), 16);
    let before = w.asteroids.clone();
    let r = tick(&mut w, idle_input(), up_axis(), 16);
    assert!(r.is_some());
    assert_eq!(w.asteroids.len(), before.len());
    let mut moved = false;
    for (a, b) in before.iter().zip(w.asteroids.iter()) {
        assert_eq!(a.asteroid_type, b.asteroid_type);
        assert_eq!(a.movement_speed, b.movement_speed);
        assert_eq!(a.collider_ball_size, b.collider_ball_size);
        if a.translation != b.translation {
            moved = true;
        }
        // Position advances by exactly direction * speed * dt on each axis.
        assert_eq!(
            b.translation.x,
            a.translation.x + a.movement_direction.x * a.movement_speed * 16
        );
        assert_eq!(
            b.translation.y,
            a.translation.y + a.movement_direction.y * a.movement_speed * 16
        );
    }
    // With a zero drift on every asteroid nothing would move; that is
    // possible but astronomically unlikely, so only check the exact formula
    // above and that the flag is well-defined.
    let _ = moved;
}

#[test]
fn tick_on_last_life_collision_reaches_end_game() {
    let mut w = GameWorld::new();
    tick(&mut w, confirm_input(), up_axis(), 16);
    w.hero_ship_remaining_lives.lives_remaining = 1;
    w.asteroids.clear();
    w.asteroids.push(Asteroid::initialize_asteroid_based_on_type(
        AsteroidType::Big,
        Vec2 { x: 0, y: 0 },
    ));
    // Zero elapsed time: nothing moves, the overlap resolves immediately.
    let r = tick(&mut w, idle_input(), up_axis(), 0);
    let outcome = r.expect("gameplay ran");
    assert_eq!(outcome.ship_hit, Some(0));
    assert_eq!(w.hero_ship_remaining_lives.lives_remaining, 0);
    assert_eq!(w.game_state, GameState::EndGame);
    assert!(!w.hero_ship.visible);
    assert!(!w.hero_ship.collidable);
    // The transition into the end-game screen despawns the play entities on
    // the same tick; the score stays.
    assert_eq!(w.asteroids.len(), 0);
    assert_eq!(w.projectiles.len(), 0);
}

#[test]
fn end_game_despawns_and_confirm_restarts_fresh() {
    let mut w = GameWorld::new();
    tick(&mut w, confirm_input(), up_axis(), 16);
    w.hero_ship_remaining_lives.lives_remaining = 1;
    w.scoreboard_score.score = 90;
    w.asteroids.clear();
    w.asteroids.push(Asteroid::initialize_asteroid_based_on_type(
        AsteroidType::Big,
        Vec2 { x: 0, y: 0 },
    ));
    tick(&mut w, idle_input(), up_axis(), 0);
    assert_eq!(w.game_state, GameState::EndGame);

    // A plain end-game tick clears the entity stores, keeps the score.
    tick(&mut w, idle_input(), up_axis(), 16);
    assert_eq!(w.asteroids.len(), 0);
    assert_eq!(w.projectiles.len(), 0);
    assert_eq!(w.scoreboard_score.score, 90);
    assert_eq!(w.game_state, GameState::EndGame);

    // Confirm restarts: lives and score reset, fresh entities, play resumes.
    tick(&mut w, confirm_input(), up_axis(), 16);
    assert_eq!(w.game_state, GameState::InGame);
    assert_eq!(w.pausing_state, PausingState::Running);
    assert_eq!(w.hero_ship_remaining_lives.lives_remaining, INITIAL_LIVES);
    assert_eq!(w.scoreboard_score.score, 0);
    assert_eq!(w.asteroids.len(), INITIAL_BIG_ASTEROIDS_ONSCREEN);
    assert_eq!(w.projectiles.len(), 0);
    assert!(w.hero_ship.visible);
    assert!(w.hero_ship.collidable);
}

#[test]
fn despawn_entities_clears_stores_and_hides_ship() {
    let mut w = GameWorld::new();
    despawn_entities(&mut w);
    assert_eq!(w.asteroids.len(), 0);
    assert_eq!(w.projectiles.len(), 0);
    assert!(!w.hero_ship.visible);
    assert!(!w.hero_ship.collidable);
}

#[test]
fn score_only_increases_across_gameplay_ticks() {
    let mut w = GameWorld::new();
    tick(&mut w, confirm_input(), up_axis(), 16);
    let mut fire = InputState::idle();
    fire.fire_pressed = true;
    let mut last = w.scoreboard_score.score;
    for _ in 0..300 {
        tick(&mut w, fire, up_axis(), 16);
        assert!(w.scoreboard_score.score >= last);
        last = w.scoreboard_score.score;
        if w.game_state != GameState::InGame {
            break;
        }
    }
}

fn ship_only_world() -> GameWorld {
    let mut w = GameWorld::new();
    tick(&mut w, confirm_input(), up_axis(), 16);
    w.asteroids.clear();
    w
}

#[test]
fn still_alive_bonus_awards_five_points() {
    let mut w = ship_only_world();
    w.scoreboard_score.score = 0;
    // The bonus interval is 10 s; one 1000 ms tick, ten times.
    for _ in 0..9 {
        tick(&mut w, idle_input(), up_axis(), 1000);
        assert_eq!(w.scoreboard_score.score, 0);
    }
    tick(&mut w, idle_input(), up_axis(), 1000);
    assert_eq!(w.scoreboard_score.score, 5);
}

#[test]
fn fire_is_rate_limited_and_spawns_at_the_ship() {
    let mut w = ship_only_world();
    let mut fire = InputState::idle();
    fire.fire_pressed = true;
    // The cooldown is 200 ms; a 100 ms tick arms it only every second tick.
    tick(&mut w, fire, up_axis(), 100);
    assert_eq!(w.projectiles.len(), 0);
    tick(&mut w, fire, up_axis(), 100);
    assert_eq!(w.projectiles.len(), 1);
    let p = w.projectiles[0];
    assert_eq!(p.direction, up_axis());
    assert_eq!(p.movement_speed, PROJECTILE_MOVEMENT_SPEED);
    assert!(!p.visible);
    // The next tick moves it and makes it visible.
    let origin_y = p.translation.y;
    tick(&mut w, idle_input(), up_axis(), 100);
    assert_eq!(w.projectiles.len(), 1);
    assert!(w.projectiles[0].visible);
    assert_eq!(
        w.projectiles[0].translation.y,
        origin_y + 1000 * PROJECTILE_MOVEMENT_SPEED * 100
    );
}

#[test]
fn hidden_ship_does_not_fire() {
    let mut w = ship_only_world();
    w.hero_ship.visible = false;
    let mut fire = InputState::idle();
    fire.fire_pressed = true;
    for _ in 0..5 {
        tick(&mut w, fire, up_axis(), 200);
    }
    assert_eq!(w.projectiles.len(), 0);
}

#[test]
fn hidden_ship_respawns_at_center_after_the_delay() {
    let mut w = ship_only_world();
    w.hero_ship.visible = false;
    w.hero_ship.collidable = false;
    w.hero_ship.translation = Vec2 { x: 100_000_000_000, y: 0 };
    // The respawn delay is 2 s; 1000 ms ticks.
    tick(&mut w, idle_input(), up_axis(), 1000);
    assert!(!w.hero_ship.visible);
    tick(&mut w, idle_input(), up_axis(), 1000);
    assert!(w.hero_ship.visible);
    assert!(w.hero_ship.collidable);
    assert_eq!(w.hero_ship.translation, Vec2 { x: 0, y: 0 });
}

#[test]
fn screen_wrap_crosses_right_border_losslessly() {
    let mut w = ship_only_world();
    // Place the ship just inside the right border, full speed to the right.
    w.hero_ship.translation = Vec2 { x: RIGHT_BORDER_POSITION - 1_000_000, y: 12_345 };
    w.hero_ship.movement_speed = 320_000;
    let right = Vec2 { x: 1000, y: 0 };
    tick(&mut w, idle_input(), right, 16);
    // Crossed the border: x snaps to the left border, y changes only by the
    // documented offset.
    assert_eq!(w.hero_ship.translation.x, LEFT_BORDER_POSITION);
    assert_eq!(w.hero_ship.translation.y, 12_345 - BORDER_OFFSET);
}

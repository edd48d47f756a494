//! The game world and its fixed-tick loop: one value owning every entity and
//! session resource, the session state transitions driven by discrete input
//! edges, and the tick that runs the gameplay systems in their fixed order —
//! ship controller, kinematics, asteroid recycle, collision resolution,
//! session checks — only while the session is in play and not paused.

use vstd::prelude::*;

use crate::asteroid::{
    asteroid_wf,
    asteroids_after_movement,
    recycled_from,
    set_asteroid_movement_and_rotation,
    set_asteroid_position_after_border_outbounds,
    spawn_initial_asteroids,
    Asteroid,
    AsteroidType,
};
use crate::collision::{
    asteroid_destroy_mask,
    asteroid_hits_ship,
    child_slot_ok,
    children_count_prefix,
    lemma_destroy_mask_count,
    lemma_prefixes_depend_on_types,
    lemma_score_gain_prefix_bounds,
    plan_valid,
    projectile_destroy_mask,
    resolve_collisions,
    score_gain_prefix,
    CollisionOutcome,
};
use crate::constants::{
    BOTTOM_BORDER_OFFSCREEN_POSITION,
    BOTTOM_BORDER_POSITION,
    CENTER_EXCLUSION,
    INITIAL_BIG_ASTEROIDS_ONSCREEN,
    INITIAL_LIVES,
    LEFT_BORDER_OFFSCREEN_POSITION,
    LEFT_BORDER_POSITION,
    MAX_TICK_MS,
    RIGHT_BORDER_OFFSCREEN_POSITION,
    RIGHT_BORDER_POSITION,
    STILL_ALIVE_SCORE_BONUS,
    TOP_BORDER_OFFSCREEN_POSITION,
    TOP_BORDER_POSITION,
};
use crate::hero_ship::{
    dynamic_hero_ship_still_alive_check,
    fire_timer_after,
    hero_ship_fire_projectile,
    hero_ship_wf,
    projectiles_after_fire,
    respawn_hero_ship_on_demand,
    respawn_timer_after,
    set_hero_ship_movement_and_rotation,
    set_hero_ship_position_after_border_outbounds,
    ship_after_controller,
    ship_after_respawn,
    ship_after_wrap,
    ship_position_in_window,
    spawn_hero_ship,
    HeroShip,
    HeroShipRemainingLives,
    HeroShipRespawnTimer,
    HeroShipStillAliveTimer,
    InputState,
};
use crate::kinematics::{direction_bounded, Vec2};
use crate::projectile::{
    despawn_border_outbound_projectiles,
    onscreen_projectiles,
    projectile_wf,
    projectiles_after_movement,
    set_projectile_movement,
    Projectile,
    ProjectileSpawnTimer,
};
use crate::seq_util::{lemma_masked_keep_count, lemma_masked_keep_membership, masked_keep};
use crate::session::{GameState, PausingState, ScoreboardScore};
use crate::timer::{timer_after_tick, timer_wf};

verus! {

/// The whole simulation state for one session: the ship, the entity stores,
/// the session resources and the tick-driven timers.
#[derive(Debug)]
pub struct GameWorld {
    pub hero_ship: HeroShip,
    pub asteroids: Vec<Asteroid>,
    pub projectiles: Vec<Projectile>,
    pub game_state: GameState,
    pub pausing_state: PausingState,
    pub hero_ship_remaining_lives: HeroShipRemainingLives,
    pub scoreboard_score: ScoreboardScore,
    pub projectile_spawn_timer: ProjectileSpawnTimer,
    pub hero_ship_respawn_timer: HeroShipRespawnTimer,
    pub hero_ship_still_alive_timer: HeroShipStillAliveTimer,
}

/// Asteroids and projectiles live inside the offscreen rectangle at tick
/// boundaries (recycling and despawning pull them back each tick).
pub open spec fn within_offscreen_window(p: Vec2) -> bool {
    &&& LEFT_BORDER_OFFSCREEN_POSITION <= p.x <= RIGHT_BORDER_OFFSCREEN_POSITION
    &&& BOTTOM_BORDER_OFFSCREEN_POSITION <= p.y <= TOP_BORDER_OFFSCREEN_POSITION
}

/// The tick-boundary invariant of the whole world: every entity well-formed
/// and inside its window, every timer well-formed with its fixed period, and
/// the session coupling — in play there is always a life left, and the start
/// screen still has the full set.
pub open spec fn world_wf(w: GameWorld) -> bool {
    &&& hero_ship_wf(w.hero_ship)
    &&& ship_position_in_window(w.hero_ship.translation)
    &&& forall|i: int|
        0 <= i < w.asteroids@.len() ==> asteroid_wf(#[trigger] w.asteroids@[i])
            && within_offscreen_window(w.asteroids@[i].translation)
    &&& forall|j: int|
        0 <= j < w.projectiles@.len() ==> projectile_wf(#[trigger] w.projectiles@[j])
            && within_offscreen_window(w.projectiles@[j].translation)
    &&& timer_wf(w.projectile_spawn_timer.0)
    &&& w.projectile_spawn_timer.0.interval == crate::constants::PROJECTILE_SPAWN_INTERVAL_MS
    &&& timer_wf(w.hero_ship_respawn_timer.0)
    &&& w.hero_ship_respawn_timer.0.interval == crate::constants::HERO_SHIP_RESPAWN_INTERVAL_MS
    &&& timer_wf(w.hero_ship_still_alive_timer.0)
    &&& w.hero_ship_still_alive_timer.0.interval == crate::constants::STILL_ALIVE_INTERVAL_MS
    &&& (w.game_state == GameState::InGame ==> w.hero_ship_remaining_lives.lives_remaining > 0)
    &&& (w.game_state == GameState::StartScreen ==> w.hero_ship_remaining_lives.lives_remaining
        == INITIAL_LIVES)
}

/// A freshly spawned session-start asteroid: Big, in the field, clear of the
/// center region on both axes.
pub open spec fn initial_asteroid_ok(a: Asteroid) -> bool {
    &&& asteroid_wf(a)
    &&& a.asteroid_type == AsteroidType::Big
    &&& LEFT_BORDER_POSITION <= a.translation.x <= RIGHT_BORDER_POSITION
    &&& BOTTOM_BORDER_POSITION <= a.translation.y <= TOP_BORDER_POSITION
    &&& (a.translation.x >= CENTER_EXCLUSION || a.translation.x <= -CENTER_EXCLUSION)
    &&& (a.translation.y >= CENTER_EXCLUSION || a.translation.y <= -CENTER_EXCLUSION)
}

/// Spawns the main play entities: a fresh ship and the initial Big asteroid
/// population, appended to whatever the store already holds.
pub fn setup_main_entities(world: &mut GameWorld)
    ensures
        final(world).hero_ship.movement_speed == 0,
        final(world).hero_ship.rotation_speed == 0,
        final(world).hero_ship.translation == (Vec2 { x: 0, y: 0 }),
        final(world).hero_ship.heading == 0,
        final(world).hero_ship.visible,
        final(world).hero_ship.collidable,
        hero_ship_wf(final(world).hero_ship),
        final(world).asteroids@.len() == old(world).asteroids@.len()
            + INITIAL_BIG_ASTEROIDS_ONSCREEN,
        forall|i: int|
            0 <= i < old(world).asteroids@.len() ==> final(world).asteroids@[i]
                == old(world).asteroids@[i],
        forall|i: int|
            old(world).asteroids@.len() <= i < final(world).asteroids@.len()
                ==> initial_asteroid_ok(#[trigger] final(world).asteroids@[i]),
        final(world).projectiles == old(world).projectiles,
        final(world).game_state == old(world).game_state,
        final(world).pausing_state == old(world).pausing_state,
        final(world).hero_ship_remaining_lives == old(world).hero_ship_remaining_lives,
        final(world).scoreboard_score == old(world).scoreboard_score,
        final(world).projectile_spawn_timer == old(world).projectile_spawn_timer,
        final(world).hero_ship_respawn_timer == old(world).hero_ship_respawn_timer,
        final(world).hero_ship_still_alive_timer == old(world).hero_ship_still_alive_timer,
{
    world.hero_ship = spawn_hero_ship();
    spawn_initial_asteroids(&mut world.asteroids);
}

impl GameWorld {
    /// A fresh session: start screen, unpaused, full lives, zero score, a
    /// fresh ship at the center and the initial asteroid population already
    /// in place, every timer at its full period.
    pub fn new() -> (w: GameWorld)
        ensures
            world_wf(w),
            w.game_state == GameState::StartScreen,
            w.pausing_state == PausingState::Running,
            w.hero_ship_remaining_lives.lives_remaining == INITIAL_LIVES,
            w.scoreboard_score.score == 0,
            w.asteroids@.len() == INITIAL_BIG_ASTEROIDS_ONSCREEN,
            forall|i: int|
                0 <= i < w.asteroids@.len() ==> initial_asteroid_ok(#[trigger] w.asteroids@[i]),
            w.projectiles@.len() == 0,
            w.hero_ship.visible,
            w.hero_ship.collidable,
            w.hero_ship.translation == (Vec2 { x: 0, y: 0 }),
    {
        let mut world: GameWorld = GameWorld {
            hero_ship: spawn_hero_ship(),
            asteroids: Vec::new(),
            projectiles: Vec::new(),
            game_state: GameState::default(),
            pausing_state: PausingState::default(),
            hero_ship_remaining_lives: HeroShipRemainingLives::default(),
            scoreboard_score: ScoreboardScore::default(),
            projectile_spawn_timer: ProjectileSpawnTimer::default(),
            hero_ship_respawn_timer: HeroShipRespawnTimer::default(),
            hero_ship_still_alive_timer: HeroShipStillAliveTimer::default(),
        };
        setup_main_entities(&mut world);
        world
    }
}

/// Clears the play entities on entering the end-game screen: asteroid and
/// projectile stores emptied, the ship hidden and excluded from collisions.
/// Score and lives stay visible and untouched.
pub fn despawn_entities(world: &mut GameWorld)
    ensures
        final(world).asteroids@.len() == 0,
        final(world).projectiles@.len() == 0,
        final(world).hero_ship == (HeroShip {
            visible: false,
            collidable: false,
            ..old(world).hero_ship
        }),
        final(world).game_state == old(world).game_state,
        final(world).pausing_state == old(world).pausing_state,
        final(world).hero_ship_remaining_lives == old(world).hero_ship_remaining_lives,
        final(world).scoreboard_score == old(world).scoreboard_score,
        final(world).projectile_spawn_timer == old(world).projectile_spawn_timer,
        final(world).hero_ship_respawn_timer == old(world).hero_ship_respawn_timer,
        final(world).hero_ship_still_alive_timer == old(world).hero_ship_still_alive_timer,
{
    world.asteroids = Vec::new();
    world.projectiles = Vec::new();
    world.hero_ship.visible = false;
    world.hero_ship.collidable = false;
}

/// Start-screen transition: on the confirm edge the session enters play.
/// Anywhere else, or without the edge, nothing changes.
pub fn check_for_starting_by_keyboard(world: &mut GameWorld, input: InputState)
    ensures
        if input.confirm_just_pressed && old(world).game_state == GameState::StartScreen {
            *final(world) == (GameWorld { game_state: GameState::InGame, ..*old(world) })
        } else {
            *final(world) == *old(world)
        },
{
    if input.confirm_just_pressed {
        if world.game_state == GameState::StartScreen {
            world.game_state = GameState::InGame;
        }
    }
}

/// End-game transition: on the confirm edge the session restarts — lives and
/// score reset, a fresh ship and initial asteroid population, play resumed
/// unpaused. Without the edge nothing changes.
pub fn check_for_restarting_by_keyboard(world: &mut GameWorld, input: InputState)
    ensures
        if input.confirm_just_pressed && old(world).game_state == GameState::EndGame {
            &&& final(world).game_state == GameState::InGame
            &&& final(world).pausing_state == PausingState::Running
            &&& final(world).hero_ship_remaining_lives.lives_remaining == INITIAL_LIVES
            &&& final(world).scoreboard_score.score == 0
            &&& final(world).asteroids@.len() == INITIAL_BIG_ASTEROIDS_ONSCREEN
            &&& forall|i: int|
                0 <= i < final(world).asteroids@.len() ==> initial_asteroid_ok(
                    #[trigger] final(world).asteroids@[i],
                )
            &&& final(world).projectiles@.len() == 0
            &&& hero_ship_wf(final(world).hero_ship)
            &&& final(world).hero_ship.visible
            &&& final(world).hero_ship.collidable
            &&& final(world).hero_ship.translation == (Vec2 { x: 0, y: 0 })
            &&& final(world).projectile_spawn_timer == old(world).projectile_spawn_timer
            &&& final(world).hero_ship_respawn_timer == old(world).hero_ship_respawn_timer
            &&& final(world).hero_ship_still_alive_timer == old(world).hero_ship_still_alive_timer
        } else {
            *final(world) == *old(world)
        },
{
    if input.confirm_just_pressed {
        if world.game_state == GameState::EndGame {
            world.hero_ship_remaining_lives = HeroShipRemainingLives::default();
            world.scoreboard_score = ScoreboardScore::default();
            world.asteroids = Vec::new();
            world.projectiles = Vec::new();
            setup_main_entities(world);
            world.game_state = GameState::InGame;
            world.pausing_state = PausingState::Running;
        }
    }
}

/// One fixed simulation tick. Session transitions are judged on the state at
/// tick entry; gameplay — ship controller, kinematics, projectile despawn and
/// fire, asteroid recycle, collision resolution, survival bonus, in that fixed
/// order — runs exactly when the session was in play and unpaused, and then
/// the returned outcome reports what the collision resolver decided. While
/// paused, or outside play, no entity moves. The caller supplies the ship's
/// forward unit vector (milli scale), derived from its heading at tick entry.
pub fn tick(
    world: &mut GameWorld,
    input: InputState,
    hero_ship_forward: Vec2,
    delta_ms: u64,
) -> (outcome: Option<CollisionOutcome>)
    requires
        world_wf(*old(world)),
        direction_bounded(hero_ship_forward),
        delta_ms <= MAX_TICK_MS,
        old(world).scoreboard_score.score + 50 * old(world).asteroids@.len() + 5 <= usize::MAX,
    ensures
        world_wf(*final(world)),
        (outcome is Some) == (old(world).game_state == GameState::InGame
            && old(world).pausing_state == PausingState::Running),
        old(world).game_state == GameState::StartScreen ==> {
            if input.confirm_just_pressed {
                *final(world) == (GameWorld { game_state: GameState::InGame, ..*old(world) })
            } else {
                *final(world) == *old(world)
            }
        },
        old(world).game_state == GameState::EndGame ==> {
            if input.confirm_just_pressed {
                &&& final(world).game_state == GameState::InGame
                &&& final(world).pausing_state == PausingState::Running
                &&& final(world).hero_ship_remaining_lives.lives_remaining == INITIAL_LIVES
                &&& final(world).scoreboard_score.score == 0
                &&& final(world).asteroids@.len() == INITIAL_BIG_ASTEROIDS_ONSCREEN
                &&& forall|i: int|
                    0 <= i < final(world).asteroids@.len() ==> initial_asteroid_ok(
                        #[trigger] final(world).asteroids@[i],
                    )
                &&& final(world).projectiles@.len() == 0
                &&& final(world).hero_ship.visible
                &&& final(world).hero_ship.collidable
                &&& final(world).hero_ship.translation == (Vec2 { x: 0, y: 0 })
            } else {
                &&& final(world).asteroids@.len() == 0
                &&& final(world).projectiles@.len() == 0
                &&& final(world).hero_ship == (HeroShip {
                    visible: false,
                    collidable: false,
                    ..old(world).hero_ship
                })
                &&& final(world).game_state == GameState::EndGame
                &&& final(world).pausing_state == old(world).pausing_state
                &&& final(world).hero_ship_remaining_lives == old(world).hero_ship_remaining_lives
                &&& final(world).scoreboard_score == old(world).scoreboard_score
            }
        },
        (old(world).game_state == GameState::InGame && old(world).pausing_state
            == PausingState::Paused) ==> {
            if input.cancel_just_pressed {
                *final(world) == (GameWorld { pausing_state: PausingState::Running, ..*old(world) })
            } else {
                *final(world) == *old(world)
            }
        },
        final(world).scoreboard_score.score >= old(world).scoreboard_score.score || (old(world).game_state == GameState::EndGame && input.confirm_just_pressed),
        match outcome {
            Some(oc) => {
                let start_asteroids = old(world).asteroids@;
                let pair_count = oc.pairs@.len() as int;
                &&& oc.pairs@.len() <= start_asteroids.len()
                &&& forall|k: int|
                    0 <= k < oc.pairs@.len() ==> (#[trigger] oc.pairs@[k]).asteroid_index
                        < start_asteroids.len()
                &&& forall|k1: int, k2: int|
                    0 <= k1 < k2 < oc.pairs@.len() ==> (#[trigger] oc.pairs@[k1]).asteroid_index
                        < (#[trigger] oc.pairs@[k2]).asteroid_index
                &&& final(world).game_state == GameState::InGame ==> final(world).asteroids@.len()
                    == start_asteroids.len() - pair_count + children_count_prefix(
                    start_asteroids,
                    oc.pairs@,
                    pair_count,
                )
                &&& final(world).scoreboard_score.score == old(world).scoreboard_score.score
                    + score_gain_prefix(start_asteroids, oc.pairs@, pair_count) + if delta_ms
                    >= old(world).hero_ship_still_alive_timer.0.remaining {
                    STILL_ALIVE_SCORE_BONUS as int
                } else {
                    0
                }
                &&& match oc.ship_hit {
                    Some(_) => {
                        &&& old(world).hero_ship_remaining_lives.lives_remaining > 0
                        &&& final(world).hero_ship_remaining_lives.lives_remaining == old(world).hero_ship_remaining_lives.lives_remaining - 1
                        &&& final(world).game_state == (if old(world).hero_ship_remaining_lives.lives_remaining == 1 {
                            GameState::EndGame
                        } else {
                            GameState::InGame
                        })
                        &&& !final(world).hero_ship.visible
                        &&& !final(world).hero_ship.collidable
                    },
                    None => {
                        &&& final(world).hero_ship_remaining_lives == old(world).hero_ship_remaining_lives
                        &&& final(world).game_state == GameState::InGame
                    },
                }
                &&& (final(world).game_state == GameState::EndGame) == (final(world).hero_ship_remaining_lives.lives_remaining == 0)
                &&& final(world).pausing_state == (if input.cancel_just_pressed {
                    PausingState::Paused
                } else {
                    PausingState::Running
                })
                &&& ({
                    // The tick's pipeline, step by step: the ship through
                    // controller, wrap and respawn; the projectiles through
                    // travel, border despawn and fire; the asteroids through
                    // drift and random recycling (the recorded resolution
                    // snapshot); then both collision rules judged on exactly
                    // those entities and applied once per entity.
                    let dt = delta_ms as int;
                    let ship_after_steps = ship_after_respawn(
                        ship_after_wrap(
                            ship_after_controller(
                                old(world).hero_ship,
                                input,
                                hero_ship_forward,
                                dt,
                            ),
                        ),
                        old(world).hero_ship_respawn_timer.0,
                        dt,
                    );
                    let mid_projectiles = projectiles_after_fire(
                        onscreen_projectiles(
                            projectiles_after_movement(old(world).projectiles@, dt),
                        ),
                        old(world).projectile_spawn_timer.0,
                        ship_after_steps,
                        input,
                        hero_ship_forward,
                        dt,
                    );
                    let mid_asteroids = oc.asteroids_at_resolution@;
                    &&& recycled_from(
                        asteroids_after_movement(old(world).asteroids@, dt),
                        mid_asteroids,
                    )
                    &&& final(world).hero_ship == (if oc.ship_hit is Some {
                        HeroShip { visible: false, collidable: false, ..ship_after_steps }
                    } else {
                        ship_after_steps
                    })
                    &&& final(world).hero_ship_respawn_timer.0 == respawn_timer_after(
                        ship_after_wrap(
                            ship_after_controller(
                                old(world).hero_ship,
                                input,
                                hero_ship_forward,
                                dt,
                            ),
                        ),
                        old(world).hero_ship_respawn_timer.0,
                        dt,
                    )
                    &&& final(world).projectile_spawn_timer.0 == fire_timer_after(
                        old(world).projectile_spawn_timer.0,
                        input,
                        dt,
                    )
                    &&& final(world).hero_ship_still_alive_timer.0 == timer_after_tick(
                        old(world).hero_ship_still_alive_timer.0,
                        dt,
                    )
                    &&& (match oc.ship_hit {
                        Some(i) => {
                            &&& (i as int) < mid_asteroids.len()
                            &&& ship_after_steps.collidable
                            &&& asteroid_hits_ship(mid_asteroids[i as int], ship_after_steps)
                            &&& forall|k: int|
                                0 <= k < i ==> !asteroid_hits_ship(
                                    #[trigger] mid_asteroids[k],
                                    ship_after_steps,
                                )
                        },
                        None => {
                            !ship_after_steps.collidable || forall|k: int|
                                0 <= k < mid_asteroids.len() ==> !asteroid_hits_ship(
                                    #[trigger] mid_asteroids[k],
                                    ship_after_steps,
                                )
                        },
                    })
                    &&& plan_valid(oc.pairs@, mid_asteroids, mid_projectiles, oc.ship_hit)
                    &&& (final(world).game_state == GameState::InGame ==> {
                        let survivors = masked_keep(
                            mid_asteroids,
                            asteroid_destroy_mask(oc.pairs@, mid_asteroids.len() as int),
                        );
                        &&& final(world).projectiles@ == masked_keep(
                            mid_projectiles,
                            projectile_destroy_mask(oc.pairs@, mid_projectiles.len() as int),
                        )
                        &&& final(world).asteroids@.len() == survivors.len()
                            + children_count_prefix(mid_asteroids, oc.pairs@, pair_count)
                        &&& final(world).asteroids@.subrange(0, survivors.len() as int)
                            == survivors
                        &&& forall|k: int, c: int|
                            0 <= k < oc.pairs@.len() && children_count_prefix(
                                mid_asteroids,
                                oc.pairs@,
                                k,
                            ) <= c < children_count_prefix(mid_asteroids, oc.pairs@, k + 1)
                                ==> #[trigger] child_slot_ok(
                                mid_asteroids,
                                oc.pairs@,
                                final(world).asteroids@,
                                survivors.len() as int,
                                k,
                                c,
                            )
                    })
                    &&& (final(world).game_state == GameState::EndGame ==> {
                        &&& final(world).asteroids@.len() == 0
                        &&& final(world).projectiles@.len() == 0
                    })
                })
            },
            None => true,
        },
{
    let state_at_entry: GameState = world.game_state;
    match state_at_entry {
        GameState::StartScreen => {
            check_for_starting_by_keyboard(world, input);
            None
        },
        GameState::EndGame => {
            despawn_entities(world);
            check_for_restarting_by_keyboard(world, input);
            proof {
                if input.confirm_just_pressed {
                    assert forall|i: int| 0 <= i < world.asteroids@.len() implies asteroid_wf(
                        #[trigger] world.asteroids@[i],
                    ) && within_offscreen_window(world.asteroids@[i].translation) by {
                        assert(initial_asteroid_ok(world.asteroids@[i]));
                    }
                }
            }
            None
        },
        GameState::InGame => {
            let was_running: bool = world.pausing_state == PausingState::Running;
            check_for_pausing_by_keyboard(world, input);
            if !was_running {
                return None;
            }

            let ghost a0: Seq<Asteroid> = world.asteroids@;

            set_hero_ship_movement_and_rotation(
                &mut world.hero_ship,
                input,
                hero_ship_forward,
                delta_ms,
            );
            set_hero_ship_position_after_border_outbounds(&mut world.hero_ship);
            respawn_hero_ship_on_demand(
                &mut world.hero_ship,
                &mut world.hero_ship_respawn_timer,
                delta_ms,
            );

            let ghost pj0: Seq<Projectile> = world.projectiles@;
            set_projectile_movement(&mut world.projectiles, delta_ms);
            proof {
                assert forall|j: int| 0 <= j < world.projectiles@.len() implies projectile_wf(
                    #[trigger] world.projectiles@[j],
                ) by {
                    assert(projectile_wf(pj0[j]));
                }
            }
            despawn_border_outbound_projectiles(&mut world.projectiles);
            hero_ship_fire_projectile(
                &world.hero_ship,
                &mut world.projectiles,
                &mut world.projectile_spawn_timer,
                input,
                hero_ship_forward,
                delta_ms,
            );
            let ghost p2: Seq<Projectile> = world.projectiles@;
            proof {
                assert forall|j: int| 0 <= j < p2.len() implies projectile_wf(#[trigger] p2[j])
                    && within_offscreen_window(p2[j].translation) by {
                    assert(ship_position_in_window(world.hero_ship.translation));
                }
            }

            set_asteroid_movement_and_rotation(&mut world.asteroids, delta_ms);
            let ghost a1: Seq<Asteroid> = world.asteroids@;
            proof {
                assert forall|i: int| 0 <= i < a1.len() implies asteroid_wf(#[trigger] a1[i]) by {
                    assert(asteroid_wf(a0[i]));
                }
            }
            set_asteroid_position_after_border_outbounds(&mut world.asteroids);
            let ghost a2: Seq<Asteroid> = world.asteroids@;
            proof {
                assert forall|i: int| 0 <= i < a2.len() implies asteroid_wf(#[trigger] a2[i])
                    && within_offscreen_window(a2[i].translation) && crate::kinematics::position_bounded(
                    a2[i].translation,
                ) && a2[i].asteroid_type == a0[i].asteroid_type by {
                    assert(asteroid_wf(a0[i]) && within_offscreen_window(a0[i].translation));
                    assert(a1[i].asteroid_type == a0[i].asteroid_type);
                }
            }

            let collision_outcome: CollisionOutcome = resolve_collisions(
                &mut world.asteroids,
                &mut world.projectiles,
                &mut world.hero_ship,
                &mut world.hero_ship_remaining_lives,
                &mut world.game_state,
                &mut world.scoreboard_score,
            );
            proof {
                let pairs = collision_outcome.pairs@;
                let pair_count = pairs.len() as int;
                assert forall|k: int| 0 <= k < pairs.len() implies (#[trigger] pairs[k]).asteroid_index
                    < a2.len() by {
                    assert(crate::collision::pair_valid(
                        pairs[k],
                        a2,
                        p2,
                        collision_outcome.ship_hit,
                    ));
                }
                assert forall|k1: int, k2: int|
                    0 <= k1 < k2 < pairs.len() implies (#[trigger] pairs[k1]).asteroid_index
                    != (#[trigger] pairs[k2]).asteroid_index by {
                    assert(pairs[k1].asteroid_index < pairs[k2].asteroid_index);
                }
                lemma_destroy_mask_count(pairs, a2.len() as int);
                lemma_masked_keep_count(
                    a2,
                    crate::collision::asteroid_destroy_mask(pairs, a2.len() as int),
                );
                lemma_prefixes_depend_on_types(a2, a0, pairs, pair_count);
                lemma_score_gain_prefix_bounds(a2, pairs, pair_count);

                // The surviving and spawned asteroids stay in the window.
                assert forall|x: int| 0 <= x < world.asteroids@.len() implies
                    within_offscreen_window((#[trigger] world.asteroids@[x]).translation) by {
                    let i = choose|i: int|
                        0 <= i < a2.len() && (#[trigger] world.asteroids@[x]).translation
                            == a2[i].translation;
                    assert(within_offscreen_window(a2[i].translation));
                }
                // The surviving projectiles stay well-formed and in the window.
                let pmask = crate::collision::projectile_destroy_mask(pairs, p2.len() as int);
                assert forall|x: int| 0 <= x < world.projectiles@.len() implies projectile_wf(
                    #[trigger] world.projectiles@[x],
                ) && within_offscreen_window(world.projectiles@[x].translation) by {
                    lemma_masked_keep_membership(p2, pmask, x);
                    let i = choose|i: int|
                        0 <= i < p2.len() && masked_keep(p2, pmask)[x] == #[trigger] p2[i];
                    assert(world.projectiles@[x] == p2[i]);
                }
            }

            dynamic_hero_ship_still_alive_check(
                &mut world.hero_ship_still_alive_timer,
                &mut world.scoreboard_score,
                delta_ms,
            );
            // The transition into the end-game screen despawns the play
            // entities on the same tick; the score stays visible.
            if world.game_state == GameState::EndGame {
                despawn_entities(world);
            }
            Some(collision_outcome)
        },
    }
}

/// Pause toggle: during play the cancel edge flips between paused and
/// running. Without the edge, or outside play, nothing changes.
pub fn check_for_pausing_by_keyboard(world: &mut GameWorld, input: InputState)
    ensures
        if input.cancel_just_pressed && old(world).game_state == GameState::InGame {
            *final(world) == (GameWorld {
                pausing_state: if old(world).pausing_state == PausingState::Paused {
                    PausingState::Running
                } else {
                    PausingState::Paused
                },
                ..*old(world)
            })
        } else {
            *final(world) == *old(world)
        },
{
    if input.cancel_just_pressed {
        if world.game_state == GameState::InGame {
            if world.pausing_state == PausingState::Paused {
                world.pausing_state = PausingState::Running;
            } else {
                world.pausing_state = PausingState::Paused;
            }
        }
    }
}

} // verus!

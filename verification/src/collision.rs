//! Collision detection and resolution: circle–circle tests over every
//! (asteroid, projectile) and (asteroid, ship) pair, run once per tick after
//! integration, and the two resolution rules applied through a deduplicated
//! two-phase plan so that no entity is ever destroyed twice in one tick.
//! A ship collision takes priority over a projectile collision on the same
//! asteroid.

use vstd::prelude::*;

use crate::asteroid::{
    asteroid_wf,
    split_child_of,
    split_count_of,
    spawn_asteroids_after_collision,
    Asteroid,
    AsteroidType,
};
use crate::constants::{
    BIG_ASTEROID_SCORE,
    HERO_SHIP_COLLIDER_BALL_SIZE,
    MEDIUM_ASTEROID_SCORE,
    PROJECTILE_COLLIDER_BALL_SIZE,
    SMALL_ASTEROID_SCORE,
};
use crate::hero_ship::{HeroShip, HeroShipRemainingLives};
use crate::kinematics::{lemma_mul_abs_bound, position_bounded, Vec2};
use crate::projectile::Projectile;
use crate::session::{GameState, ScoreboardScore};
use crate::seq_util::{lemma_masked_keep_full, lemma_masked_keep_one_more, masked_keep};

verus! {

/// Two circles touch or overlap: the squared center distance is at most the
/// squared radius sum.
pub open spec fn circles_intersect_spec(
    first_center: Vec2,
    first_radius: i64,
    second_center: Vec2,
    second_radius: i64,
) -> bool {
    let dx = first_center.x - second_center.x;
    let dy = first_center.y - second_center.y;
    let radius_sum = first_radius + second_radius;
    dx * dx + dy * dy <= radius_sum * radius_sum
}

/// Circle–circle intersection, computed exactly in wide integers.
pub fn circles_intersect(
    first_center: Vec2,
    first_radius: i64,
    second_center: Vec2,
    second_radius: i64,
) -> (hit: bool)
    requires
        position_bounded(first_center),
        position_bounded(second_center),
        0 <= first_radius <= 100_000_000_000,
        0 <= second_radius <= 100_000_000_000,
    ensures
        hit == circles_intersect_spec(first_center, first_radius, second_center, second_radius),
{
    let dx: i128 = first_center.x as i128 - second_center.x as i128;
    let dy: i128 = first_center.y as i128 - second_center.y as i128;
    let radius_sum: i128 = first_radius as i128 + second_radius as i128;
    proof {
        lemma_mul_abs_bound(dx as int, dx as int, 4_000_000_000_000, 4_000_000_000_000);
        lemma_mul_abs_bound(dy as int, dy as int, 4_000_000_000_000, 4_000_000_000_000);
        lemma_mul_abs_bound(radius_sum as int, radius_sum as int, 200_000_000_000, 200_000_000_000);
    }
    dx * dx + dy * dy <= radius_sum * radius_sum
}

/// An asteroid touches the hero ship.
pub open spec fn asteroid_hits_ship(a: Asteroid, s: HeroShip) -> bool {
    circles_intersect_spec(a.translation, a.collider_ball_size, s.translation, HERO_SHIP_COLLIDER_BALL_SIZE)
}

/// An asteroid touches a projectile.
pub open spec fn asteroid_hits_projectile(a: Asteroid, p: Projectile) -> bool {
    circles_intersect_spec(a.translation, a.collider_ball_size, p.translation, PROJECTILE_COLLIDER_BALL_SIZE)
}

/// Score value of destroying an asteroid of this class: the smaller and
/// harder to hit, the more points.
pub open spec fn score_value_of(t: AsteroidType) -> int {
    match t {
        AsteroidType::Small => SMALL_ASTEROID_SCORE as int,
        AsteroidType::Medium => MEDIUM_ASTEROID_SCORE as int,
        AsteroidType::Big => BIG_ASTEROID_SCORE as int,
    }
}

/// Adds the size-indexed score value for one destroyed asteroid.
pub fn increase_score_based_on_asteroid_type(
    asteroid_type: AsteroidType,
    scoreboard_score: &mut ScoreboardScore,
)
    requires
        old(scoreboard_score).score + 50 <= usize::MAX,
    ensures
        final(scoreboard_score).score == old(scoreboard_score).score + score_value_of(asteroid_type),
{
    match asteroid_type {
        AsteroidType::Small => {
            scoreboard_score.score = scoreboard_score.score + SMALL_ASTEROID_SCORE;
        },
        AsteroidType::Medium => {
            scoreboard_score.score = scoreboard_score.score + MEDIUM_ASTEROID_SCORE;
        },
        AsteroidType::Big => {
            scoreboard_score.score = scoreboard_score.score + BIG_ASTEROID_SCORE;
        },
    }
}

/// One planned asteroid–projectile resolution: both will be destroyed.
#[derive(Clone, Copy, Debug, PartialEq, Eq, Structural)]
pub struct CollisionPair {
    pub asteroid_index: usize,
    pub projectile_index: usize,
}

/// Some pair in the plan destroys the asteroid at this position.
pub open spec fn asteroid_in_pairs(pairs: Seq<CollisionPair>, i: int) -> bool {
    exists|k: int| 0 <= k < pairs.len() && (#[trigger] pairs[k]).asteroid_index == i
}

/// Some pair in the plan consumes the projectile at this position.
pub open spec fn projectile_in_pairs(pairs: Seq<CollisionPair>, j: int) -> bool {
    exists|k: int| 0 <= k < pairs.len() && (#[trigger] pairs[k]).projectile_index == j
}

/// A pair is valid for the given entity sets: indices in range, the two
/// really touch, and the asteroid is not the one the ship rule claimed.
pub open spec fn pair_valid(
    p: CollisionPair,
    asteroids: Seq<Asteroid>,
    projectiles: Seq<Projectile>,
    excluded_asteroid: Option<usize>,
) -> bool {
    &&& p.asteroid_index < asteroids.len()
    &&& p.projectile_index < projectiles.len()
    &&& asteroid_hits_projectile(asteroids[p.asteroid_index as int], projectiles[p.projectile_index as int])
    &&& match excluded_asteroid {
        Some(e) => p.asteroid_index != e,
        None => true,
    }
}

/// The whole plan is valid: every pair valid, asteroid positions strictly
/// increasing (so no asteroid is destroyed twice), projectile positions
/// pairwise distinct (so no projectile is consumed twice), and complete —
/// an unpaired, unexcluded asteroid has every projectile that touches it
/// consumed by some other pair.
pub open spec fn plan_valid(
    pairs: Seq<CollisionPair>,
    asteroids: Seq<Asteroid>,
    projectiles: Seq<Projectile>,
    excluded_asteroid: Option<usize>,
) -> bool {
    &&& forall|k: int| 0 <= k < pairs.len() ==> pair_valid(#[trigger] pairs[k], asteroids, projectiles, excluded_asteroid)
    &&& forall|k1: int, k2: int|
        0 <= k1 < k2 < pairs.len() ==> (#[trigger] pairs[k1]).asteroid_index
            < (#[trigger] pairs[k2]).asteroid_index
    &&& forall|k1: int, k2: int|
        0 <= k1 < k2 < pairs.len() ==> (#[trigger] pairs[k1]).projectile_index
            != (#[trigger] pairs[k2]).projectile_index
    &&& forall|i: int, j: int|
        {
            &&& 0 <= i < asteroids.len()
            &&& 0 <= j < projectiles.len()
            &&& !asteroid_in_pairs(pairs, i)
            &&& (match excluded_asteroid {
                Some(e) => i != e,
                None => true,
            })
            &&& asteroid_hits_projectile(#[trigger] asteroids[i], #[trigger] projectiles[j])
        } ==> projectile_in_pairs(pairs, j)
}

/// Rule 2 detection: while the ship is collidable, finds the first asteroid
/// touching it; `None` exactly when the ship is not collidable or nothing
/// touches it.
pub fn detect_asteroid_hero_ship_collision(
    asteroids: &Vec<Asteroid>,
    hero_ship_entity: &HeroShip,
) -> (hit: Option<usize>)
    requires
        forall|i: int| 0 <= i < asteroids@.len() ==> asteroid_wf(#[trigger] asteroids@[i]),
        forall|i: int|
            0 <= i < asteroids@.len() ==> position_bounded((#[trigger] asteroids@[i]).translation),
        position_bounded(hero_ship_entity.translation),
    ensures
        match hit {
            Some(i) => {
                &&& i < asteroids@.len()
                &&& hero_ship_entity.collidable
                &&& asteroid_hits_ship(asteroids@[i as int], *hero_ship_entity)
                &&& forall|k: int|
                    0 <= k < i ==> !asteroid_hits_ship(#[trigger] asteroids@[k], *hero_ship_entity)
            },
            None => {
                !hero_ship_entity.collidable || forall|k: int|
                    0 <= k < asteroids@.len() ==> !asteroid_hits_ship(
                        #[trigger] asteroids@[k],
                        *hero_ship_entity,
                    )
            },
        },
{
    if !hero_ship_entity.collidable {
        return None;
    }
    let mut idx: usize = 0;
    while idx < asteroids.len()
        invariant
            idx <= asteroids@.len(),
            forall|i: int| 0 <= i < asteroids@.len() ==> asteroid_wf(#[trigger] asteroids@[i]),
            forall|i: int|
                0 <= i < asteroids@.len() ==> position_bounded((#[trigger] asteroids@[i]).translation),
            position_bounded(hero_ship_entity.translation),
            hero_ship_entity.collidable,
            forall|k: int|
                0 <= k < idx ==> !asteroid_hits_ship(#[trigger] asteroids@[k], *hero_ship_entity),
        decreases asteroids@.len() - idx,
    {
        let a: &Asteroid = &asteroids[idx];
        if circles_intersect(
            a.translation,
            a.collider_ball_size,
            hero_ship_entity.translation,
            HERO_SHIP_COLLIDER_BALL_SIZE,
        ) {
            return Some(idx);
        }
        idx = idx + 1;
    }
    None
}

/// Rule 1 detection: greedily matches each remaining asteroid (skipping the
/// one the ship rule claimed) with a projectile that touches it, consuming
/// each projectile at most once. The returned plan is valid and complete.
pub fn detect_asteroid_projectile_collision(
    asteroids: &Vec<Asteroid>,
    projectiles: &Vec<Projectile>,
    excluded_asteroid: Option<usize>,
) -> (pairs: Vec<CollisionPair>)
    requires
        forall|i: int| 0 <= i < asteroids@.len() ==> asteroid_wf(#[trigger] asteroids@[i]),
        forall|i: int|
            0 <= i < asteroids@.len() ==> position_bounded((#[trigger] asteroids@[i]).translation),
        forall|j: int|
            0 <= j < projectiles@.len() ==> position_bounded(
                (#[trigger] projectiles@[j]).translation,
            ),
    ensures
        plan_valid(pairs@, asteroids@, projectiles@, excluded_asteroid),
        pairs@.len() <= asteroids@.len(),
{
    let asteroid_count: usize = asteroids.len();
    let projectile_count: usize = projectiles.len();

    let mut used: Vec<bool> = Vec::new();
    while used.len() < projectile_count
        invariant
            used@.len() <= projectile_count,
            forall|j: int| 0 <= j < used@.len() ==> !(#[trigger] used@[j]),
        decreases projectile_count - used@.len(),
    {
        used.push(false);
    }

    let mut pairs: Vec<CollisionPair> = Vec::new();
    let mut i: usize = 0;
    while i < asteroid_count
        invariant
            i <= asteroid_count,
            asteroid_count == asteroids@.len(),
            projectile_count == projectiles@.len(),
            used@.len() == projectile_count,
            forall|i2: int| 0 <= i2 < asteroids@.len() ==> asteroid_wf(#[trigger] asteroids@[i2]),
            forall|i2: int|
                0 <= i2 < asteroids@.len() ==> position_bounded(
                    (#[trigger] asteroids@[i2]).translation,
                ),
            forall|j: int|
                0 <= j < projectiles@.len() ==> position_bounded(
                    (#[trigger] projectiles@[j]).translation,
                ),
            forall|j: int| 0 <= j < used@.len() ==> used@[j] == projectile_in_pairs(pairs@, j),
            forall|k: int|
                0 <= k < pairs@.len() ==> pair_valid(
                    #[trigger] pairs@[k],
                    asteroids@,
                    projectiles@,
                    excluded_asteroid,
                ),
            forall|k: int| 0 <= k < pairs@.len() ==> (#[trigger] pairs@[k]).asteroid_index < i,
            forall|k1: int, k2: int|
                0 <= k1 < k2 < pairs@.len() ==> (#[trigger] pairs@[k1]).asteroid_index
                    < (#[trigger] pairs@[k2]).asteroid_index,
            forall|k1: int, k2: int|
                0 <= k1 < k2 < pairs@.len() ==> (#[trigger] pairs@[k1]).projectile_index
                    != (#[trigger] pairs@[k2]).projectile_index,
            forall|i2: int, j: int|
                {
                    &&& 0 <= i2 < i
                    &&& 0 <= j < projectiles@.len()
                    &&& !asteroid_in_pairs(pairs@, i2)
                    &&& (match excluded_asteroid {
                        Some(e) => i2 != e,
                        None => true,
                    })
                    &&& asteroid_hits_projectile(#[trigger] asteroids@[i2], #[trigger] projectiles@[j])
                } ==> projectile_in_pairs(pairs@, j),
            pairs@.len() <= i,
        decreases asteroid_count - i,
    {
        let skip: bool = match excluded_asteroid {
            Some(e) => e == i,
            None => false,
        };
        if !skip {
            let a: &Asteroid = &asteroids[i];
            let mut found: Option<usize> = None;
            let mut j: usize = 0;
            while j < projectile_count
                invariant
                    j <= projectile_count,
                    projectile_count == projectiles@.len(),
                    used@.len() == projectile_count,
                    i < asteroids@.len(),
                    *a == asteroids@[i as int],
                    asteroid_wf(*a),
                    position_bounded(a.translation),
                    forall|j2: int|
                        0 <= j2 < projectiles@.len() ==> position_bounded(
                            (#[trigger] projectiles@[j2]).translation,
                        ),
                    match found {
                        Some(jj) => {
                            &&& jj < projectiles@.len()
                            &&& !used@[jj as int]
                            &&& asteroid_hits_projectile(asteroids@[i as int], projectiles@[jj as int])
                        },
                        None => {
                            forall|j2: int|
                                0 <= j2 < j ==> (used@[j2] || !asteroid_hits_projectile(
                                    asteroids@[i as int],
                                    #[trigger] projectiles@[j2],
                                ))
                        },
                    },
                decreases projectile_count - j,
            {
                if found.is_none() {
                    let in_use: bool = used[j];
                    if !in_use {
                        let p: &Projectile = &projectiles[j];
                        if circles_intersect(
                            a.translation,
                            a.collider_ball_size,
                            p.translation,
                            PROJECTILE_COLLIDER_BALL_SIZE,
                        ) {
                            found = Some(j);
                        }
                    }
                }
                j = j + 1;
            }
            match found {
                Some(jj) => {
                    let ghost pairs_before: Seq<CollisionPair> = pairs@;
                    let new_pair: CollisionPair =
                        CollisionPair { asteroid_index: i, projectile_index: jj };
                    pairs.push(new_pair);
                    used.set(jj, true);
                    proof {
                        assert forall|j2: int| 0 <= j2 < used@.len() implies used@[j2]
                            == projectile_in_pairs(pairs@, j2) by {
                            if j2 == jj {
                                assert(pairs@[pairs@.len() - 1].projectile_index == j2);
                            } else {
                                if projectile_in_pairs(pairs@, j2) {
                                    let k = choose|k: int|
                                        0 <= k < pairs@.len() && (#[trigger] pairs@[k]).projectile_index
                                            == j2;
                                    assert(k < pairs_before.len());
                                    assert(pairs_before[k].projectile_index == j2);
                                }
                                if projectile_in_pairs(pairs_before, j2) {
                                    let k = choose|k: int|
                                        0 <= k < pairs_before.len()
                                            && (#[trigger] pairs_before[k]).projectile_index == j2;
                                    assert(pairs@[k].projectile_index == j2);
                                }
                            }
                        }
                        assert forall|i2: int, j2: int|
                            {
                                &&& 0 <= i2 < i + 1
                                &&& 0 <= j2 < projectiles@.len()
                                &&& !asteroid_in_pairs(pairs@, i2)
                                &&& (match excluded_asteroid {
                                    Some(e) => i2 != e,
                                    None => true,
                                })
                                &&& asteroid_hits_projectile(
                                    #[trigger] asteroids@[i2],
                                    #[trigger] projectiles@[j2],
                                )
                            } implies projectile_in_pairs(pairs@, j2) by {
                            if i2 == i {
                                assert(pairs@[pairs@.len() - 1].asteroid_index == i2);
                                assert(asteroid_in_pairs(pairs@, i2));
                            } else {
                                if !asteroid_in_pairs(pairs_before, i2) {
                                    assert(projectile_in_pairs(pairs_before, j2));
                                    let k = choose|k: int|
                                        0 <= k < pairs_before.len()
                                            && (#[trigger] pairs_before[k]).projectile_index == j2;
                                    assert(pairs@[k].projectile_index == j2);
                                } else {
                                    let k = choose|k: int|
                                        0 <= k < pairs_before.len()
                                            && (#[trigger] pairs_before[k]).asteroid_index == i2;
                                    assert(pairs@[k].asteroid_index == i2);
                                    assert(asteroid_in_pairs(pairs@, i2));
                                }
                            }
                        }
                    }
                },
                None => {
                    proof {
                        assert forall|i2: int, j2: int|
                            {
                                &&& 0 <= i2 < i + 1
                                &&& 0 <= j2 < projectiles@.len()
                                &&& !asteroid_in_pairs(pairs@, i2)
                                &&& (match excluded_asteroid {
                                    Some(e) => i2 != e,
                                    None => true,
                                })
                                &&& asteroid_hits_projectile(
                                    #[trigger] asteroids@[i2],
                                    #[trigger] projectiles@[j2],
                                )
                            } implies projectile_in_pairs(pairs@, j2) by {
                            if i2 == i {
                                assert(used@[j2]);
                            }
                        }
                    }
                },
            }
        }
        i = i + 1;
    }
    pairs
}

/// The positions of the asteroids a plan destroys, as a mask over the
/// asteroid sequence.
pub open spec fn asteroid_destroy_mask(pairs: Seq<CollisionPair>, count: int) -> Seq<bool> {
    Seq::new(count as nat, |i: int| asteroid_in_pairs(pairs, i))
}

/// The positions of the projectiles a plan consumes, as a mask over the
/// projectile sequence.
pub open spec fn projectile_destroy_mask(pairs: Seq<CollisionPair>, count: int) -> Seq<bool> {
    Seq::new(count as nat, |j: int| projectile_in_pairs(pairs, j))
}

/// A plan the apply phase can run: indices in range, each asteroid destroyed
/// at most once (strictly increasing positions), each projectile consumed at
/// most once.
pub open spec fn plan_applicable(
    pairs: Seq<CollisionPair>,
    asteroid_count: int,
    projectile_count: int,
) -> bool {
    &&& forall|k: int|
        0 <= k < pairs.len() ==> (#[trigger] pairs[k]).asteroid_index < asteroid_count
            && pairs[k].projectile_index < projectile_count
    &&& forall|k1: int, k2: int|
        0 <= k1 < k2 < pairs.len() ==> (#[trigger] pairs[k1]).asteroid_index
            < (#[trigger] pairs[k2]).asteroid_index
    &&& forall|k1: int, k2: int|
        0 <= k1 < k2 < pairs.len() ==> (#[trigger] pairs[k1]).projectile_index
            != (#[trigger] pairs[k2]).projectile_index
}

/// Fragments spawned by the first `k` pairs of a plan.
pub open spec fn children_count_prefix(s: Seq<Asteroid>, pairs: Seq<CollisionPair>, k: int) -> int
    decreases k,
{
    if k <= 0 {
        0
    } else {
        children_count_prefix(s, pairs, k - 1) + split_count_of(
            s[pairs[k - 1].asteroid_index as int].asteroid_type,
        )
    }
}

/// Score gained from the first `k` pairs of a plan.
pub open spec fn score_gain_prefix(s: Seq<Asteroid>, pairs: Seq<CollisionPair>, k: int) -> int
    decreases k,
{
    if k <= 0 {
        0
    } else {
        score_gain_prefix(s, pairs, k - 1) + score_value_of(
            s[pairs[k - 1].asteroid_index as int].asteroid_type,
        )
    }
}

/// The fragment counts grow by between zero and five per pair.
pub proof fn lemma_children_count_prefix_bounds(s: Seq<Asteroid>, pairs: Seq<CollisionPair>, k: int)
    requires
        k >= 0,
    ensures
        0 <= children_count_prefix(s, pairs, k) <= 5 * k,
    decreases k,
{
    if k > 0 {
        lemma_children_count_prefix_bounds(s, pairs, k - 1);
    }
}

/// The score gain grows by between zero and fifty per pair.
pub proof fn lemma_score_gain_prefix_bounds(s: Seq<Asteroid>, pairs: Seq<CollisionPair>, k: int)
    requires
        k >= 0,
    ensures
        0 <= score_gain_prefix(s, pairs, k) <= 50 * k,
    decreases k,
{
    if k > 0 {
        lemma_score_gain_prefix_bounds(s, pairs, k - 1);
    }
}

/// Whether the plan destroys the asteroid at this position.
fn is_asteroid_destroyed(pairs: &Vec<CollisionPair>, i: usize) -> (r: bool)
    ensures
        r == asteroid_in_pairs(pairs@, i as int),
{
    let mut k: usize = 0;
    let mut found: bool = false;
    while k < pairs.len()
        invariant
            k <= pairs@.len(),
            found ==> asteroid_in_pairs(pairs@, i as int),
            !found ==> forall|k2: int| 0 <= k2 < k ==> (#[trigger] pairs@[k2]).asteroid_index != i,
        decreases pairs@.len() - k,
    {
        if pairs[k].asteroid_index == i {
            found = true;
        }
        k = k + 1;
    }
    proof {
        if !found && asteroid_in_pairs(pairs@, i as int) {
            let w = choose|w: int|
                0 <= w < pairs@.len() && (#[trigger] pairs@[w]).asteroid_index == i;
            assert(false);
        }
    }
    found
}

/// Whether the plan consumes the projectile at this position.
fn is_projectile_consumed(pairs: &Vec<CollisionPair>, j: usize) -> (r: bool)
    ensures
        r == projectile_in_pairs(pairs@, j as int),
{
    let mut k: usize = 0;
    let mut found: bool = false;
    while k < pairs.len()
        invariant
            k <= pairs@.len(),
            found ==> projectile_in_pairs(pairs@, j as int),
            !found ==> forall|k2: int| 0 <= k2 < k ==> (#[trigger] pairs@[k2]).projectile_index != j,
        decreases pairs@.len() - k,
    {
        if pairs[k].projectile_index == j {
            found = true;
        }
        k = k + 1;
    }
    proof {
        if !found && projectile_in_pairs(pairs@, j as int) {
            let w = choose|w: int|
                0 <= w < pairs@.len() && (#[trigger] pairs@[w]).projectile_index == j;
            assert(false);
        }
    }
    found
}

/// A fragment slot of the result holds a well-formed child of its pair's
/// destroyed parent, at the parent's position.
pub open spec fn child_slot_ok(
    s: Seq<Asteroid>,
    pairs: Seq<CollisionPair>,
    result: Seq<Asteroid>,
    base: int,
    k: int,
    c: int,
) -> bool {
    let parent = s[pairs[k].asteroid_index as int];
    let child = result[base + c];
    &&& asteroid_wf(child)
    &&& child.asteroid_type == split_child_of(parent.asteroid_type)
    &&& child.translation == parent.translation
}

/// Applies rule 1 to a planned set of pairs: every paired asteroid and
/// projectile is removed exactly once, each destroyed asteroid's fragments
/// are appended at its position, and the score grows by exactly the
/// size-indexed sum.
pub fn apply_asteroid_projectile_collisions(
    asteroids: &mut Vec<Asteroid>,
    projectiles: &mut Vec<Projectile>,
    scoreboard_score: &mut ScoreboardScore,
    pairs: &Vec<CollisionPair>,
)
    requires
        plan_applicable(pairs@, old(asteroids)@.len() as int, old(projectiles)@.len() as int),
        forall|i: int| 0 <= i < old(asteroids)@.len() ==> asteroid_wf(#[trigger] old(asteroids)@[i]),
        old(scoreboard_score).score + 50 * pairs@.len() <= usize::MAX,
    ensures
        final(projectiles)@ == masked_keep(
            old(projectiles)@,
            projectile_destroy_mask(pairs@, old(projectiles)@.len() as int),
        ),
        ({
            let survivors = masked_keep(
                old(asteroids)@,
                asteroid_destroy_mask(pairs@, old(asteroids)@.len() as int),
            );
            &&& final(asteroids)@.len() == survivors.len() + children_count_prefix(
                old(asteroids)@,
                pairs@,
                pairs@.len() as int,
            )
            &&& final(asteroids)@.subrange(0, survivors.len() as int) == survivors
            &&& forall|k: int, c: int|
                0 <= k < pairs@.len() && children_count_prefix(old(asteroids)@, pairs@, k) <= c
                    < children_count_prefix(old(asteroids)@, pairs@, k + 1)
                    ==> #[trigger] child_slot_ok(
                    old(asteroids)@,
                    pairs@,
                    final(asteroids)@,
                    survivors.len() as int,
                    k,
                    c,
                )
        }),
        final(scoreboard_score).score == old(scoreboard_score).score + score_gain_prefix(
            old(asteroids)@,
            pairs@,
            pairs@.len() as int,
        ),
        forall|x: int| 0 <= x < final(asteroids)@.len() ==> asteroid_wf(#[trigger] final(asteroids)@[x]),
        forall|x: int|
            0 <= x < final(asteroids)@.len() ==> exists|i: int|
                0 <= i < old(asteroids)@.len() && (#[trigger] final(asteroids)@[x]).translation
                    == old(asteroids)@[i].translation,
{
    let ghost initial_asteroids: Seq<Asteroid> = asteroids@;
    let ghost initial_projectiles: Seq<Projectile> = projectiles@;
    let ghost amask: Seq<bool> = asteroid_destroy_mask(pairs@, initial_asteroids.len() as int);
    let ghost pmask: Seq<bool> = projectile_destroy_mask(pairs@, initial_projectiles.len() as int);
    let ghost initial_score: int = scoreboard_score.score as int;

    // Survivors among the asteroids, in order.
    let mut kept: Vec<Asteroid> = Vec::new();
    let mut idx: usize = 0;
    while idx < asteroids.len()
        invariant
            idx <= asteroids@.len(),
            asteroids@ == initial_asteroids,
            forall|i: int| 0 <= i < initial_asteroids.len() ==> asteroid_wf(#[trigger] initial_asteroids[i]),
            amask == asteroid_destroy_mask(pairs@, initial_asteroids.len() as int),
            kept@ == masked_keep(
                initial_asteroids.subrange(0, idx as int),
                amask.subrange(0, idx as int),
            ),
            forall|x: int| 0 <= x < kept@.len() ==> asteroid_wf(#[trigger] kept@[x]),
            forall|x: int|
                0 <= x < kept@.len() ==> exists|i: int|
                    0 <= i < initial_asteroids.len() && (#[trigger] kept@[x]).translation
                        == initial_asteroids[i].translation,
        decreases asteroids@.len() - idx,
    {
        let destroyed: bool = is_asteroid_destroyed(pairs, idx);
        proof {
            lemma_masked_keep_one_more(initial_asteroids, amask, idx as int);
            assert(amask[idx as int] == destroyed);
        }
        if !destroyed {
            let a: Asteroid = asteroids[idx];
            kept.push(a);
            proof {
                assert(kept@[kept@.len() - 1].translation
                    == initial_asteroids[idx as int].translation);
            }
        }
        idx = idx + 1;
    }
    proof {
        lemma_masked_keep_full(initial_asteroids, amask);
        crate::seq_util::lemma_masked_keep_len(initial_asteroids, amask);
    }
    let ghost survivors: Seq<Asteroid> = kept@;

    // Survivors among the projectiles, in order.
    let mut kept_projectiles: Vec<Projectile> = Vec::new();
    let mut jdx: usize = 0;
    while jdx < projectiles.len()
        invariant
            jdx <= projectiles@.len(),
            projectiles@ == initial_projectiles,
            pmask == projectile_destroy_mask(pairs@, initial_projectiles.len() as int),
            kept_projectiles@ == masked_keep(
                initial_projectiles.subrange(0, jdx as int),
                pmask.subrange(0, jdx as int),
            ),
        decreases projectiles@.len() - jdx,
    {
        let consumed: bool = is_projectile_consumed(pairs, jdx);
        proof {
            lemma_masked_keep_one_more(initial_projectiles, pmask, jdx as int);
            assert(pmask[jdx as int] == consumed);
        }
        if !consumed {
            let p: Projectile = projectiles[jdx];
            kept_projectiles.push(p);
        }
        jdx = jdx + 1;
    }
    proof {
        lemma_masked_keep_full(initial_projectiles, pmask);
    }
    *projectiles = kept_projectiles;

    // Fragments and score, one destroyed asteroid at a time, read from the
    // still-unreplaced asteroid store.
    let mut k: usize = 0;
    while k < pairs.len()
        invariant
            k <= pairs@.len(),
            asteroids@ == initial_asteroids,
            plan_applicable(
                pairs@,
                initial_asteroids.len() as int,
                initial_projectiles.len() as int,
            ),
            forall|i: int| 0 <= i < initial_asteroids.len() ==> asteroid_wf(#[trigger] initial_asteroids[i]),
            initial_score + 50 * pairs@.len() <= usize::MAX,
            survivors.len() <= initial_asteroids.len(),
            kept@.len() == survivors.len() + children_count_prefix(initial_asteroids, pairs@, k as int),
            kept@.subrange(0, survivors.len() as int) == survivors,
            forall|k2: int, c: int|
                0 <= k2 < k && children_count_prefix(initial_asteroids, pairs@, k2) <= c
                    < children_count_prefix(initial_asteroids, pairs@, k2 + 1)
                    ==> #[trigger] child_slot_ok(
                    initial_asteroids,
                    pairs@,
                    kept@,
                    survivors.len() as int,
                    k2,
                    c,
                ),
            scoreboard_score.score == initial_score + score_gain_prefix(
                initial_asteroids,
                pairs@,
                k as int,
            ),
            scoreboard_score.score <= initial_score + 50 * k,
            forall|x: int| 0 <= x < kept@.len() ==> asteroid_wf(#[trigger] kept@[x]),
            forall|x: int|
                0 <= x < kept@.len() ==> exists|i: int|
                    0 <= i < initial_asteroids.len() && (#[trigger] kept@[x]).translation
                        == initial_asteroids[i].translation,
        decreases pairs@.len() - k,
    {
        let pr: CollisionPair = pairs[k];
        let parent: Asteroid = asteroids[pr.asteroid_index];
        let ghost kept_before: Seq<Asteroid> = kept@;
        proof {
            assert(parent == initial_asteroids[pr.asteroid_index as int]);
            assert(asteroid_wf(parent));
            lemma_children_count_prefix_bounds(initial_asteroids, pairs@, k as int);
        }
        spawn_asteroids_after_collision(&mut kept, parent.asteroid_type, parent.translation);
        increase_score_based_on_asteroid_type(parent.asteroid_type, scoreboard_score);
        proof {
            assert(kept@.subrange(0, survivors.len() as int) =~= survivors);
            assert forall|k2: int, c: int|
                0 <= k2 < k + 1 && children_count_prefix(initial_asteroids, pairs@, k2) <= c
                    < children_count_prefix(initial_asteroids, pairs@, k2 + 1)
                    implies #[trigger] child_slot_ok(
                    initial_asteroids,
                    pairs@,
                    kept@,
                    survivors.len() as int,
                    k2,
                    c,
                ) by {
                lemma_children_count_prefix_bounds(initial_asteroids, pairs@, k2);
                if k2 < k {
                    assert(children_count_prefix(initial_asteroids, pairs@, k2 + 1)
                        <= children_count_prefix(initial_asteroids, pairs@, k as int)) by {
                        lemma_children_count_prefix_monotone(
                            initial_asteroids,
                            pairs@,
                            k2 + 1,
                            k as int,
                        );
                    }
                    assert(child_slot_ok(
                        initial_asteroids,
                        pairs@,
                        kept_before,
                        survivors.len() as int,
                        k2,
                        c,
                    ));
                    assert(kept@[survivors.len() + c] == kept_before[survivors.len() + c]);
                } else {
                    assert(k2 == k);
                    assert(kept@[survivors.len() + c] == kept@[
                        kept_before.len() + (c - children_count_prefix(
                            initial_asteroids,
                            pairs@,
                            k as int,
                        ))]);
                }
            }
        }
        k = k + 1;
    }
    proof {
        assert(kept@.subrange(0, survivors.len() as int) == survivors);
    }
    *asteroids = kept;
}

/// Prefix counts of fragments are monotone in the prefix length.
pub proof fn lemma_children_count_prefix_monotone(
    s: Seq<Asteroid>,
    pairs: Seq<CollisionPair>,
    k1: int,
    k2: int,
)
    requires
        0 <= k1 <= k2,
    ensures
        children_count_prefix(s, pairs, k1) <= children_count_prefix(s, pairs, k2),
    decreases k2 - k1,
{
    if k1 < k2 {
        lemma_children_count_prefix_monotone(s, pairs, k1, k2 - 1);
    }
}

/// Applies rule 2 to a detected ship collision: exactly one life is lost,
/// the ship is hidden and excluded from further collisions, and the session
/// moves to the end-game state exactly when the last life went.
pub fn apply_asteroid_hero_ship_collision(
    hero_ship_entity: &mut HeroShip,
    hero_ship_remaining_lives: &mut HeroShipRemainingLives,
    game_state: &mut GameState,
)
    requires
        old(hero_ship_remaining_lives).lives_remaining > 0,
    ensures
        final(hero_ship_remaining_lives).lives_remaining == old(
            hero_ship_remaining_lives,
        ).lives_remaining - 1,
        *final(hero_ship_entity) == (HeroShip {
            visible: false,
            collidable: false,
            ..*old(hero_ship_entity)
        }),
        *final(game_state) == if old(hero_ship_remaining_lives).lives_remaining == 1 {
            GameState::EndGame
        } else {
            *old(game_state)
        },
{
    hero_ship_remaining_lives.lives_remaining = hero_ship_remaining_lives.lives_remaining - 1;
    hero_ship_entity.visible = false;
    hero_ship_entity.collidable = false;
    if hero_ship_remaining_lives.lives_remaining == 0 {
        *game_state = GameState::EndGame;
    }
}

/// What one tick's collision resolution decided: the asteroid that hit the
/// ship, if any, and the planned asteroid–projectile destructions. The ghost
/// snapshot records the asteroid store the rules were judged against, so a
/// caller that moved the entities first can still state the decision's
/// geometry.
pub struct CollisionOutcome {
    pub ship_hit: Option<usize>,
    pub pairs: Vec<CollisionPair>,
    pub asteroids_at_resolution: Ghost<Seq<Asteroid>>,
}

/// One tick of collision resolution, two-phase: detect both rules on the
/// same post-integration positions — ship collision claiming its asteroid
/// first, so no asteroid satisfies both rules — then apply all effects once
/// per entity. See the rule functions for the exact per-rule outcomes.
pub fn resolve_collisions(
    asteroids: &mut Vec<Asteroid>,
    projectiles: &mut Vec<Projectile>,
    hero_ship_entity: &mut HeroShip,
    hero_ship_remaining_lives: &mut HeroShipRemainingLives,
    game_state: &mut GameState,
    scoreboard_score: &mut ScoreboardScore,
) -> (outcome: CollisionOutcome)
    requires
        forall|i: int| 0 <= i < old(asteroids)@.len() ==> asteroid_wf(#[trigger] old(asteroids)@[i]),
        forall|i: int|
            0 <= i < old(asteroids)@.len() ==> position_bounded(
                (#[trigger] old(asteroids)@[i]).translation,
            ),
        forall|j: int|
            0 <= j < old(projectiles)@.len() ==> position_bounded(
                (#[trigger] old(projectiles)@[j]).translation,
            ),
        position_bounded(old(hero_ship_entity).translation),
        old(hero_ship_entity).collidable ==> old(hero_ship_remaining_lives).lives_remaining > 0,
        old(scoreboard_score).score + 50 * old(asteroids)@.len() <= usize::MAX,
    ensures
        match outcome.ship_hit {
            Some(i) => {
                &&& i < old(asteroids)@.len()
                &&& old(hero_ship_entity).collidable
                &&& asteroid_hits_ship(old(asteroids)@[i as int], *old(hero_ship_entity))
                &&& forall|k: int|
                    0 <= k < i ==> !asteroid_hits_ship(
                        #[trigger] old(asteroids)@[k],
                        *old(hero_ship_entity),
                    )
            },
            None => {
                !old(hero_ship_entity).collidable || forall|k: int|
                    0 <= k < old(asteroids)@.len() ==> !asteroid_hits_ship(
                        #[trigger] old(asteroids)@[k],
                        *old(hero_ship_entity),
                    )
            },
        },
        plan_valid(outcome.pairs@, old(asteroids)@, old(projectiles)@, outcome.ship_hit),
        outcome.pairs@.len() <= old(asteroids)@.len(),
        match outcome.ship_hit {
            Some(_) => {
                &&& final(hero_ship_remaining_lives).lives_remaining == old(
                    hero_ship_remaining_lives,
                ).lives_remaining - 1
                &&& *final(hero_ship_entity) == (HeroShip {
                    visible: false,
                    collidable: false,
                    ..*old(hero_ship_entity)
                })
                &&& *final(game_state) == if old(hero_ship_remaining_lives).lives_remaining == 1 {
                    GameState::EndGame
                } else {
                    *old(game_state)
                }
            },
            None => {
                &&& *final(hero_ship_entity) == *old(hero_ship_entity)
                &&& *final(hero_ship_remaining_lives) == *old(hero_ship_remaining_lives)
                &&& *final(game_state) == *old(game_state)
            },
        },
        final(projectiles)@ == masked_keep(
            old(projectiles)@,
            projectile_destroy_mask(outcome.pairs@, old(projectiles)@.len() as int),
        ),
        ({
            let survivors = masked_keep(
                old(asteroids)@,
                asteroid_destroy_mask(outcome.pairs@, old(asteroids)@.len() as int),
            );
            &&& final(asteroids)@.len() == survivors.len() + children_count_prefix(
                old(asteroids)@,
                outcome.pairs@,
                outcome.pairs@.len() as int,
            )
            &&& final(asteroids)@.subrange(0, survivors.len() as int) == survivors
            &&& forall|k: int, c: int|
                0 <= k < outcome.pairs@.len() && children_count_prefix(
                    old(asteroids)@,
                    outcome.pairs@,
                    k,
                ) <= c < children_count_prefix(old(asteroids)@, outcome.pairs@, k + 1)
                    ==> #[trigger] child_slot_ok(
                    old(asteroids)@,
                    outcome.pairs@,
                    final(asteroids)@,
                    survivors.len() as int,
                    k,
                    c,
                )
        }),
        final(scoreboard_score).score == old(scoreboard_score).score + score_gain_prefix(
            old(asteroids)@,
            outcome.pairs@,
            outcome.pairs@.len() as int,
        ),
        forall|x: int| 0 <= x < final(asteroids)@.len() ==> asteroid_wf(#[trigger] final(asteroids)@[x]),
        forall|x: int|
            0 <= x < final(asteroids)@.len() ==> exists|i: int|
                0 <= i < old(asteroids)@.len() && (#[trigger] final(asteroids)@[x]).translation
                    == old(asteroids)@[i].translation,
        outcome.asteroids_at_resolution@ == old(asteroids)@,
{
    let ghost entry_asteroids: Seq<Asteroid> = asteroids@;
    let ship_hit: Option<usize> = detect_asteroid_hero_ship_collision(asteroids, hero_ship_entity);
    let pairs: Vec<CollisionPair> =
        detect_asteroid_projectile_collision(asteroids, projectiles, ship_hit);
    match ship_hit {
        Some(_) => {
            apply_asteroid_hero_ship_collision(
                hero_ship_entity,
                hero_ship_remaining_lives,
                game_state,
            );
        },
        None => {},
    }
    apply_asteroid_projectile_collisions(asteroids, projectiles, scoreboard_score, &pairs);
    CollisionOutcome { ship_hit, pairs, asteroids_at_resolution: Ghost(entry_asteroids) }
}

/// At-most-one destruction per entity per tick: under a valid plan, no
/// asteroid position appears in two pairs, no projectile position appears in
/// two pairs, and the asteroid the ship rule claimed appears in none — so
/// across both rules each entity is resolved at most once.
pub proof fn lemma_at_most_one_destruction(
    pairs: Seq<CollisionPair>,
    asteroids: Seq<Asteroid>,
    projectiles: Seq<Projectile>,
    ship_hit: Option<usize>,
)
    requires
        plan_valid(pairs, asteroids, projectiles, ship_hit),
    ensures
        forall|k1: int, k2: int|
            0 <= k1 < pairs.len() && 0 <= k2 < pairs.len() && (#[trigger] pairs[k1]).asteroid_index
                == (#[trigger] pairs[k2]).asteroid_index ==> k1 == k2,
        forall|k1: int, k2: int|
            0 <= k1 < pairs.len() && 0 <= k2 < pairs.len() && (#[trigger] pairs[k1]).projectile_index
                == (#[trigger] pairs[k2]).projectile_index ==> k1 == k2,
        match ship_hit {
            Some(e) => forall|k: int|
                0 <= k < pairs.len() ==> (#[trigger] pairs[k]).asteroid_index != e,
            None => true,
        },
{
    assert forall|k1: int, k2: int|
        0 <= k1 < pairs.len() && 0 <= k2 < pairs.len() && (#[trigger] pairs[k1]).asteroid_index
            == (#[trigger] pairs[k2]).asteroid_index implies k1 == k2 by {
        if k1 < k2 {
            assert(pairs[k1].asteroid_index < pairs[k2].asteroid_index);
        }
        if k2 < k1 {
            assert(pairs[k2].asteroid_index < pairs[k1].asteroid_index);
        }
    }
    assert forall|k1: int, k2: int|
        0 <= k1 < pairs.len() && 0 <= k2 < pairs.len() && (#[trigger] pairs[k1]).projectile_index
            == (#[trigger] pairs[k2]).projectile_index implies k1 == k2 by {
        if k1 < k2 {
            assert(pairs[k1].projectile_index != pairs[k2].projectile_index);
        }
        if k2 < k1 {
            assert(pairs[k2].projectile_index != pairs[k1].projectile_index);
        }
    }
    match ship_hit {
        Some(e) => {
            assert forall|k: int| 0 <= k < pairs.len() implies (#[trigger] pairs[k]).asteroid_index
                != e by {
                assert(pair_valid(pairs[k], asteroids, projectiles, ship_hit));
            }
        },
        None => {},
    }
}

/// A mask marking no position counts zero.
proof fn lemma_count_true_zero(mask: Seq<bool>)
    requires
        forall|i: int| 0 <= i < mask.len() ==> !mask[i],
    ensures
        crate::seq_util::count_true(mask) == 0,
    decreases mask.len(),
{
    if mask.len() > 0 {
        lemma_count_true_zero(mask.drop_last());
        assert(!mask[mask.len() - 1]);
    }
}

/// A plan with pairwise-distinct asteroid positions marks exactly one mask
/// position per pair.
pub proof fn lemma_destroy_mask_count(pairs: Seq<CollisionPair>, count: int)
    requires
        count >= 0,
        forall|k: int| 0 <= k < pairs.len() ==> (#[trigger] pairs[k]).asteroid_index < count,
        forall|k1: int, k2: int|
            0 <= k1 < k2 < pairs.len() ==> (#[trigger] pairs[k1]).asteroid_index
                != (#[trigger] pairs[k2]).asteroid_index,
    ensures
        crate::seq_util::count_true(asteroid_destroy_mask(pairs, count)) == pairs.len(),
    decreases pairs.len(),
{
    let mask = asteroid_destroy_mask(pairs, count);
    if pairs.len() == 0 {
        assert forall|i: int| 0 <= i < mask.len() implies !mask[i] by {
            if asteroid_in_pairs(pairs, i) {
                let w = choose|w: int|
                    0 <= w < pairs.len() && (#[trigger] pairs[w]).asteroid_index == i;
                assert(false);
            }
        }
        lemma_count_true_zero(mask);
    } else {
        let shorter = pairs.drop_last();
        let shorter_mask = asteroid_destroy_mask(shorter, count);
        let at = pairs.last().asteroid_index as int;
        lemma_destroy_mask_count(shorter, count);
        assert(pairs[pairs.len() - 1].asteroid_index == at);
        assert(mask[at]);
        assert(!shorter_mask[at]) by {
            if asteroid_in_pairs(shorter, at) {
                let w = choose|w: int|
                    0 <= w < shorter.len() && (#[trigger] shorter[w]).asteroid_index == at;
                assert(pairs[w].asteroid_index == at);
                assert(w < pairs.len() - 1);
            }
        }
        assert forall|i: int| 0 <= i < count && i != at implies shorter_mask[i] == mask[i] by {
            if asteroid_in_pairs(shorter, i) {
                let w = choose|w: int|
                    0 <= w < shorter.len() && (#[trigger] shorter[w]).asteroid_index == i;
                assert(pairs[w].asteroid_index == i);
            }
            if asteroid_in_pairs(pairs, i) {
                let w = choose|w: int|
                    0 <= w < pairs.len() && (#[trigger] pairs[w]).asteroid_index == i;
                assert(w < pairs.len() - 1);
                assert(shorter[w].asteroid_index == i);
            }
        }
        crate::seq_util::lemma_count_true_flip(shorter_mask, mask, at);
    }
}

/// The fragment and score sums read only each destroyed asteroid's size
/// class: two asteroid sequences equal classwise give equal sums.
pub proof fn lemma_prefixes_depend_on_types(
    s1: Seq<Asteroid>,
    s2: Seq<Asteroid>,
    pairs: Seq<CollisionPair>,
    k: int,
)
    requires
        0 <= k <= pairs.len(),
        s1.len() == s2.len(),
        forall|i: int|
            0 <= i < s1.len() ==> (#[trigger] s1[i]).asteroid_type == (#[trigger] s2[i]).asteroid_type,
        forall|k2: int| 0 <= k2 < pairs.len() ==> (#[trigger] pairs[k2]).asteroid_index < s1.len(),
    ensures
        children_count_prefix(s1, pairs, k) == children_count_prefix(s2, pairs, k),
        score_gain_prefix(s1, pairs, k) == score_gain_prefix(s2, pairs, k),
    decreases k,
{
    if k > 0 {
        lemma_prefixes_depend_on_types(s1, s2, pairs, k - 1);
    }
}

/// One projectile kill, in numbers: a plan of exactly one pair leaves
/// `n - 1` survivors, spawns exactly the destroyed asteroid's size-class
/// fragment count, and gains exactly its score value — the live-count
/// recurrence of a single kill, for any store and any position in it.
pub proof fn lemma_single_pair_fanout(s: Seq<Asteroid>, pairs: Seq<CollisionPair>)
    requires
        pairs.len() == 1,
        pairs[0].asteroid_index < s.len(),
    ensures
        masked_keep(s, asteroid_destroy_mask(pairs, s.len() as int)).len() == s.len() - 1,
        children_count_prefix(s, pairs, 1) == split_count_of(
            s[pairs[0].asteroid_index as int].asteroid_type,
        ),
        score_gain_prefix(s, pairs, 1) == score_value_of(
            s[pairs[0].asteroid_index as int].asteroid_type,
        ),
{
    assert(children_count_prefix(s, pairs, 0) == 0);
    assert(score_gain_prefix(s, pairs, 0) == 0);
    lemma_destroy_mask_count(pairs, s.len() as int);
    crate::seq_util::lemma_masked_keep_count(s, asteroid_destroy_mask(pairs, s.len() as int));
}

/// The score table: fifty points for a Small kill, thirty for a Medium, ten
/// for a Big — smaller asteroids are harder to hit and worth more.
pub proof fn lemma_score_values()
    ensures
        score_value_of(AsteroidType::Small) == 50,
        score_value_of(AsteroidType::Medium) == 30,
        score_value_of(AsteroidType::Big) == 10,
{
}

} // verus!

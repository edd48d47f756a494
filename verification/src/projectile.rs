//! Projectiles: spawned at the firer's position along its forward direction,
//! straight-line travel at a fixed speed, visible from the tick after spawn,
//! despawned on leaving the field's outer bound (collisions despawn them in
//! the collision resolver).

use vstd::prelude::*;

use crate::constants::{
    MAX_TICK_MS,
    PROJECTILE_MOVEMENT_SPEED,
    PROJECTILE_SPAWN_INTERVAL_MS,
};
use crate::kinematics::{
    direction_bounded,
    integrate_position,
    outside_offscreen,
    position_bounded,
    Vec2,
};
use crate::seq_util::{lemma_filter_full, lemma_filter_one_more};
use crate::timer::{timer_wf, CountdownTimer};

verus! {

/// One projectile: where it is, the fixed unit direction it travels in, its
/// fixed speed, and whether it is already drawn (it becomes visible one tick
/// after spawn).
#[derive(Clone, Copy, Debug, PartialEq, Eq, Structural)]
pub struct Projectile {
    pub translation: Vec2,
    pub direction: Vec2,
    pub movement_speed: i64,
    pub visible: bool,
}

/// Well-formedness: the speed is the fixed projectile speed and the
/// direction is on the milli scale.
pub open spec fn projectile_wf(p: Projectile) -> bool {
    &&& p.movement_speed == PROJECTILE_MOVEMENT_SPEED
    &&& direction_bounded(p.direction)
}

/// A projectile survives the border check while it is strictly inside the
/// offscreen rectangle.
pub open spec fn projectile_onscreen(p: Projectile) -> bool {
    !outside_offscreen(p.translation)
}

/// One projectile one tick later: advanced along its direction at its fixed
/// speed, and visible from now on.
pub open spec fn projectile_after_movement(p: Projectile, delta_ms: int) -> Projectile {
    Projectile {
        translation: Vec2 {
            x: (p.translation.x + p.direction.x * p.movement_speed * delta_ms) as i64,
            y: (p.translation.y + p.direction.y * p.movement_speed * delta_ms) as i64,
        },
        visible: true,
        ..p
    }
}

/// The whole projectile store one travel step later, in order.
pub open spec fn projectiles_after_movement(s: Seq<Projectile>, delta_ms: int) -> Seq<Projectile> {
    Seq::new(s.len(), |i: int| projectile_after_movement(s[i], delta_ms))
}

/// The projectiles still inside the field's outer bound, in order.
pub open spec fn onscreen_projectiles(s: Seq<Projectile>) -> Seq<Projectile> {
    s.filter(|p: Projectile| projectile_onscreen(p))
}

impl Projectile {
    /// Appends a projectile at the firer's position with the firer's forward
    /// direction, at the fixed speed, not yet visible.
    pub fn spawn_projectile(projectiles: &mut Vec<Projectile>, translation: Vec2, direction: Vec2)
        requires
            direction_bounded(direction),
        ensures
            final(projectiles)@ == old(projectiles)@.push(
                Projectile {
                    translation,
                    direction,
                    movement_speed: PROJECTILE_MOVEMENT_SPEED,
                    visible: false,
                },
            ),
    {
        projectiles.push(
            Projectile {
                translation,
                direction,
                movement_speed: PROJECTILE_MOVEMENT_SPEED,
                visible: false,
            },
        );
    }
}

/// The cooldown gating projectile spawn while the fire input is held.
#[derive(Clone, Copy, Debug, PartialEq, Eq, Structural)]
pub struct ProjectileSpawnTimer(pub CountdownTimer);

impl Default for ProjectileSpawnTimer {
    /// The fire cooldown at its full period.
    fn default() -> (t: Self)
        ensures
            timer_wf(t.0),
            t.0.interval == PROJECTILE_SPAWN_INTERVAL_MS,
            t.0.remaining == PROJECTILE_SPAWN_INTERVAL_MS,
            !t.0.just_finished,
    {
        ProjectileSpawnTimer(CountdownTimer::new(PROJECTILE_SPAWN_INTERVAL_MS))
    }
}

/// One tick of travel for every projectile: the position advances along the
/// stored direction at the fixed speed, and the projectile becomes visible.
pub fn set_projectile_movement(projectiles: &mut Vec<Projectile>, delta_ms: u64)
    requires
        delta_ms <= MAX_TICK_MS,
        forall|i: int| 0 <= i < old(projectiles)@.len() ==> projectile_wf(#[trigger] old(projectiles)@[i]),
        forall|i: int|
            0 <= i < old(projectiles)@.len() ==> position_bounded(
                (#[trigger] old(projectiles)@[i]).translation,
            ),
    ensures
        final(projectiles)@.len() == old(projectiles)@.len(),
        forall|i: int|
            0 <= i < old(projectiles)@.len() ==> {
                let p = #[trigger] old(projectiles)@[i];
                let q = final(projectiles)@[i];
                &&& q.translation.x == p.translation.x + p.direction.x * p.movement_speed * delta_ms
                &&& q.translation.y == p.translation.y + p.direction.y * p.movement_speed * delta_ms
                &&& q.direction == p.direction
                &&& q.movement_speed == p.movement_speed
                &&& q.visible
                &&& projectile_wf(q)
            },
        final(projectiles)@ == projectiles_after_movement(old(projectiles)@, delta_ms as int),
{
    let ghost initial: Seq<Projectile> = projectiles@;
    let mut idx: usize = 0;
    while idx < projectiles.len()
        invariant
            idx <= projectiles@.len(),
            projectiles@.len() == initial.len(),
            delta_ms <= MAX_TICK_MS,
            forall|i: int| 0 <= i < initial.len() ==> projectile_wf(#[trigger] initial[i]),
            forall|i: int|
                0 <= i < initial.len() ==> position_bounded((#[trigger] initial[i]).translation),
            forall|i: int| idx <= i < initial.len() ==> projectiles@[i] == initial[i],
            forall|i: int|
                0 <= i < idx ==> {
                    let p = #[trigger] initial[i];
                    let q = projectiles@[i];
                    &&& q.translation.x == p.translation.x
                        + p.direction.x * p.movement_speed * delta_ms
                    &&& q.translation.y == p.translation.y
                        + p.direction.y * p.movement_speed * delta_ms
                    &&& q.direction == p.direction
                    &&& q.movement_speed == p.movement_speed
                    &&& q.visible
                    &&& projectile_wf(q)
                },
        decreases projectiles@.len() - idx,
    {
        let p: Projectile = projectiles[idx];
        proof {
            assert(p == initial[idx as int]);
            assert(projectile_wf(p));
            assert(position_bounded(p.translation));
        }
        let new_translation: Vec2 =
            integrate_position(p.translation, p.direction, p.movement_speed, delta_ms);
        let updated: Projectile = Projectile { translation: new_translation, visible: true, ..p };
        projectiles.set(idx, updated);
        idx = idx + 1;
    }
    proof {
        assert forall|i: int| 0 <= i < projectiles@.len() implies projectiles@[i]
            == projectile_after_movement(old(projectiles)@[i], delta_ms as int) by {
            assert(projectile_wf(initial[i]));
        }
        assert(projectiles@ =~= projectiles_after_movement(old(projectiles)@, delta_ms as int));
    }
}

/// Removes every projectile that left the field's outer bound, keeping the
/// others in order: the result is exactly the onscreen subsequence.
pub fn despawn_border_outbound_projectiles(projectiles: &mut Vec<Projectile>)
    requires
        forall|i: int| 0 <= i < old(projectiles)@.len() ==> projectile_wf(#[trigger] old(projectiles)@[i]),
    ensures
        final(projectiles)@ == onscreen_projectiles(old(projectiles)@),
        forall|x: int|
            0 <= x < final(projectiles)@.len() ==> projectile_onscreen(#[trigger] final(projectiles)@[x]),
        forall|x: int|
            0 <= x < final(projectiles)@.len() ==> projectile_wf(#[trigger] final(projectiles)@[x]),
{
    let ghost initial: Seq<Projectile> = projectiles@;
    let ghost pred = |p: Projectile| projectile_onscreen(p);
    let mut kept: Vec<Projectile> = Vec::new();
    let mut idx: usize = 0;
    while idx < projectiles.len()
        invariant
            idx <= projectiles@.len(),
            projectiles@ == initial,
            pred == (|p: Projectile| projectile_onscreen(p)),
            kept@ == initial.subrange(0, idx as int).filter(pred),
            forall|i: int| 0 <= i < initial.len() ==> projectile_wf(#[trigger] initial[i]),
            forall|x: int| 0 <= x < kept@.len() ==> projectile_onscreen(#[trigger] kept@[x]),
            forall|x: int| 0 <= x < kept@.len() ==> projectile_wf(#[trigger] kept@[x]),
        decreases projectiles@.len() - idx,
    {
        let p: Projectile = projectiles[idx];
        proof {
            lemma_filter_one_more(initial, pred, idx as int);
            assert(p == initial[idx as int]);
        }
        let inside: bool = p.translation.x < crate::constants::RIGHT_BORDER_OFFSCREEN_POSITION
            && p.translation.x > crate::constants::LEFT_BORDER_OFFSCREEN_POSITION
            && p.translation.y < crate::constants::TOP_BORDER_OFFSCREEN_POSITION
            && p.translation.y > crate::constants::BOTTOM_BORDER_OFFSCREEN_POSITION;
        proof {
            assert(inside == projectile_onscreen(p));
            assert(pred(p) == projectile_onscreen(p));
        }
        if inside {
            kept.push(p);
            proof {
                assert(kept@[kept@.len() - 1] == initial[idx as int]);
            }
        }
        idx = idx + 1;
    }
    proof {
        lemma_filter_full(initial, pred);
    }
    *projectiles = kept;
}

} // verus!

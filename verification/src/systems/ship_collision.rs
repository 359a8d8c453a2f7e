//! Reduces the number of lives and marks the asteroid for relocation when
//! the ship collides with an asteroid.

use crate::components::{Asteroid, Position, Ship};
use crate::resources::PlayState;
use crate::systems::collision::{collides, spec_ship_hits};
use crate::world::AsteroidEntity;
use vstd::prelude::*;

verus! {

/// The pool slot after a collision pass: the destruction flag is or-ed
/// with the outcome of the test, so marking twice is idempotent, and
/// nothing else of the slot changes.
pub open spec fn spec_marked(entity: AsteroidEntity, hit: bool) -> AsteroidEntity {
    AsteroidEntity {
        asteroid: Asteroid { is_destroyed: entity.asteroid.is_destroyed || hit, ..entity.asteroid },
        position: entity.position,
    }
}

/// How many asteroids of the pool the ship overlaps.
pub open spec fn spec_hit_count(ship: Ship, position: Position, asteroids: Seq<AsteroidEntity>) -> nat
    decreases asteroids.len(),
{
    if asteroids.len() == 0 {
        0
    } else {
        spec_hit_count(ship, position, asteroids.drop_last()) + if spec_ship_hits(
            ship,
            position,
            asteroids.last(),
        ) {
            1nat
        } else {
            0nat
        }
    }
}

/// The lives left after that many hits, each one decrementing the count
/// and clamping at zero: lives never underflow and never increase.
pub open spec fn spec_lives_after(lives: int, hits: nat) -> int {
    if lives >= hits {
        lives - hits
    } else {
        0
    }
}

/// Reduces the number of lives and marks the asteroid for relocation when
/// it detects the ship colliding with an asteroid.
pub struct ShipCollisionSystem;

impl ShipCollisionSystem {
    /// Runs a pass of the system over the asteroid pool.
    ///
    /// For each asteroid the pass checks the one-sided collision test
    /// against the ship's bounding box. On a hit it decrements the number
    /// of lives (clamped at zero) and marks the asteroid destroyed, so
    /// the asteroid system relocates it; positions are read only, since
    /// the asteroid system owns them.
    pub fn run(
        play_state: &mut PlayState,
        ship: &Ship,
        ship_position: &Position,
        asteroids: &mut Vec<AsteroidEntity>,
    )
        requires
            ship.wf(),
            ship_position.wf(),
            forall|i: int| 0 <= i < old(asteroids).len() ==> (#[trigger] old(asteroids)[i]).wf(),
        ensures
            final(asteroids)@.len() == old(asteroids)@.len(),
            forall|i: int|
                0 <= i < old(asteroids)@.len() ==> (#[trigger] final(asteroids)@[i]) == spec_marked(
                    old(asteroids)@[i],
                    spec_ship_hits(*ship, *ship_position, old(asteroids)@[i]),
                ),
            final(play_state).lives == spec_lives_after(
                old(play_state).lives as int,
                spec_hit_count(*ship, *ship_position, old(asteroids)@),
            ),
            final(play_state).lives <= old(play_state).lives,
    {
        let ghost asteroids0 = asteroids@;
        let ghost lives0 = play_state.lives as int;

        let ship_left = ship_position.x;
        let ship_right = ship_position.x + ship.width;
        let ship_top = ship_position.y + ship.height;

        let mut i: usize = 0;
        while i < asteroids.len()
            invariant
                0 <= i <= asteroids0.len(),
                asteroids@.len() == asteroids0.len(),
                ship.wf(),
                ship_position.wf(),
                ship_left == ship_position.x,
                ship_right == ship_position.x + ship.width,
                ship_top == ship_position.y + ship.height,
                forall|k: int| 0 <= k < asteroids0.len() ==> (#[trigger] asteroids0[k]).wf(),
                forall|k: int|
                    0 <= k < i ==> (#[trigger] asteroids@[k]) == spec_marked(
                        asteroids0[k],
                        spec_ship_hits(*ship, *ship_position, asteroids0[k]),
                    ),
                forall|k: int| i <= k < asteroids0.len() ==> (#[trigger] asteroids@[k]) == asteroids0[k],
                play_state.lives == spec_lives_after(
                    lives0,
                    spec_hit_count(*ship, *ship_position, asteroids0.take(i as int)),
                ),
                play_state.lives <= lives0,
            decreases asteroids0.len() - i,
        {
            proof {
                assert(asteroids0.take(i + 1).drop_last() =~= asteroids0.take(i as int));
                assert(asteroids0.take(i + 1).last() == asteroids0[i as int]);
            }
            let entity = asteroids[i];
            let asteroid_left = entity.position.x;
            let asteroid_right = entity.position.x + entity.asteroid.width;
            let asteroid_bottom = entity.position.y;

            if collides(ship_left, ship_right, ship_top, asteroid_left, asteroid_right, asteroid_bottom) {
                // a collision: one life fewer, clamped at zero, and the
                // asteroid is left to the asteroid system for relocation
                if play_state.lives > 0 {
                    play_state.lives = play_state.lives - 1;
                }
                let mut updated = entity;
                updated.asteroid.is_destroyed = true;
                asteroids.set(i, updated);
            }
            i += 1;
        }
        proof {
            assert(asteroids0.take(asteroids0.len() as int) =~= asteroids0);
        }
    }
}

} // verus!

//! Moves each asteroid down by its velocity, or to a new random location
//! above the screen if it fell out of view or was marked destroyed.

use crate::config::GameConfiguration;
use crate::entities::{locate_asteroid, spec_locate_x, spec_locate_y};
use crate::fixed::{fx_mul, lemma_fx_div_bounds, mul_milli, DT_MAX, MILLI, TUNING_MAX};
use crate::resources::ScreenBounds;
use crate::rng::Draw;
use crate::world::AsteroidEntity;
use vstd::prelude::*;

verus! {

/// Where the tick's fall puts an asteroid, before the respawn check.
pub open spec fn spec_asteroid_moved_y(entity: AsteroidEntity, delta: int) -> int {
    entity.position.y - fx_mul(entity.asteroid.velocity as int, delta)
}

/// Whether the asteroid is relocated this tick: it was destroyed in a
/// collision, or its bottom edge fell below the visible area. Each pool
/// slot is evaluated exactly once per tick, so no asteroid respawns twice
/// in one tick.
pub open spec fn spec_asteroid_respawns(entity: AsteroidEntity, delta: int) -> bool {
    entity.asteroid.is_destroyed || spec_asteroid_moved_y(entity, delta)
        < -entity.asteroid.height
}

/// Moves the asteroids. In an entity-component system it is cheaper to
/// re-use entities than to destroy and re-create them, so the pool slots
/// are recycled: a slot whose asteroid fell out of view or was destroyed
/// gets a fresh position above the screen and a cleared flag.
pub struct AsteroidSystem;

impl AsteroidSystem {
    /// Runs a pass of the system over the asteroid pool.
    ///
    /// Each asteroid falls by its velocity; one that triggered the
    /// respawn condition is placed by [`locate_asteroid`], consuming the
    /// draw of the matching index, and its destroyed flag is cleared.
    /// After the pass every asteroid sits at or above its lowest visible
    /// point and no destroyed flag is left set.
    pub fn run(
        asteroids: &mut Vec<AsteroidEntity>,
        delta: i64,
        screen: &ScreenBounds,
        config: &GameConfiguration,
        draws: &Vec<Draw>,
    )
        requires
            0 <= delta <= DT_MAX,
            screen.wf(),
            config.wf(),
            draws.len() == old(asteroids).len(),
            forall|i: int| 0 <= i < draws.len() ==> (#[trigger] draws[i]).wf(),
            forall|i: int|
                0 <= i < old(asteroids).len() ==> (#[trigger] old(asteroids)[i]).asteroid.wf(),
            forall|i: int|
                0 <= i < old(asteroids).len() ==> (#[trigger] old(asteroids)[i]).position.wf(),
        ensures
            final(asteroids)@.len() == old(asteroids)@.len(),
            forall|i: int|
                0 <= i < old(asteroids)@.len() ==> {
                    let before = old(asteroids)@[i];
                    let after = #[trigger] final(asteroids)@[i];
                    &&& after.asteroid.velocity == before.asteroid.velocity
                    &&& after.asteroid.width == before.asteroid.width
                    &&& after.asteroid.height == before.asteroid.height
                    &&& after.asteroid.is_destroyed == false
                    &&& (spec_asteroid_respawns(before, delta as int) ==> {
                        &&& after.position.x == spec_locate_x(
                            before.asteroid,
                            screen.width as int,
                            draws[i],
                        )
                        &&& after.position.y == spec_locate_y(screen.height as int, *config, draws[i])
                        &&& after.position.y >= screen.height
                    })
                    &&& (!spec_asteroid_respawns(before, delta as int) ==> {
                        &&& after.position.x == before.position.x
                        &&& after.position.y == spec_asteroid_moved_y(before, delta as int)
                    })
                    &&& after.wf()
                },
    {
        let ghost asteroids0 = asteroids@;
        let mut i: usize = 0;
        while i < asteroids.len()
            invariant
                0 <= i <= asteroids0.len(),
                asteroids@.len() == asteroids0.len(),
                0 <= delta <= DT_MAX,
                screen.wf(),
                config.wf(),
                draws.len() == asteroids0.len(),
                forall|k: int| 0 <= k < draws.len() ==> (#[trigger] draws[k]).wf(),
                forall|k: int| 0 <= k < asteroids0.len() ==> (#[trigger] asteroids0[k]).asteroid.wf(),
                forall|k: int| 0 <= k < asteroids0.len() ==> (#[trigger] asteroids0[k]).position.wf(),
                forall|k: int| i <= k < asteroids0.len() ==> (#[trigger] asteroids@[k]) == asteroids0[k],
                forall|k: int|
                    0 <= k < i ==> {
                        let before = asteroids0[k];
                        let after = #[trigger] asteroids@[k];
                        &&& after.asteroid.velocity == before.asteroid.velocity
                        &&& after.asteroid.width == before.asteroid.width
                        &&& after.asteroid.height == before.asteroid.height
                        &&& after.asteroid.is_destroyed == false
                        &&& (spec_asteroid_respawns(before, delta as int) ==> {
                            &&& after.position.x == spec_locate_x(
                                before.asteroid,
                                screen.width as int,
                                draws[k],
                            )
                            &&& after.position.y == spec_locate_y(
                                screen.height as int,
                                *config,
                                draws[k],
                            )
                            &&& after.position.y >= screen.height
                        })
                        &&& (!spec_asteroid_respawns(before, delta as int) ==> {
                            &&& after.position.x == before.position.x
                            &&& after.position.y == spec_asteroid_moved_y(before, delta as int)
                        })
                        &&& after.wf()
                    },
            decreases asteroids0.len() - i,
        {
            let entity = asteroids[i];
            // move the asteroid down by its velocity
            proof {
                assert(0 <= entity.asteroid.velocity * delta <= TUNING_MAX * DT_MAX)
                    by (nonlinear_arith)
                    requires
                        0 <= entity.asteroid.velocity <= TUNING_MAX && 0 <= delta <= DT_MAX;
            }
            let step = mul_milli(entity.asteroid.velocity, delta);
            proof {
                lemma_fx_div_bounds(entity.asteroid.velocity * delta, MILLI as int);
            }
            let fallen_y = entity.position.y - step;

            // if the asteroid fell below the bottom of the screen, or got
            // destroyed in another system, respawn it somewhere way up
            if entity.asteroid.is_destroyed || fallen_y < -entity.asteroid.height {
                let relocated = locate_asteroid(
                    &entity.asteroid,
                    screen.width,
                    screen.height,
                    config,
                    draws[i],
                );
                let mut updated = entity;
                updated.position = relocated;
                updated.asteroid.is_destroyed = false;
                asteroids.set(i, updated);
            } else {
                let mut updated = entity;
                updated.position.y = fallen_y;
                asteroids.set(i, updated);
            }
            i += 1;
        }
    }
}

} // verus!

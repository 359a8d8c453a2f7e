//! Moves each laser up and requests its deletion once it leaves the
//! screen: movement and destruction on out-of-bounds in one pass.

use crate::config::GameConfiguration;
use crate::fixed::{fx_mul, lemma_fx_div_bounds, mul_milli, DT_MAX, MILLI, TUNING_MAX};
use crate::world::{CommandBuffer, LaserEntity};
use vstd::prelude::*;

verus! {

/// Where the tick's climb puts a laser. The climb uses the configured
/// laser velocity, the same for every beam.
pub open spec fn spec_laser_moved_y(entity: LaserEntity, velocity: int, delta: int) -> int {
    entity.position.y + fx_mul(velocity, delta)
}

/// Whether the tick's climb takes the laser past the screen top, after
/// which it is deleted by the end of the tick.
pub open spec fn spec_laser_expired(
    entity: LaserEntity,
    velocity: int,
    delta: int,
    screen_height: int,
) -> bool {
    spec_laser_moved_y(entity, velocity, delta) > screen_height
}

/// The deletion requests one pass of the laser system queues: the
/// identifier of every laser that climbed past the screen top, in store
/// order.
pub open spec fn spec_expired_ids(
    lasers: Seq<LaserEntity>,
    velocity: int,
    delta: int,
    screen_height: int,
) -> Seq<u64>
    decreases lasers.len(),
{
    if lasers.len() == 0 {
        Seq::empty()
    } else {
        spec_expired_ids(lasers.drop_last(), velocity, delta, screen_height) + if spec_laser_expired(
            lasers.last(),
            velocity,
            delta,
            screen_height,
        ) {
            seq![lasers.last().id]
        } else {
            Seq::empty()
        }
    }
}

/// An identifier is among the queued deletions exactly when some laser of
/// that identifier climbed past the screen top.
pub proof fn lemma_expired_ids_contains(
    lasers: Seq<LaserEntity>,
    velocity: int,
    delta: int,
    screen_height: int,
)
    ensures
        forall|id: u64|
            spec_expired_ids(lasers, velocity, delta, screen_height).contains(id) <==> exists|i: int|
                0 <= i < lasers.len() && (#[trigger] lasers[i]).id == id && spec_laser_expired(
                    lasers[i],
                    velocity,
                    delta,
                    screen_height,
                ),
    decreases lasers.len(),
{
    if lasers.len() > 0 {
        lemma_expired_ids_contains(lasers.drop_last(), velocity, delta, screen_height);
        let full = spec_expired_ids(lasers, velocity, delta, screen_height);
        let head = spec_expired_ids(lasers.drop_last(), velocity, delta, screen_height);
        assert forall|id: u64| full.contains(id) implies exists|i: int|
            0 <= i < lasers.len() && (#[trigger] lasers[i]).id == id && spec_laser_expired(
                lasers[i],
                velocity,
                delta,
                screen_height,
            ) by {
            let k = choose|k: int| 0 <= k < full.len() && full[k] == id;
            if k < head.len() {
                assert(head.contains(id));
                let i = choose|i: int|
                    0 <= i < lasers.drop_last().len() && (#[trigger] lasers.drop_last()[i]).id == id
                        && spec_laser_expired(lasers.drop_last()[i], velocity, delta, screen_height);
                assert(lasers[i] == lasers.drop_last()[i]);
            } else {
                assert(lasers[lasers.len() - 1] == lasers.last());
            }
        }
        assert forall|id: u64|
            exists|i: int|
                0 <= i < lasers.len() && (#[trigger] lasers[i]).id == id && spec_laser_expired(
                    lasers[i],
                    velocity,
                    delta,
                    screen_height,
                ) implies full.contains(id) by {
            let i = choose|i: int|
                0 <= i < lasers.len() && (#[trigger] lasers[i]).id == id && spec_laser_expired(
                    lasers[i],
                    velocity,
                    delta,
                    screen_height,
                );
            if i < lasers.len() - 1 {
                assert(lasers.drop_last()[i] == lasers[i]);
                assert(head.contains(id));
                let k = choose|k: int| 0 <= k < head.len() && head[k] == id;
                assert(full[k] == id);
            } else {
                assert(full[full.len() - 1] == id);
            }
        }
    }
}

/// Moves the lasers and deletes each one that goes off the screen.
pub struct LaserSystem;

impl LaserSystem {
    /// Runs a pass of the system over the live lasers.
    ///
    /// Each laser climbs by the configured laser velocity; one whose new
    /// position is past the screen top has its deletion queued on the
    /// command buffer (the deletion happens when the scheduler flushes
    /// the buffer, after all the systems have run). A laser never
    /// reverses direction and is never repositioned sideways.
    pub fn run(
        lasers: &mut Vec<LaserEntity>,
        delta: i64,
        config: &GameConfiguration,
        screen_height: i64,
        commands: &mut CommandBuffer,
    )
        requires
            0 <= delta <= DT_MAX,
            config.wf(),
            0 <= screen_height <= TUNING_MAX,
            forall|i: int| 0 <= i < old(lasers).len() ==> (#[trigger] old(lasers)[i]).wf(),
            forall|i: int|
                0 <= i < old(lasers).len() ==> 0 <= (#[trigger] old(lasers)[i]).position.y
                    <= 3 * TUNING_MAX,
        ensures
            final(lasers)@.len() == old(lasers)@.len(),
            forall|i: int|
                0 <= i < old(lasers)@.len() ==> {
                    let before = old(lasers)@[i];
                    let after = #[trigger] final(lasers)@[i];
                    &&& after.id == before.id
                    &&& after.laser == before.laser
                    &&& after.position.x == before.position.x
                    &&& after.position.y == spec_laser_moved_y(
                        before,
                        config.laser_velocity as int,
                        delta as int,
                    )
                    &&& after.position.y >= before.position.y
                    &&& after.wf()
                },
            final(commands).laser_deletes@ == old(commands).laser_deletes@ + spec_expired_ids(
                old(lasers)@,
                config.laser_velocity as int,
                delta as int,
                screen_height as int,
            ),
            final(commands).laser_spawns@ == old(commands).laser_spawns@,
            final(commands).life_deletes@ == old(commands).life_deletes@,
    {
        let ghost lasers0 = lasers@;
        let ghost deletes0 = commands.laser_deletes@;

        // every beam climbs at the configured velocity
        proof {
            assert(0 <= config.laser_velocity * delta <= TUNING_MAX * DT_MAX) by (nonlinear_arith)
                requires 0 <= config.laser_velocity <= TUNING_MAX && 0 <= delta <= DT_MAX;
        }
        let step = mul_milli(config.laser_velocity, delta);
        proof {
            lemma_fx_div_bounds(config.laser_velocity * delta, MILLI as int);
        }

        let mut i: usize = 0;
        while i < lasers.len()
            invariant
                0 <= i <= lasers0.len(),
                lasers@.len() == lasers0.len(),
                0 <= delta <= DT_MAX,
                config.wf(),
                0 <= screen_height <= TUNING_MAX,
                step == fx_mul(config.laser_velocity as int, delta as int),
                0 <= step <= TUNING_MAX * DT_MAX,
                forall|k: int| 0 <= k < lasers0.len() ==> (#[trigger] lasers0[k]).wf(),
                forall|k: int|
                    0 <= k < lasers0.len() ==> 0 <= (#[trigger] lasers0[k]).position.y <= 3 * TUNING_MAX,
                forall|k: int| i <= k < lasers0.len() ==> (#[trigger] lasers@[k]) == lasers0[k],
                forall|k: int|
                    0 <= k < i ==> {
                        let before = lasers0[k];
                        let after = #[trigger] lasers@[k];
                        &&& after.id == before.id
                        &&& after.laser == before.laser
                        &&& after.position.x == before.position.x
                        &&& after.position.y == spec_laser_moved_y(
                            before,
                            config.laser_velocity as int,
                            delta as int,
                        )
                        &&& after.position.y >= before.position.y
                        &&& after.wf()
                    },
                commands.laser_deletes@ == deletes0 + spec_expired_ids(
                    lasers0.take(i as int),
                    config.laser_velocity as int,
                    delta as int,
                    screen_height as int,
                ),
                commands.laser_spawns@ == old(commands).laser_spawns@,
                commands.life_deletes@ == old(commands).life_deletes@,
            decreases lasers0.len() - i,
        {
            proof {
                assert(lasers0.take(i + 1).drop_last() =~= lasers0.take(i as int));
                assert(lasers0.take(i + 1).last() == lasers0[i as int]);
            }
            let entity = lasers[i];
            let mut updated = entity;
            updated.position.y = entity.position.y + step;
            lasers.set(i, updated);

            // delete the laser once it has gone off the screen
            if updated.position.y > screen_height {
                commands.laser_deletes.push(entity.id);
            }
            proof {
                assert(commands.laser_deletes@ =~= deletes0 + spec_expired_ids(
                    lasers0.take(i + 1),
                    config.laser_velocity as int,
                    delta as int,
                    screen_height as int,
                ));
            }
            i += 1;
        }
        proof {
            assert(lasers0.take(lasers0.len() as int) =~= lasers0);
        }
    }
}

} // verus!

//! Removes the laser and marks the asteroid for relocation when it
//! detects a collision between them.

use crate::systems::collision::{collides, spec_collides};
use crate::world::{AsteroidEntity, CommandBuffer, LaserEntity};
use vstd::prelude::*;

verus! {

/// Whether the laser overlaps the asteroid, by the game's one-sided test.
pub open spec fn spec_laser_hits(laser: LaserEntity, entity: AsteroidEntity) -> bool {
    spec_collides(
        laser.position.x as int,
        laser.position.x + laser.laser.width,
        laser.position.y + laser.laser.height,
        entity.position.x as int,
        entity.position.x + entity.asteroid.width,
        entity.position.y as int,
    )
}

/// The deletion requests one laser queues: its own identifier once per
/// asteroid it overlaps, in pool order. Requesting the same deletion
/// several times is harmless: deletion is idempotent.
pub open spec fn spec_hit_ids_row(laser: LaserEntity, asteroids: Seq<AsteroidEntity>) -> Seq<u64>
    decreases asteroids.len(),
{
    if asteroids.len() == 0 {
        Seq::empty()
    } else {
        spec_hit_ids_row(laser, asteroids.drop_last()) + if spec_laser_hits(
            laser,
            asteroids.last(),
        ) {
            seq![laser.id]
        } else {
            Seq::empty()
        }
    }
}

/// The deletion requests one pass of the laser collision system queues:
/// the rows of every laser, in store order.
pub open spec fn spec_hit_ids(lasers: Seq<LaserEntity>, asteroids: Seq<AsteroidEntity>) -> Seq<u64>
    decreases lasers.len(),
{
    if lasers.len() == 0 {
        Seq::empty()
    } else {
        spec_hit_ids(lasers.drop_last(), asteroids) + spec_hit_ids_row(lasers.last(), asteroids)
    }
}

/// A laser's row holds exactly its own identifier, and only when the
/// laser overlaps some asteroid.
proof fn lemma_hit_ids_row_contains(laser: LaserEntity, asteroids: Seq<AsteroidEntity>)
    ensures
        forall|id: u64|
            spec_hit_ids_row(laser, asteroids).contains(id) <==> (id == laser.id && exists|j: int|
                0 <= j < asteroids.len() && spec_laser_hits(laser, #[trigger] asteroids[j])),
    decreases asteroids.len(),
{
    if asteroids.len() > 0 {
        lemma_hit_ids_row_contains(laser, asteroids.drop_last());
        let full = spec_hit_ids_row(laser, asteroids);
        let head = spec_hit_ids_row(laser, asteroids.drop_last());
        assert forall|id: u64| full.contains(id) implies (id == laser.id && exists|j: int|
            0 <= j < asteroids.len() && spec_laser_hits(laser, #[trigger] asteroids[j])) by {
            let k = choose|k: int| 0 <= k < full.len() && full[k] == id;
            if k < head.len() {
                assert(head.contains(id));
                let j = choose|j: int|
                    0 <= j < asteroids.drop_last().len() && spec_laser_hits(
                        laser,
                        #[trigger] asteroids.drop_last()[j],
                    );
                assert(asteroids[j] == asteroids.drop_last()[j]);
                assert(spec_laser_hits(laser, asteroids[j]));
            } else {
                assert(spec_laser_hits(laser, asteroids[asteroids.len() - 1]));
            }
        }
        assert forall|id: u64| (id == laser.id && exists|j: int|
            0 <= j < asteroids.len() && spec_laser_hits(laser, #[trigger] asteroids[j])) implies full.contains(
            id,
        ) by {
            let j = choose|j: int|
                0 <= j < asteroids.len() && spec_laser_hits(laser, #[trigger] asteroids[j]);
            if j < asteroids.len() - 1 {
                assert(asteroids.drop_last()[j] == asteroids[j]);
                assert(head.contains(id));
                let k = choose|k: int| 0 <= k < head.len() && head[k] == id;
                assert(full[k] == id);
            } else {
                assert(full[full.len() - 1] == id);
            }
        }
    }
}

/// An identifier is among the queued deletions exactly when some laser of
/// that identifier overlaps some asteroid.
pub proof fn lemma_hit_ids_contains(lasers: Seq<LaserEntity>, asteroids: Seq<AsteroidEntity>)
    ensures
        forall|id: u64|
            spec_hit_ids(lasers, asteroids).contains(id) <==> exists|i: int, j: int|
                0 <= i < lasers.len() && 0 <= j < asteroids.len() && (#[trigger] lasers[i]).id == id
                    && spec_laser_hits(lasers[i], #[trigger] asteroids[j]),
    decreases lasers.len(),
{
    if lasers.len() > 0 {
        lemma_hit_ids_contains(lasers.drop_last(), asteroids);
        lemma_hit_ids_row_contains(lasers.last(), asteroids);
        let full = spec_hit_ids(lasers, asteroids);
        let head = spec_hit_ids(lasers.drop_last(), asteroids);
        let row = spec_hit_ids_row(lasers.last(), asteroids);
        assert forall|id: u64| full.contains(id) implies exists|i: int, j: int|
            0 <= i < lasers.len() && 0 <= j < asteroids.len() && (#[trigger] lasers[i]).id == id
                && spec_laser_hits(lasers[i], #[trigger] asteroids[j]) by {
            let k = choose|k: int| 0 <= k < full.len() && full[k] == id;
            if k < head.len() {
                assert(head.contains(id));
                let (i, j) = choose|i: int, j: int|
                    0 <= i < lasers.drop_last().len() && 0 <= j < asteroids.len() && (
                    #[trigger] lasers.drop_last()[i]).id == id && spec_laser_hits(
                        lasers.drop_last()[i],
                        #[trigger] asteroids[j],
                    );
                assert(lasers[i] == lasers.drop_last()[i]);
                assert(lasers[i].id == id && spec_laser_hits(lasers[i], asteroids[j]));
            } else {
                assert(row[k - head.len()] == id);
                assert(row.contains(id));
                let j = choose|j: int|
                    0 <= j < asteroids.len() && spec_laser_hits(lasers.last(), #[trigger] asteroids[j]);
                assert(lasers[lasers.len() - 1].id == id && spec_laser_hits(
                    lasers[lasers.len() - 1],
                    asteroids[j],
                ));
            }
        }
        assert forall|id: u64|
            exists|i: int, j: int|
                0 <= i < lasers.len() && 0 <= j < asteroids.len() && (#[trigger] lasers[i]).id == id
                    && spec_laser_hits(lasers[i], #[trigger] asteroids[j]) implies full.contains(id) by {
            let (i, j) = choose|i: int, j: int|
                0 <= i < lasers.len() && 0 <= j < asteroids.len() && (#[trigger] lasers[i]).id == id
                    && spec_laser_hits(lasers[i], #[trigger] asteroids[j]);
            if i < lasers.len() - 1 {
                assert(lasers.drop_last()[i] == lasers[i]);
                assert(head.contains(id));
                let k = choose|k: int| 0 <= k < head.len() && head[k] == id;
                assert(full[k] == id);
            } else {
                assert(row.contains(id));
                let k = choose|k: int| 0 <= k < row.len() && row[k] == id;
                assert(full[head.len() + k] == id);
            }
        }
    }
}

/// Removes the laser and marks the asteroid for relocation when the two
/// collide.
pub struct LaserCollisionSystem;

impl LaserCollisionSystem {
    /// Runs a pass of the system over every laser-asteroid pair.
    ///
    /// For each laser the pass scans the whole pool. On an overlap it
    /// queues the laser's deletion and marks the asteroid destroyed;
    /// marking twice is idempotent, and a laser that overlaps several
    /// asteroids queues one deletion per overlap, each request past the
    /// first a harmless repeat.
    pub fn run(
        lasers: &Vec<LaserEntity>,
        asteroids: &mut Vec<AsteroidEntity>,
        commands: &mut CommandBuffer,
    )
        requires
            forall|i: int| 0 <= i < lasers.len() ==> (#[trigger] lasers[i]).wf(),
            forall|i: int| 0 <= i < lasers.len() ==> 0 <= (#[trigger] lasers[i]).position.y,
            forall|j: int| 0 <= j < old(asteroids).len() ==> (#[trigger] old(asteroids)[j]).asteroid.wf(),
            forall|j: int| 0 <= j < old(asteroids).len() ==> (#[trigger] old(asteroids)[j]).position.wf(),
        ensures
            final(asteroids)@.len() == old(asteroids)@.len(),
            forall|j: int|
                0 <= j < old(asteroids)@.len() ==> {
                    let before = old(asteroids)@[j];
                    let after = #[trigger] final(asteroids)@[j];
                    &&& after.position == before.position
                    &&& after.asteroid.velocity == before.asteroid.velocity
                    &&& after.asteroid.width == before.asteroid.width
                    &&& after.asteroid.height == before.asteroid.height
                    &&& after.asteroid.is_destroyed == (before.asteroid.is_destroyed || exists|i: int|
                        0 <= i < lasers.len() && spec_laser_hits(#[trigger] lasers@[i], before))
                },
            final(commands).laser_deletes@ == old(commands).laser_deletes@ + spec_hit_ids(
                lasers@,
                old(asteroids)@,
            ),
            final(commands).laser_spawns@ == old(commands).laser_spawns@,
            final(commands).life_deletes@ == old(commands).life_deletes@,
    {
        let ghost asteroids0 = asteroids@;
        let ghost deletes0 = commands.laser_deletes@;

        let mut i: usize = 0;
        while i < lasers.len()
            invariant
                0 <= i <= lasers.len(),
                asteroids@.len() == asteroids0.len(),
                forall|k: int| 0 <= k < lasers.len() ==> (#[trigger] lasers[k]).wf(),
                forall|k: int| 0 <= k < lasers.len() ==> 0 <= (#[trigger] lasers[k]).position.y,
                forall|j: int| 0 <= j < asteroids0.len() ==> (#[trigger] asteroids0[j]).asteroid.wf(),
                forall|j: int| 0 <= j < asteroids0.len() ==> (#[trigger] asteroids0[j]).position.wf(),
                forall|j: int|
                    0 <= j < asteroids0.len() ==> {
                        let before = asteroids0[j];
                        let after = #[trigger] asteroids@[j];
                        &&& after.position == before.position
                        &&& after.asteroid.velocity == before.asteroid.velocity
                        &&& after.asteroid.width == before.asteroid.width
                        &&& after.asteroid.height == before.asteroid.height
                        &&& after.asteroid.is_destroyed == (before.asteroid.is_destroyed || exists|k: int|
                            0 <= k < i && spec_laser_hits(#[trigger] lasers@[k], before))
                    },
                commands.laser_deletes@ == deletes0 + spec_hit_ids(lasers@.take(i as int), asteroids0),
                commands.laser_spawns@ == old(commands).laser_spawns@,
                commands.life_deletes@ == old(commands).life_deletes@,
            decreases lasers.len() - i,
        {
            proof {
                assert(lasers@.take(i + 1).drop_last() =~= lasers@.take(i as int));
                assert(lasers@.take(i + 1).last() == lasers@[i as int]);
            }
            let laser = lasers[i];
            // set up the collision box for the laser
            let laser_left = laser.position.x;
            let laser_right = laser.position.x + laser.laser.width;
            let laser_top = laser.position.y + laser.laser.height;

            let ghost row0 = commands.laser_deletes@;
            // scan the pool to see if this laser has hit any asteroid
            let mut j: usize = 0;
            while j < asteroids.len()
                invariant
                    0 <= j <= asteroids0.len(),
                    0 <= i < lasers.len(),
                    asteroids@.len() == asteroids0.len(),
                    laser == lasers@[i as int],
                    laser_left == laser.position.x,
                    laser_right == laser.position.x + laser.laser.width,
                    laser_top == laser.position.y + laser.laser.height,
                    forall|k: int| 0 <= k < asteroids0.len() ==> (#[trigger] asteroids0[k]).asteroid.wf(),
                    forall|k: int| 0 <= k < asteroids0.len() ==> (#[trigger] asteroids0[k]).position.wf(),
                    forall|k: int|
                        0 <= k < asteroids0.len() ==> {
                            let before = asteroids0[k];
                            let after = #[trigger] asteroids@[k];
                            &&& after.position == before.position
                            &&& after.asteroid.velocity == before.asteroid.velocity
                            &&& after.asteroid.width == before.asteroid.width
                            &&& after.asteroid.height == before.asteroid.height
                            &&& after.asteroid.is_destroyed == (before.asteroid.is_destroyed
                                || (exists|k2: int|
                                0 <= k2 < i && spec_laser_hits(#[trigger] lasers@[k2], before)) || (k < j
                                && spec_laser_hits(laser, before)))
                        },
                    commands.laser_deletes@ == row0 + spec_hit_ids_row(laser, asteroids0.take(j as int)),
                    commands.laser_spawns@ == old(commands).laser_spawns@,
                    commands.life_deletes@ == old(commands).life_deletes@,
                decreases asteroids0.len() - j,
            {
                proof {
                    assert(asteroids0.take(j + 1).drop_last() =~= asteroids0.take(j as int));
                    assert(asteroids0.take(j + 1).last() == asteroids0[j as int]);
                }
                let entity = asteroids[j];
                // set up a collision box for the asteroid
                let asteroid_left = entity.position.x;
                let asteroid_right = entity.position.x + entity.asteroid.width;
                let asteroid_bottom = entity.position.y;

                if collides(
                    laser_left,
                    laser_right,
                    laser_top,
                    asteroid_left,
                    asteroid_right,
                    asteroid_bottom,
                ) {
                    // a collision: delete the laser, and let the asteroid
                    // system know the asteroid is ready for relocation
                    commands.laser_deletes.push(laser.id);
                    let mut updated = entity;
                    updated.asteroid.is_destroyed = true;
                    asteroids.set(j, updated);
                }
                proof {
                    assert(commands.laser_deletes@ =~= row0 + spec_hit_ids_row(
                        laser,
                        asteroids0.take(j + 1),
                    ));
                }
                j += 1;
            }
            proof {
                assert(asteroids0.take(asteroids0.len() as int) =~= asteroids0);
                assert(commands.laser_deletes@ =~= deletes0 + spec_hit_ids(
                    lasers@.take(i + 1),
                    asteroids0,
                ));
            }
            i += 1;
        }
        proof {
            assert(lasers@.take(lasers@.len() as int) =~= lasers@);
        }
    }
}

} // verus!

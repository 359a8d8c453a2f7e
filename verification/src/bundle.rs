//! The scheduler: the bundle of systems that makes up the game, run in a
//! fixed dependency order once per tick.
//!
//! The order encodes the rule that a system writing a component must run
//! to completion before a system reading the post-write value in the same
//! tick: ship movement, then ship collision, then asteroid movement and
//! relocation, then laser movement, then laser collision, then lives
//! reconciliation. Entity creation and deletion requests raised along the
//! way are buffered and applied in one batch at the end, never mid-tick.

use crate::components::{Asteroid, Laser, Position, Ship};
use crate::config::GameConfiguration;
use crate::entities::{spec_locate_x, spec_locate_y};
use crate::fixed::{DT_MAX, MILLI, TUNING_MAX};
use crate::resources::InputState;
use crate::rng::{sample_draws, Draw};
use crate::systems::asteroid::{spec_asteroid_moved_y, spec_asteroid_respawns, AsteroidSystem};
use crate::systems::laser::{
    lemma_expired_ids_contains, spec_expired_ids, spec_laser_expired, spec_laser_moved_y,
    LaserSystem,
};
use crate::systems::laser_collision::{
    lemma_hit_ids_contains, spec_hit_ids, spec_laser_hits, LaserCollisionSystem,
};
use crate::systems::lives::{lemma_icons_prefix, spec_retired_ids, LivesSystem};
use crate::systems::ship::{
    spec_fire_x, spec_fire_y, spec_ship_fired, spec_ship_velocity_final, spec_ship_x_final,
    spec_timer_final, spec_wall_high, spec_wall_low, ShipSystem,
};
use crate::systems::ship_collision::{
    spec_hit_count, spec_lives_after, spec_marked, ShipCollisionSystem,
};
use crate::systems::collision::spec_ship_hits;
use crate::world::{
    flush, lemma_live_lasers_distinct, lemma_live_lasers_elements, live_lasers, live_icons,
    spawned_lasers, AsteroidEntity, CommandBuffer, LaserEntity, LifeEntity, World,
};
use vstd::arithmetic::div_mod::lemma_div_is_ordered;
use vstd::math::min;
use vstd::prelude::*;

verus! {

/// The ship at the end of a tick.
pub open spec fn spec_ship_final(w: World, input: InputState, delta: int, config: GameConfiguration) -> Ship {
    Ship {
        velocity: spec_ship_velocity_final(
            w.ship,
            w.ship_position,
            input,
            delta,
            config,
            w.screen.width as int,
        ) as i64,
        width: w.ship.width,
        height: w.ship.height,
        trigger_reset_timer: spec_timer_final(w.ship, input, delta, config) as i64,
    }
}

/// The ship's position at the end of a tick.
pub open spec fn spec_ship_position_final(
    w: World,
    input: InputState,
    delta: int,
    config: GameConfiguration,
) -> Position {
    Position {
        x: spec_ship_x_final(
            w.ship,
            w.ship_position,
            input,
            delta,
            config,
            w.screen.width as int,
        ) as i64,
        y: w.ship_position.y,
    }
}

/// Whether the tick fires a laser.
pub open spec fn spec_tick_fired(w: World, input: InputState, delta: int) -> bool {
    spec_ship_fired(w.ship, input, delta)
}

/// Whether the moved ship overlaps pool slot `j` (the ship collision pass
/// runs after the ship has moved, against the asteroids where the last
/// tick left them).
pub open spec fn spec_tick_hit(
    w: World,
    input: InputState,
    delta: int,
    config: GameConfiguration,
    j: int,
) -> bool {
    spec_ship_hits(
        spec_ship_final(w, input, delta, config),
        spec_ship_position_final(w, input, delta, config),
        w.asteroids@[j],
    )
}

/// The lives left at the end of a tick: one decrement per overlapped pool
/// slot, clamped at zero.
pub open spec fn spec_lives_final(
    w: World,
    input: InputState,
    delta: int,
    config: GameConfiguration,
) -> int {
    spec_lives_after(
        w.play_state.lives as int,
        spec_hit_count(
            spec_ship_final(w, input, delta, config),
            spec_ship_position_final(w, input, delta, config),
            w.asteroids@,
        ),
    )
}

/// The asteroid pool after the ship collision pass has marked what the
/// ship overlapped.
pub open spec fn spec_marked_pool(
    w: World,
    input: InputState,
    delta: int,
    config: GameConfiguration,
) -> Seq<AsteroidEntity> {
    Seq::new(
        w.asteroids@.len(),
        |j: int| spec_marked(w.asteroids@[j], spec_tick_hit(w, input, delta, config, j)),
    )
}

/// One pool slot after the asteroid pass: fallen by its velocity, or
/// relocated above the screen (flag cleared) if it was marked or fell out
/// of view.
pub open spec fn spec_pool_slot_moved(
    w: World,
    input: InputState,
    delta: int,
    config: GameConfiguration,
    draws: Seq<Draw>,
    j: int,
) -> AsteroidEntity {
    let marked = spec_marked_pool(w, input, delta, config)[j];
    let cleared = Asteroid {
        velocity: marked.asteroid.velocity,
        width: marked.asteroid.width,
        height: marked.asteroid.height,
        is_destroyed: false,
    };
    if spec_asteroid_respawns(marked, delta) {
        AsteroidEntity {
            asteroid: cleared,
            position: Position {
                x: spec_locate_x(marked.asteroid, w.screen.width as int, draws[j]) as i64,
                y: spec_locate_y(w.screen.height as int, config, draws[j]) as i64,
            },
        }
    } else {
        AsteroidEntity {
            asteroid: cleared,
            position: Position {
                x: marked.position.x,
                y: spec_asteroid_moved_y(marked, delta) as i64,
            },
        }
    }
}

/// The asteroid pool after the asteroid pass.
pub open spec fn spec_moved_pool(
    w: World,
    input: InputState,
    delta: int,
    config: GameConfiguration,
    draws: Seq<Draw>,
) -> Seq<AsteroidEntity> {
    Seq::new(w.asteroids@.len(), |j: int| spec_pool_slot_moved(w, input, delta, config, draws, j))
}

/// The lasers after the laser pass: each beam one climb higher.
pub open spec fn spec_moved_lasers(w: World, delta: int, config: GameConfiguration) -> Seq<LaserEntity> {
    Seq::new(
        w.lasers@.len(),
        |i: int|
            LaserEntity {
                id: w.lasers@[i].id,
                laser: w.lasers@[i].laser,
                position: Position {
                    x: w.lasers@[i].position.x,
                    y: spec_laser_moved_y(
                        w.lasers@[i],
                        config.laser_velocity as int,
                        delta,
                    ) as i64,
                },
            },
    )
}

/// The asteroid pool at the end of a tick: the moved pool, with the slots
/// some moved laser overlaps marked for relocation next tick.
pub open spec fn spec_pool_final(
    w: World,
    input: InputState,
    delta: int,
    config: GameConfiguration,
    draws: Seq<Draw>,
) -> Seq<AsteroidEntity> {
    let moved = spec_moved_pool(w, input, delta, config, draws);
    let lasers = spec_moved_lasers(w, delta, config);
    Seq::new(
        moved.len(),
        |j: int|
            spec_marked(
                moved[j],
                exists|i: int| 0 <= i < lasers.len() && spec_laser_hits(#[trigger] lasers[i], moved[j]),
            ),
    )
}

/// Every laser deletion the tick requests: the beams that climbed past
/// the screen top, then one request per laser-asteroid overlap.
pub open spec fn spec_laser_deletes(
    w: World,
    input: InputState,
    delta: int,
    config: GameConfiguration,
    draws: Seq<Draw>,
) -> Seq<u64> {
    spec_expired_ids(w.lasers@, config.laser_velocity as int, delta, w.screen.height as int)
        + spec_hit_ids(
        spec_moved_lasers(w, delta, config),
        spec_moved_pool(w, input, delta, config, draws),
    )
}

/// The laser the tick spawns, if it fires: stamped from the template,
/// centred on the ship's top edge, under the next fresh identifier.
pub open spec fn spec_spawned(
    w: World,
    input: InputState,
    delta: int,
    config: GameConfiguration,
) -> Seq<LaserEntity> {
    if spec_tick_fired(w, input, delta) {
        seq![
            LaserEntity {
                id: w.next_id,
                laser: w.laser_resource.unwrap().component,
                position: Position {
                    x: (spec_fire_x(w.ship, w.ship_position)
                        - w.laser_resource.unwrap().component.width as int / 2) as i64,
                    y: spec_fire_y(w.ship, w.ship_position) as i64,
                },
            },
        ]
    } else {
        Seq::empty()
    }
}

/// The lasers at the end of a tick: the moved beams that neither expired
/// nor hit an asteroid, plus the one the tick fired.
pub open spec fn spec_lasers_final(
    w: World,
    input: InputState,
    delta: int,
    config: GameConfiguration,
    draws: Seq<Draw>,
) -> Seq<LaserEntity> {
    live_lasers(spec_moved_lasers(w, delta, config), spec_laser_deletes(w, input, delta, config, draws))
        + spec_spawned(w, input, delta, config)
}

/// The life icons at the end of a tick: the ranks still backed by a life.
pub open spec fn spec_icons_final(
    w: World,
    input: InputState,
    delta: int,
    config: GameConfiguration,
) -> Seq<LifeEntity> {
    live_icons(
        w.life_icons@,
        spec_retired_ids(w.life_icons@, spec_lives_final(w, input, delta, config)),
    )
}

/// The count of lives never rises, so a run that starts at the initial
/// count never exceeds it, tick after tick.
pub proof fn lemma_lives_stay_bounded(before: World, after: World)
    requires
        after.play_state.lives <= before.play_state.lives,
        before.play_state.lives <= before.initial_lives,
        after.initial_lives == before.initial_lives,
    ensures
        after.play_state.lives <= after.initial_lives,
{
}

/// The bundle of systems that makes up the game.
pub struct GameBundle;

impl GameBundle {
    /// Runs one fixed tick: every system once, in dependency order, then
    /// the command buffer flush.
    ///
    /// The draws carry the randomness of the tick, one pair per pool
    /// slot, consumed by whichever asteroids relocate; handing them in as
    /// data keeps the tick a pure function of its arguments (see
    /// [`GameBundle::run_tick_with_rng`] for the sampling form).
    pub fn run_tick(
        world: &mut World,
        input: &InputState,
        delta: i64,
        config: &GameConfiguration,
        draws: &Vec<Draw>,
    )
        requires
            old(world).wf(),
            old(world).laser_resource is Some,
            old(world).next_id < u64::MAX,
            input.wf(),
            config.wf(),
            0 <= delta <= DT_MAX,
            draws.len() == old(world).asteroids.len(),
            forall|j: int| 0 <= j < draws.len() ==> (#[trigger] draws[j]).wf(),
        ensures
            final(world).wf(),
            final(world).screen == old(world).screen,
            final(world).initial_lives == old(world).initial_lives,
            final(world).laser_resource == old(world).laser_resource,
            final(world).ship == spec_ship_final(*old(world), *input, delta as int, *config),
            final(world).ship_position == spec_ship_position_final(
                *old(world), *input, delta as int, *config),
            spec_wall_low(old(world).ship) <= final(world).ship_position.x,
            final(world).ship_position.x <= spec_wall_high(
                old(world).ship, old(world).screen.width as int),
            final(world).play_state.lives == spec_lives_final(*old(world), *input, delta as int, *config),
            final(world).play_state.lives <= old(world).play_state.lives,
            final(world).asteroids@ == spec_pool_final(
                *old(world), *input, delta as int, *config, draws@),
            final(world).asteroids@.len() == old(world).asteroids@.len(),
            forall|j: int|
                0 <= j < final(world).asteroids@.len() ==> (#[trigger] final(world).asteroids@[j]).position.y
                    >= -final(world).asteroids@[j].asteroid.height,
            final(world).lasers@ == spec_lasers_final(
                *old(world), *input, delta as int, *config, draws@),
            final(world).life_icons@ == spec_icons_final(*old(world), *input, delta as int, *config),
            final(world).next_id == old(world).next_id + spec_spawned(
                *old(world), *input, delta as int, *config).len(),
            // a beam that climbed past the screen top is gone by the end
            // of the tick
            forall|i: int, k: int|
                0 <= i < old(world).lasers@.len() && 0 <= k < final(world).lasers@.len()
                    && spec_laser_expired(
                    #[trigger] old(world).lasers@[i],
                    config.laser_velocity as int,
                    delta as int,
                    old(world).screen.height as int,
                ) ==> (#[trigger] final(world).lasers@[k]).id != old(world).lasers@[i].id,
            // a surviving beam is one of the old beams, exactly one climb
            // higher
            forall|k: int|
                0 <= k < final(world).lasers@.len() && (#[trigger] final(world).lasers@[k]).id
                    < old(world).next_id ==> exists|i: int|
                    0 <= i < old(world).lasers@.len() && (#[trigger] old(world).lasers@[i]).id
                        == final(world).lasers@[k].id && final(world).lasers@[k].position.y
                        == spec_laser_moved_y(
                        old(world).lasers@[i],
                        config.laser_velocity as int,
                        delta as int,
                    ),
            // with any movement at all in the tick, the climb is strict
            forall|i: int|
                0 <= i < old(world).lasers@.len() && config.laser_velocity * delta >= MILLI
                    ==> spec_laser_moved_y(
                    #[trigger] old(world).lasers@[i],
                    config.laser_velocity as int,
                    delta as int,
                ) > old(world).lasers@[i].position.y,
            // no surviving beam is among the tick's deletion requests:
            // neither expired nor overlapping an asteroid (what the
            // requests hold, the contains lemmas of the laser modules
            // characterise)
            forall|k: int|
                0 <= k < final(world).lasers@.len() ==> !spec_laser_deletes(
                    *old(world),
                    *input,
                    delta as int,
                    *config,
                    draws@,
                ).contains((#[trigger] final(world).lasers@[k]).id),
            // a relocated asteroid comes back at or above the screen top
            forall|j: int|
                0 <= j < old(world).asteroids@.len() && spec_asteroid_respawns(
                    #[trigger] spec_marked_pool(*old(world), *input, delta as int, *config)[j],
                    delta as int,
                ) ==> (#[trigger] final(world).asteroids@[j]).position.y
                    >= old(world).screen.height,
            // a flag still set at the end of the tick can only come from a
            // laser overlap later in the tick than the asteroid pass; the
            // pass itself clears every flag it sees
            forall|j: int|
                0 <= j < final(world).asteroids@.len() && (#[trigger] final(world).asteroids@[j]).asteroid.is_destroyed
                    ==> exists|i: int|
                    0 <= i < old(world).lasers@.len() && spec_laser_hits(
                        #[trigger] spec_moved_lasers(*old(world), delta as int, *config)[i],
                        spec_moved_pool(*old(world), *input, delta as int, *config, draws@)[j],
                    ),
            // the live icons always count min(initial lives, lives)
            final(world).life_icons@.len() == min(
                final(world).initial_lives as int,
                final(world).play_state.lives as int,
            ),
    {
        let ghost w0 = *old(world);
        let ghost d = delta as int;
        let ghost cfg = *config;

        let mut commands = CommandBuffer::new();
        let laser_resource = world.laser_resource.unwrap();
        let arena_width = world.screen.width;
        let screen_height = world.screen.height;

        // ship movement and fire control
        ShipSystem::run(
            &mut world.ship,
            &mut world.ship_position,
            input,
            delta,
            config,
            arena_width,
            &laser_resource,
            &mut commands,
        );
        proof {
            assert(world.ship == spec_ship_final(w0, *input, d, cfg));
            assert(world.ship_position == spec_ship_position_final(w0, *input, d, cfg));
        }

        // ship-against-asteroid collision
        ShipCollisionSystem::run(
            &mut world.play_state,
            &world.ship,
            &world.ship_position,
            &mut world.asteroids,
        );
        proof {
            assert(world.play_state.lives == spec_lives_final(w0, *input, d, cfg));
            assert(world.asteroids@ =~= spec_marked_pool(w0, *input, d, cfg));
        }

        // asteroid movement and pooled respawn
        AsteroidSystem::run(&mut world.asteroids, delta, &world.screen, config, draws);
        proof {
            assert(world.asteroids@ =~= spec_moved_pool(w0, *input, d, cfg, draws@));
            assert(forall|j: int|
                0 <= j < w0.asteroids@.len() && spec_asteroid_respawns(
                    #[trigger] spec_marked_pool(w0, *input, d, cfg)[j],
                    d,
                ) ==> spec_moved_pool(w0, *input, d, cfg, draws@)[j].position.y
                    >= w0.screen.height);
        }

        // laser movement and expiry
        LaserSystem::run(&mut world.lasers, delta, config, screen_height, &mut commands);
        proof {
            assert(world.lasers@ =~= spec_moved_lasers(w0, d, cfg));
            assert(commands.laser_deletes@ =~= spec_expired_ids(
                w0.lasers@,
                cfg.laser_velocity as int,
                d,
                w0.screen.height as int,
            ));
        }

        // laser-against-asteroid collision
        LaserCollisionSystem::run(&world.lasers, &mut world.asteroids, &mut commands);
        proof {
            assert(world.asteroids@ =~= spec_pool_final(w0, *input, d, cfg, draws@));
            assert(commands.laser_deletes@ =~= spec_laser_deletes(w0, *input, d, cfg, draws@));
        }

        // lives reconciliation
        LivesSystem::run(&world.life_icons, &world.play_state, &mut commands);
        proof {
            assert(commands.life_deletes@ =~= spec_retired_ids(
                w0.life_icons@,
                spec_lives_final(w0, *input, d, cfg),
            ));
            assert(spawned_lasers(commands.laser_spawns@, w0.next_id as int) =~= spec_spawned(
                w0,
                *input,
                d,
                cfg,
            ));
        }

        // apply the buffered creations and deletions in one batch
        flush(world, &commands);

        proof {
            assert(world.lasers@ == spec_lasers_final(w0, *input, d, cfg, draws@));
            assert(world.life_icons@ == spec_icons_final(w0, *input, d, cfg));
            assert(forall|j: int|
                0 <= j < world.asteroids@.len() ==> (#[trigger] world.asteroids@[j]).wf());
            assert(forall|i: int|
                0 <= i < spec_moved_lasers(w0, d, cfg).len() ==> {
                    let moved = #[trigger] spec_moved_lasers(w0, d, cfg)[i];
                    moved.wf() && moved.position.y >= 0
                });
            lemma_tick_final(w0, *input, d, cfg, draws@, *world);
        }
    }

    /// Runs one fixed tick with the randomness drawn on the spot, one
    /// pair per pool slot.
    ///
    /// The draws are random, so only what holds of every placement is
    /// promised: where the randomness enters the outcome (which spot a
    /// relocated asteroid gets, and what the moved lasers consequently
    /// hit), see [`GameBundle::run_tick`], which pins the whole tick for
    /// given draws.
    pub fn run_tick_with_rng(
        world: &mut World,
        input: &InputState,
        delta: i64,
        config: &GameConfiguration,
    )
        requires
            old(world).wf(),
            old(world).laser_resource is Some,
            old(world).next_id < u64::MAX,
            input.wf(),
            config.wf(),
            0 <= delta <= DT_MAX,
        ensures
            final(world).wf(),
            final(world).screen == old(world).screen,
            final(world).initial_lives == old(world).initial_lives,
            final(world).laser_resource == old(world).laser_resource,
            final(world).ship == spec_ship_final(*old(world), *input, delta as int, *config),
            final(world).ship_position == spec_ship_position_final(
                *old(world), *input, delta as int, *config),
            spec_wall_low(old(world).ship) <= final(world).ship_position.x,
            final(world).ship_position.x <= spec_wall_high(
                old(world).ship, old(world).screen.width as int),
            final(world).play_state.lives == spec_lives_final(*old(world), *input, delta as int, *config),
            final(world).play_state.lives <= old(world).play_state.lives,
            final(world).asteroids@.len() == old(world).asteroids@.len(),
            forall|j: int|
                0 <= j < final(world).asteroids@.len() ==> (#[trigger] final(world).asteroids@[j]).position.y
                    >= -final(world).asteroids@[j].asteroid.height,
            final(world).life_icons@ == spec_icons_final(*old(world), *input, delta as int, *config),
            final(world).next_id == old(world).next_id + spec_spawned(
                *old(world), *input, delta as int, *config).len(),
    {
        let draws = sample_draws(world.asteroids.len());
        GameBundle::run_tick(world, input, delta, config, &draws);
    }
}

/// From the pinned outcome of a tick, the world invariant and the
/// lifecycle guarantees follow.
proof fn lemma_tick_final(
    w0: World,
    input: InputState,
    d: int,
    cfg: GameConfiguration,
    draws: Seq<Draw>,
    w1: World,
)
    requires
        w0.wf(),
        w0.laser_resource is Some,
        w0.next_id < u64::MAX,
        input.wf(),
        cfg.wf(),
        0 <= d <= DT_MAX,
        draws.len() == w0.asteroids@.len(),
        forall|j: int| 0 <= j < draws.len() ==> (#[trigger] draws[j]).wf(),
        w1.screen == w0.screen,
        w1.initial_lives == w0.initial_lives,
        w1.laser_resource == w0.laser_resource,
        w1.ship == spec_ship_final(w0, input, d, cfg),
        w1.ship_position == spec_ship_position_final(w0, input, d, cfg),
        w1.play_state.lives == spec_lives_final(w0, input, d, cfg),
        w1.asteroids@ == spec_pool_final(w0, input, d, cfg, draws),
        forall|j: int| 0 <= j < w1.asteroids@.len() ==> (#[trigger] w1.asteroids@[j]).wf(),
        w1.lasers@ == spec_lasers_final(w0, input, d, cfg, draws),
        forall|i: int|
            0 <= i < spec_moved_lasers(w0, d, cfg).len() ==> {
                let moved = #[trigger] spec_moved_lasers(w0, d, cfg)[i];
                moved.wf() && moved.position.y >= 0
            },
        w1.life_icons@ == spec_icons_final(w0, input, d, cfg),
        w1.next_id == w0.next_id + spec_spawned(w0, input, d, cfg).len(),
        forall|j: int|
            0 <= j < w0.asteroids@.len() && spec_asteroid_respawns(
                #[trigger] spec_marked_pool(w0, input, d, cfg)[j],
                d,
            ) ==> spec_moved_pool(w0, input, d, cfg, draws)[j].position.y >= w0.screen.height,
    ensures
        w1.wf(),
        spec_wall_low(w0.ship) <= w1.ship_position.x,
        w1.ship_position.x <= spec_wall_high(w0.ship, w0.screen.width as int),
        w1.play_state.lives <= w0.play_state.lives,
        forall|i: int, k: int|
            0 <= i < w0.lasers@.len() && 0 <= k < w1.lasers@.len() && spec_laser_expired(
                #[trigger] w0.lasers@[i],
                cfg.laser_velocity as int,
                d,
                w0.screen.height as int,
            ) ==> (#[trigger] w1.lasers@[k]).id != w0.lasers@[i].id,
        forall|k: int|
            0 <= k < w1.lasers@.len() && (#[trigger] w1.lasers@[k]).id < w0.next_id ==> exists|i: int|
                0 <= i < w0.lasers@.len() && (#[trigger] w0.lasers@[i]).id == w1.lasers@[k].id
                    && w1.lasers@[k].position.y == spec_laser_moved_y(
                    w0.lasers@[i],
                    cfg.laser_velocity as int,
                    d,
                ),
        forall|i: int|
            0 <= i < w0.lasers@.len() && cfg.laser_velocity * d >= MILLI ==> spec_laser_moved_y(
                #[trigger] w0.lasers@[i],
                cfg.laser_velocity as int,
                d,
            ) > w0.lasers@[i].position.y,
        forall|k: int|
            0 <= k < w1.lasers@.len() ==> !spec_laser_deletes(w0, input, d, cfg, draws).contains(
                (#[trigger] w1.lasers@[k]).id,
            ),
        forall|j: int|
            0 <= j < w0.asteroids@.len() && spec_asteroid_respawns(
                #[trigger] spec_marked_pool(w0, input, d, cfg)[j],
                d,
            ) ==> (#[trigger] w1.asteroids@[j]).position.y >= w0.screen.height,
{
    let moved = spec_moved_lasers(w0, d, cfg);
    let deletes = spec_laser_deletes(w0, input, d, cfg, draws);
    let live = live_lasers(moved, deletes);
    let spawned = spec_spawned(w0, input, d, cfg);
    let expired = spec_expired_ids(w0.lasers@, cfg.laser_velocity as int, d, w0.screen.height as int);

    lemma_live_lasers_elements(moved, deletes);
    assert(forall|i: int, j: int| 0 <= i < j < moved.len() ==> moved[i].id != moved[j].id);
    lemma_live_lasers_distinct(moved, deletes);
    lemma_expired_ids_contains(w0.lasers@, cfg.laser_velocity as int, d, w0.screen.height as int);

    // an expired beam's identifier is among the deletions
    assert forall|i: int|
        0 <= i < w0.lasers@.len() && spec_laser_expired(
            #[trigger] w0.lasers@[i],
            cfg.laser_velocity as int,
            d,
            w0.screen.height as int,
        ) implies deletes.contains(w0.lasers@[i].id) by {
        assert(expired.contains(w0.lasers@[i].id));
        let k = choose|k: int| 0 <= k < expired.len() && expired[k] == w0.lasers@[i].id;
        assert(deletes[k] == w0.lasers@[i].id);
    }

    // the ship stays between the walls, so the fired beam starts in range
    assert(spec_wall_low(w0.ship) <= w1.ship_position.x <= spec_wall_high(
        w0.ship,
        w0.screen.width as int,
    ));

    // every surviving beam is a moved beam, low enough to be stored
    assert forall|k: int| 0 <= k < w1.lasers@.len() implies {
        let e = #[trigger] w1.lasers@[k];
        e.wf() && 0 <= e.position.y <= 3 * TUNING_MAX && e.id < w1.next_id
    } by {
        if k < live.len() {
            assert(w1.lasers@[k] == live[k]);
            let i = choose|i: int| 0 <= i < moved.len() && live[k] == moved[i];
            assert(moved[i].wf() && moved[i].position.y >= 0);
            assert(moved[i].id == w0.lasers@[i].id && w0.lasers@[i].id < w0.next_id);
            // a beam past the screen top would have been deleted
            if moved[i].position.y > w0.screen.height {
                assert(spec_laser_expired(
                    w0.lasers@[i],
                    cfg.laser_velocity as int,
                    d,
                    w0.screen.height as int,
                ));
                assert(deletes.contains(live[k].id));
                assert(false);
            }
        } else {
            assert(w1.lasers@[k] == spawned[k - live.len()]);
            assert(spec_tick_fired(w0, input, d));
        }
    }

    // identifiers stay unambiguous: survivors keep their old identifiers,
    // all below the fresh one of the fired beam
    assert forall|k1: int, k2: int| 0 <= k1 < k2 < w1.lasers@.len() implies w1.lasers@[k1].id
        != w1.lasers@[k2].id by {
        if k2 < live.len() {
        } else {
            assert(w1.lasers@[k2] == spawned[k2 - live.len()]);
            assert(w1.lasers@[k2].id == w0.next_id);
            let i = choose|i: int| 0 <= i < moved.len() && live[k1] == moved[i];
            assert(moved[i].id == w0.lasers@[i].id && w0.lasers@[i].id < w0.next_id);
        }
    }

    // the icons left are exactly the first `lives` ranks
    let lives1 = spec_lives_final(w0, input, d, cfg);
    lemma_icons_prefix(w0.life_icons@, lives1);
    assert(w1.life_icons@ == if lives1 < w0.life_icons@.len() {
        w0.life_icons@.take(lives1)
    } else {
        w0.life_icons@
    });
    assert(w1.icons_wf());

    // an expired beam is gone by the end of the tick
    assert forall|i: int, k: int|
        0 <= i < w0.lasers@.len() && 0 <= k < w1.lasers@.len() && spec_laser_expired(
            #[trigger] w0.lasers@[i],
            cfg.laser_velocity as int,
            d,
            w0.screen.height as int,
        ) implies (#[trigger] w1.lasers@[k]).id != w0.lasers@[i].id by {
        assert(deletes.contains(w0.lasers@[i].id));
        if k < live.len() {
            assert(!deletes.contains(live[k].id));
        } else {
            assert(w1.lasers@[k].id == w0.next_id);
            assert(w0.lasers@[i].id < w0.next_id);
        }
    }

    // a surviving beam is one of the old beams, one climb higher
    assert forall|k: int|
        0 <= k < w1.lasers@.len() && (#[trigger] w1.lasers@[k]).id < w0.next_id implies exists|i: int|
            0 <= i < w0.lasers@.len() && (#[trigger] w0.lasers@[i]).id == w1.lasers@[k].id
                && w1.lasers@[k].position.y == spec_laser_moved_y(
                w0.lasers@[i],
                cfg.laser_velocity as int,
                d,
            ) by {
        if k < live.len() {
            let i = choose|i: int| 0 <= i < moved.len() && live[k] == moved[i];
            assert(w0.lasers@[i].id == w1.lasers@[k].id && w1.lasers@[k].position.y
                == spec_laser_moved_y(w0.lasers@[i], cfg.laser_velocity as int, d));
        } else {
            assert(w1.lasers@[k].id == w0.next_id);
        }
    }

    // with any movement at all, the climb is strict
    assert forall|i: int|
        0 <= i < w0.lasers@.len() && cfg.laser_velocity * d >= MILLI implies spec_laser_moved_y(
            #[trigger] w0.lasers@[i],
            cfg.laser_velocity as int,
            d,
        ) > w0.lasers@[i].position.y by {
        lemma_div_is_ordered(MILLI as int, cfg.laser_velocity * d, MILLI as int);
        assert(MILLI as int / MILLI as int == 1);
    }

    // no surviving beam is among the deletion requests: survivors come
    // from the filter, and the fired beam's fresh identifier is not the
    // identifier of any old beam a request could name
    let hits = spec_hit_ids(moved, spec_moved_pool(w0, input, d, cfg, draws));
    lemma_hit_ids_contains(moved, spec_moved_pool(w0, input, d, cfg, draws));
    assert forall|k: int| 0 <= k < w1.lasers@.len() implies !deletes.contains(
        (#[trigger] w1.lasers@[k]).id,
    ) by {
        if k < live.len() {
            assert(!deletes.contains(live[k].id));
        } else {
            assert(w1.lasers@[k].id == w0.next_id);
            if deletes.contains(w0.next_id) {
                let k2 = choose|k2: int| 0 <= k2 < deletes.len() && deletes[k2] == w0.next_id;
                if k2 < expired.len() {
                    assert(expired.contains(w0.next_id));
                    let i = choose|i: int|
                        0 <= i < w0.lasers@.len() && (#[trigger] w0.lasers@[i]).id == w0.next_id
                            && spec_laser_expired(
                            w0.lasers@[i],
                            cfg.laser_velocity as int,
                            d,
                            w0.screen.height as int,
                        );
                    assert(w0.lasers@[i].id < w0.next_id);
                } else {
                    assert(hits[k2 - expired.len()] == w0.next_id);
                    assert(hits.contains(w0.next_id));
                    let (i, j) = choose|i: int, j: int|
                        0 <= i < moved.len() && 0 <= j < spec_moved_pool(
                            w0,
                            input,
                            d,
                            cfg,
                            draws,
                        ).len() && (#[trigger] moved[i]).id == w0.next_id && spec_laser_hits(
                            moved[i],
                            #[trigger] spec_moved_pool(w0, input, d, cfg, draws)[j],
                        );
                    assert(moved[i].id == w0.lasers@[i].id);
                    assert(w0.lasers@[i].id < w0.next_id);
                }
                assert(false);
            }
        }
    }
}

} // verus!

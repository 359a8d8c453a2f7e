//! World setup: the functions that create the entities of the game, and
//! the fire request raised by the ship system.

use crate::components::{Asteroid, Laser, Life, Position, Ship};
use crate::config::GameConfiguration;
use crate::fixed::{fx_mul, lemma_fx_div_bounds, mul_milli, COORD_MAX, MILLI, TUNING_MAX};
use crate::resources::{LaserResource, INITIAL_LIVES};
use crate::rng::Draw;
use crate::world::{AsteroidEntity, CommandBuffer, LaserSpawn, LifeEntity, World};
use vstd::prelude::*;

verus! {

/// The width of the ship sprite (it comes from the image the
/// presentation layer draws).
pub const SHIP_WIDTH: i64 = 105_000;

/// The height of the ship sprite.
pub const SHIP_HEIGHT: i64 = 83_000;

/// The side of an asteroid sprite.
pub const ASTEROID_SIZE: i64 = 43_000;

/// The width of a laser sprite.
pub const LASER_WIDTH: i64 = 9_000;

/// The height of a laser sprite.
pub const LASER_HEIGHT: i64 = 54_000;

/// How many asteroids the recycled pool holds.
pub const ASTEROID_POOL_SIZE: usize = 100;

/// The lowest point where a relocated asteroid may spawn: the screen top,
/// lifted by the configured wait scaled by the fall speed, so the player
/// has time before the first asteroid arrives.
pub open spec fn spec_spawn_min_height(screen_height: int, config: GameConfiguration) -> int {
    screen_height + fx_mul(config.wait_for_first_asteroid as int, config.asteroid_velocity as int)
}

/// The height of the band above that point in which asteroids spawn:
/// proportional to the fall speed and inverse to the density, so a denser
/// configuration makes a tighter band and more frequent arrivals.
pub open spec fn spec_spawn_band(screen_height: int, config: GameConfiguration) -> int {
    (screen_height * config.asteroid_velocity) / (config.asteroid_density as int)
}

/// The horizontal position a draw places an asteroid at: a fraction of
/// the width left over once the asteroid's own width is kept on screen.
pub open spec fn spec_locate_x(asteroid: Asteroid, screen_width: int, draw: Draw) -> int {
    fx_mul(draw.x_frac as int, screen_width - asteroid.width)
}

/// The vertical position a draw places an asteroid at: a fraction of the
/// spawn band above its lowest point.
pub open spec fn spec_locate_y(screen_height: int, config: GameConfiguration, draw: Draw) -> int {
    spec_spawn_min_height(screen_height, config) + fx_mul(
        draw.y_frac as int,
        spec_spawn_band(screen_height, config),
    )
}

/// (Re)locates an asteroid to a spot above the screen, the spot picked by
/// the given pair of uniform draws.
///
/// The fall speed is calculated into the placement: the spawn band starts
/// above the visible screen (never below `screen_height`) and its spread
/// matches the speed, so the asteroids keep arriving at regular
/// intervals.
pub fn locate_asteroid(
    asteroid: &Asteroid,
    screen_width: i64,
    screen_height: i64,
    config: &GameConfiguration,
    draw: Draw,
) -> (r: Position)
    requires
        asteroid.wf(),
        0 <= screen_width <= TUNING_MAX,
        0 <= screen_height <= TUNING_MAX,
        config.wf(),
        draw.wf(),
    ensures
        r.x == spec_locate_x(*asteroid, screen_width as int, draw),
        r.y == spec_locate_y(screen_height as int, *config, draw),
        r.y >= screen_height,
        r.wf(),
{
    let max_width = screen_width - asteroid.width;
    proof {
        assert(-MILLI * TUNING_MAX <= draw.x_frac * max_width <= MILLI * TUNING_MAX)
            by (nonlinear_arith)
            requires 0 <= draw.x_frac < MILLI && -TUNING_MAX <= max_width <= TUNING_MAX;
    }
    let pos_x = mul_milli(draw.x_frac, max_width);
    proof {
        lemma_fx_div_bounds(draw.x_frac * max_width, MILLI as int);
    }

    proof {
        assert(0 <= config.wait_for_first_asteroid * config.asteroid_velocity
            <= TUNING_MAX * TUNING_MAX) by (nonlinear_arith)
            requires
                0 <= config.wait_for_first_asteroid <= TUNING_MAX
                    && 0 <= config.asteroid_velocity <= TUNING_MAX;
    }
    let lift = mul_milli(config.wait_for_first_asteroid, config.asteroid_velocity);
    proof {
        lemma_fx_div_bounds(
            config.wait_for_first_asteroid * config.asteroid_velocity,
            MILLI as int,
        );
    }
    let min_height = screen_height + lift;

    proof {
        assert(0 <= screen_height * config.asteroid_velocity <= TUNING_MAX * TUNING_MAX)
            by (nonlinear_arith)
            requires
                0 <= screen_height <= TUNING_MAX && 0 <= config.asteroid_velocity <= TUNING_MAX;
    }
    let spread = screen_height * config.asteroid_velocity;
    let band = spread / config.asteroid_density;
    proof {
        lemma_fx_div_bounds(spread as int, config.asteroid_density as int);
        assert(0 <= draw.y_frac * band <= MILLI * TUNING_MAX * TUNING_MAX) by (nonlinear_arith)
            requires 0 <= draw.y_frac < MILLI && 0 <= band <= TUNING_MAX * TUNING_MAX;
    }
    let above = mul_milli(draw.y_frac, band);
    proof {
        lemma_fx_div_bounds(draw.y_frac * band, MILLI as int);
    }
    let pos_y = min_height + above;

    Position { x: pos_x, y: pos_y }
}

/// Fires the laser at the given position: queues, on the command buffer,
/// a request to create one laser entity from the template. The given
/// position is the middle of the beam; the spawned laser is shifted left
/// by half its width so the beam leaves centred.
///
/// The entity itself is created when the scheduler flushes the buffer,
/// after all the systems have run.
pub fn fire_laser(
    commands: &mut CommandBuffer,
    laser_resource: &LaserResource,
    fire_position: Position,
)
    requires
        laser_resource.wf(),
        -COORD_MAX + TUNING_MAX <= fire_position.x <= COORD_MAX,
        -COORD_MAX <= fire_position.y <= COORD_MAX,
    ensures
        final(commands).laser_spawns@.len() == old(commands).laser_spawns@.len() + 1,
        final(commands).laser_spawns@.drop_last() == old(commands).laser_spawns@,
        final(commands).laser_spawns@.last().laser == laser_resource.component,
        final(commands).laser_spawns@.last().position.x == fire_position.x
            - laser_resource.component.width as int / 2,
        final(commands).laser_spawns@.last().position.y == fire_position.y,
        final(commands).laser_deletes@ == old(commands).laser_deletes@,
        final(commands).life_deletes@ == old(commands).life_deletes@,
        old(commands).wf() ==> final(commands).wf(),
{
    let ghost spawns0 = commands.laser_spawns@;
    // the fire position is the middle of the laser: adjust accordingly
    let spawn_position = Position {
        x: fire_position.x - laser_resource.component.width / 2,
        y: fire_position.y,
    };
    commands.laser_spawns.push(LaserSpawn { laser: laser_resource.component, position: spawn_position });
    proof {
        assert(commands.laser_spawns@.drop_last() =~= spawns0);
    }
}

/// Initialises the player's ship at the bottom centre of the screen,
/// stationary, with its trigger ready.
pub fn initialise_ship(world: &mut World)
    requires
        old(world).wf(),
        old(world).screen.width >= SHIP_WIDTH,
    ensures
        final(world).wf(),
        final(world).ship == (Ship {
            velocity: 0,
            width: SHIP_WIDTH,
            height: SHIP_HEIGHT,
            trigger_reset_timer: 0,
        }),
        final(world).ship_position.x == old(world).screen.width / 2,
        final(world).ship_position.y == SHIP_HEIGHT / 2 + 100,
        final(world).screen == old(world).screen,
        final(world).play_state == old(world).play_state,
        final(world).initial_lives == old(world).initial_lives,
        final(world).laser_resource == old(world).laser_resource,
        final(world).asteroids@ == old(world).asteroids@,
        final(world).lasers@ == old(world).lasers@,
        final(world).life_icons@ == old(world).life_icons@,
        final(world).next_id == old(world).next_id,
{
    world.ship = Ship { velocity: 0, width: SHIP_WIDTH, height: SHIP_HEIGHT, trigger_reset_timer: 0 };
    // just above the centre bottom of the screen, so the ship is not
    // touching the screen's lower edge
    world.ship_position = Position { x: world.screen.width / 2, y: SHIP_HEIGHT / 2 + 100 };
}

/// Initialises the asteroid pool: one asteroid per draw, each placed
/// somewhere above the arena by [`locate_asteroid`].
///
/// This implements the pattern of creating a fixed number of entities and
/// re-using them to make them appear endless: it is less wasteful than
/// creating and destroying entities on the fly (the way lasers go).
pub fn initialise_asteroids(world: &mut World, config: &GameConfiguration, draws: &Vec<Draw>)
    requires
        old(world).wf(),
        config.wf(),
        forall|j: int| 0 <= j < draws.len() ==> (#[trigger] draws[j]).wf(),
    ensures
        final(world).wf(),
        final(world).asteroids@.len() == old(world).asteroids@.len() + draws.len(),
        forall|j: int|
            0 <= j < old(world).asteroids@.len() ==> #[trigger] final(world).asteroids@[j]
                == old(world).asteroids@[j],
        forall|j: int|
            old(world).asteroids@.len() <= j < final(world).asteroids@.len() ==> {
                let entity = #[trigger] final(world).asteroids@[j];
                let draw = draws@[j - old(world).asteroids@.len()];
                &&& entity.asteroid == (Asteroid {
                    velocity: config.asteroid_velocity,
                    width: ASTEROID_SIZE,
                    height: ASTEROID_SIZE,
                    is_destroyed: false,
                })
                &&& entity.position.x == spec_locate_x(entity.asteroid, old(world).screen.width as int, draw)
                &&& entity.position.y == spec_locate_y(old(world).screen.height as int, *config, draw)
                &&& entity.position.y >= old(world).screen.height
            },
        final(world).screen == old(world).screen,
        final(world).play_state == old(world).play_state,
        final(world).initial_lives == old(world).initial_lives,
        final(world).ship == old(world).ship,
        final(world).ship_position == old(world).ship_position,
        final(world).laser_resource == old(world).laser_resource,
        final(world).lasers@ == old(world).lasers@,
        final(world).life_icons@ == old(world).life_icons@,
        final(world).next_id == old(world).next_id,
{
    let asteroid = Asteroid {
        velocity: config.asteroid_velocity,
        width: ASTEROID_SIZE,
        height: ASTEROID_SIZE,
        is_destroyed: false,
    };
    let mut pool: Vec<AsteroidEntity> = Vec::new();
    let mut i: usize = 0;
    while i < draws.len()
        invariant
            0 <= i <= draws.len(),
            pool@.len() == i,
            asteroid == (Asteroid {
                velocity: config.asteroid_velocity,
                width: ASTEROID_SIZE,
                height: ASTEROID_SIZE,
                is_destroyed: false,
            }),
            config.wf(),
            world.screen.wf(),
            forall|j: int| 0 <= j < draws.len() ==> (#[trigger] draws[j]).wf(),
            forall|j: int|
                0 <= j < i ==> {
                    let entity = #[trigger] pool@[j];
                    &&& entity.asteroid == asteroid
                    &&& entity.position.x == spec_locate_x(asteroid, world.screen.width as int, draws@[j])
                    &&& entity.position.y == spec_locate_y(world.screen.height as int, *config, draws@[j])
                    &&& entity.position.y >= world.screen.height
                    &&& entity.wf()
                },
        decreases draws.len() - i,
    {
        let position = locate_asteroid(&asteroid, world.screen.width, world.screen.height, config, draws[i]);
        pool.push(AsteroidEntity { asteroid, position });
        i += 1;
    }
    world.asteroids.append(&mut pool);
}

/// Initialises the template used to instantiate a laser when fired, and
/// stores it as a resource, so the ship system can stamp new laser
/// entities without rebuilding the component every shot.
pub fn initialise_laser_resource(world: &mut World, config: &GameConfiguration) -> (r: LaserResource)
    requires
        old(world).wf(),
        config.wf(),
    ensures
        final(world).wf(),
        r.component == (Laser {
            velocity: config.laser_velocity,
            width: LASER_WIDTH,
            height: LASER_HEIGHT,
        }),
        final(world).laser_resource == Some(r),
        final(world).screen == old(world).screen,
        final(world).play_state == old(world).play_state,
        final(world).initial_lives == old(world).initial_lives,
        final(world).ship == old(world).ship,
        final(world).ship_position == old(world).ship_position,
        final(world).asteroids@ == old(world).asteroids@,
        final(world).lasers@ == old(world).lasers@,
        final(world).life_icons@ == old(world).life_icons@,
        final(world).next_id == old(world).next_id,
{
    let laser_resource = LaserResource {
        component: Laser { velocity: config.laser_velocity, width: LASER_WIDTH, height: LASER_HEIGHT },
    };
    world.laser_resource = Some(laser_resource);
    laser_resource
}

/// Initialises the life icons: one entity per life the player starts
/// with, in rank order. The count becomes the world's initial lives, so
/// it must match the lives the play state starts with.
pub fn initialise_lives(world: &mut World, count: u8)
    requires
        old(world).wf(),
        old(world).initial_lives == 0,
        old(world).life_icons@.len() == 0,
        old(world).play_state.lives == count,
        old(world).next_id + count <= u64::MAX,
    ensures
        final(world).wf(),
        final(world).initial_lives == count,
        final(world).life_icons@.len() == count,
        forall|i: int|
            0 <= i < count ==> (#[trigger] final(world).life_icons@[i]).life.life_number == i,
        final(world).next_id == old(world).next_id + count,
        final(world).screen == old(world).screen,
        final(world).play_state == old(world).play_state,
        final(world).ship == old(world).ship,
        final(world).ship_position == old(world).ship_position,
        final(world).laser_resource == old(world).laser_resource,
        final(world).asteroids@ == old(world).asteroids@,
        final(world).lasers@ == old(world).lasers@,
{
    let ghost base = world.next_id as int;
    let mut icons: Vec<LifeEntity> = Vec::new();
    let mut nid: u64 = world.next_id;
    let mut i: u8 = 0;
    while i < count
        invariant
            0 <= i <= count,
            icons@.len() == i,
            nid == base + i,
            base + count <= u64::MAX,
            forall|k: int| 0 <= k < i ==> (#[trigger] icons@[k]).life.life_number == k,
            forall|k: int| 0 <= k < i ==> (#[trigger] icons@[k]).id == base + k,
        decreases count - i,
    {
        icons.push(LifeEntity { id: nid, life: Life { life_number: i } });
        nid = nid + 1;
        i = i + 1;
    }
    world.life_icons = icons;
    world.initial_lives = count;
    world.next_id = nid;
}

/// Initialises all the entities of a fresh world: the ship, the asteroid
/// pool (one slot per draw, `ASTEROID_POOL_SIZE` of them), the laser
/// template, and one life icon per starting life.
pub fn initialise_entities(world: &mut World, config: &GameConfiguration, draws: &Vec<Draw>)
    requires
        old(world).wf(),
        config.wf(),
        old(world).screen.width >= SHIP_WIDTH,
        old(world).initial_lives == 0,
        old(world).life_icons@.len() == 0,
        old(world).asteroids@.len() == 0,
        old(world).play_state.lives == INITIAL_LIVES,
        old(world).next_id + INITIAL_LIVES <= u64::MAX,
        draws.len() == ASTEROID_POOL_SIZE,
        forall|j: int| 0 <= j < draws.len() ==> (#[trigger] draws[j]).wf(),
    ensures
        final(world).wf(),
        final(world).screen == old(world).screen,
        final(world).play_state == old(world).play_state,
        final(world).ship == (Ship {
            velocity: 0,
            width: SHIP_WIDTH,
            height: SHIP_HEIGHT,
            trigger_reset_timer: 0,
        }),
        final(world).asteroids@.len() == ASTEROID_POOL_SIZE,
        final(world).laser_resource is Some,
        final(world).initial_lives == INITIAL_LIVES,
        final(world).life_icons@.len() == INITIAL_LIVES,
        final(world).lasers@ == old(world).lasers@,
        final(world).next_id == old(world).next_id + INITIAL_LIVES,
{
    initialise_ship(world);
    initialise_asteroids(world, config, draws);
    initialise_laser_resource(world, config);
    initialise_lives(world, INITIAL_LIVES);
}

} // verus!

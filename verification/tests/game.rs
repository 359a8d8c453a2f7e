use space_shooter::bundle::GameBundle;
use space_shooter::components::{Asteroid, Laser, Position, Ship};
use space_shooter::config::GameConfiguration;
use space_shooter::resources::{add_resources, InputState, ScreenBounds};
use space_shooter::rng::Draw;
use space_shooter::state::{GameState, Trans};
use space_shooter::world::{LaserEntity, World};

const SCREEN: ScreenBounds = ScreenBounds { width: 1_024_000, height: 1_024_000 };

fn pool_draws(count: usize) -> Vec<Draw> {
    let mut draws = Vec::new();
    let mut i: i64 = 0;
    while draws.len() < count {
        draws.push(Draw { x_frac: (i * 7) % 1_000, y_frac: (i * 13) % 1_000 });
        i += 1;
    }
    draws
}

/// A fully set-up world: resources, ship, a pool of `pool` asteroids, the
/// laser template and three life icons.
fn started_world(pool: usize) -> World {
    let mut world = World::new(SCREEN);
    add_resources(&mut world);
    let config = GameConfiguration::default();
    GameState::on_start(&mut world, &config, &pool_draws(100));
    world.asteroids.truncate(pool);
    world
}

#[test]
fn setup_creates_the_whole_cast() {
    let world = started_world(100);
    assert_eq!(world.asteroids.len(), 100);
    assert_eq!(world.life_icons.len(), 3);
    assert_eq!(world.play_state.lives, 3);
    assert_eq!(world.initial_lives, 3);
    assert!(world.lasers.is_empty());
    assert!(world.laser_resource.is_some());
    assert_eq!(world.ship.width, 105_000);
    assert_eq!(world.ship_position.x, 512_000);
    // every pooled asteroid starts above the screen
    for entity in &world.asteroids {
        assert!(entity.position.y >= SCREEN.height);
        assert!(!entity.asteroid.is_destroyed);
    }
}

#[test]
fn colliding_asteroid_costs_a_life_and_respawns() {
    // ship at x=530 (width 100, height 80, y=0) against an asteroid at
    // x=520, y=50 with side 40: the ship's left edge falls within the
    // asteroid's span and its top reaches past the asteroid's bottom
    let mut world = started_world(1);
    world.ship = Ship { velocity: 0, width: 100_000, height: 80_000, trigger_reset_timer: 500 };
    world.ship_position = Position { x: 530_000, y: 0 };
    world.asteroids[0].asteroid =
        Asteroid { velocity: 0, width: 40_000, height: 40_000, is_destroyed: false };
    world.asteroids[0].position = Position { x: 520_000, y: 50_000 };

    let config = GameConfiguration::default();
    let input = InputState { axis: None, fire: None };
    GameBundle::run_tick(&mut world, &input, 0, &config, &pool_draws(1));

    assert_eq!(world.play_state.lives, 2);
    // the marked asteroid was relocated above the screen the same tick,
    // its flag cleared
    assert!(world.asteroids[0].position.y >= SCREEN.height);
    assert!(!world.asteroids[0].asteroid.is_destroyed);
    // the lives reconciliation retired the icon of rank 2
    assert_eq!(world.life_icons.len(), 2);
}

#[test]
fn lives_run_out_and_the_game_ends() {
    let mut world = started_world(1);
    world.ship = Ship { velocity: 0, width: 100_000, height: 80_000, trigger_reset_timer: 500 };
    world.ship_position = Position { x: 530_000, y: 0 };
    let config = GameConfiguration::default();
    let input = InputState { axis: None, fire: None };

    for expected_lives in [2u8, 1, 0] {
        // park the asteroid on the ship again
        world.asteroids[0].asteroid =
            Asteroid { velocity: 0, width: 40_000, height: 40_000, is_destroyed: false };
        world.asteroids[0].position = Position { x: 520_000, y: 50_000 };
        GameBundle::run_tick(&mut world, &input, 0, &config, &pool_draws(1));
        assert_eq!(world.play_state.lives, expected_lives);
        // the live icons always match min(initial lives, lives)
        assert_eq!(world.life_icons.len() as u8, expected_lives.min(world.initial_lives));
        for (rank, icon) in world.life_icons.iter().enumerate() {
            assert_eq!(icon.life.life_number as usize, rank);
        }
    }
    // one more collision: the count clamps at zero instead of underflowing
    world.asteroids[0].asteroid =
        Asteroid { velocity: 0, width: 40_000, height: 40_000, is_destroyed: false };
    world.asteroids[0].position = Position { x: 520_000, y: 50_000 };
    GameBundle::run_tick(&mut world, &input, 0, &config, &pool_draws(1));
    assert_eq!(world.play_state.lives, 0);

    assert_eq!(GameState::fixed_update(&world.play_state), Trans::Quit);
    let alive = space_shooter::resources::PlayState { lives: 1 };
    assert_eq!(GameState::fixed_update(&alive), Trans::Stay);
}

#[test]
fn firing_is_gated_by_the_trigger_timer() {
    let mut world = started_world(0);
    let config = GameConfiguration::default();
    let hold_fire = InputState { axis: None, fire: Some(true) };
    let draws = pool_draws(0);

    // the trigger starts ready: the first tick fires
    GameBundle::run_tick(&mut world, &hold_fire, 100, &config, &draws);
    assert_eq!(world.lasers.len(), 1);
    assert_eq!(world.ship.trigger_reset_timer, 500);
    // the beam leaves centred on the ship's top edge
    assert_eq!(world.lasers[0].position.x, 512_000 + 52_500 - 4_500);
    assert_eq!(world.lasers[0].position.y, 41_600 + 83_000);

    // while the timeout of 0.5 s counts down in 0.1 s ticks, holding fire
    // creates nothing
    let mut previous_y = world.lasers[0].position.y;
    for _ in 0..4 {
        GameBundle::run_tick(&mut world, &hold_fire, 100, &config, &draws);
        assert_eq!(world.lasers.len(), 1);
        // and the beam climbs strictly while it lives
        assert!(world.lasers[0].position.y > previous_y);
        previous_y = world.lasers[0].position.y;
    }

    // the fifth tick counts the timer to zero and fires exactly one more
    GameBundle::run_tick(&mut world, &hold_fire, 100, &config, &draws);
    assert_eq!(world.lasers.len(), 2);
    assert_eq!(world.ship.trigger_reset_timer, 500);
}

#[test]
fn laser_past_the_screen_top_is_deleted_that_tick() {
    let mut world = started_world(0);
    let config = GameConfiguration::default();
    let input = InputState { axis: None, fire: None };
    let draws = pool_draws(0);

    world.lasers.push(LaserEntity {
        id: world.next_id,
        laser: Laser { velocity: 60_000, width: 9_000, height: 54_000 },
        position: Position { x: 100_000, y: 1_020_000 },
    });
    world.next_id += 1;

    // 0.1 s at 60 units/s climbs 6 units: past the 1024-unit screen top
    GameBundle::run_tick(&mut world, &input, 100, &config, &draws);
    assert!(world.lasers.is_empty());
}

#[test]
fn ship_stays_between_the_walls() {
    let mut world = started_world(0);
    let config = GameConfiguration::default();
    let draws = pool_draws(0);
    let push_right = InputState { axis: Some(-1_000), fire: None };
    let mut config = config;
    config.ship_thrust = 2_000_000;

    let low = -(world.ship.width / 2);
    let high = SCREEN.width - world.ship.width / 2;
    let mut bounces = 0;
    let mut previous_velocity = world.ship.velocity;
    for _ in 0..2_000 {
        GameBundle::run_tick(&mut world, &push_right, 100, &config, &draws);
        assert!(low <= world.ship_position.x && world.ship_position.x <= high);
        if world.ship_position.x == low || world.ship_position.x == high {
            bounces += 1;
            // crossing a wall flips the velocity's sign
            if world.ship.velocity != 0 && previous_velocity != 0 {
                assert!(world.ship.velocity.signum() != previous_velocity.signum());
            }
        }
        previous_velocity = world.ship.velocity;
    }
    assert!(bounces > 0);
}

#[test]
fn pool_cardinality_survives_ten_thousand_ticks() {
    let mut world = started_world(100);
    let config = GameConfiguration::default();
    let input = InputState { axis: Some(700), fire: Some(true) };
    let draws = pool_draws(100);

    let mut previous_lives = world.play_state.lives;
    for tick in 1..=10_000u32 {
        GameBundle::run_tick(&mut world, &input, 100, &config, &draws);
        // the pool is recycled, never resized
        assert_eq!(world.asteroids.len(), 100);
        // lives only ever fall
        assert!(world.play_state.lives <= previous_lives);
        previous_lives = world.play_state.lives;
        if tick % 1_000 == 0 {
            // every asteroid sits at or above its lowest visible point
            for entity in &world.asteroids {
                assert!(entity.position.y >= -entity.asteroid.height);
            }
        }
    }
}

#[test]
fn laser_hit_destroys_beam_and_marks_asteroid_for_next_tick() {
    let mut world = started_world(1);
    let config = GameConfiguration::default();
    let input = InputState { axis: None, fire: None };
    world.ship.trigger_reset_timer = 500;
    // an asteroid well away from the ship, with a laser whose left edge
    // falls within its span
    world.asteroids[0].asteroid =
        Asteroid { velocity: 0, width: 40_000, height: 40_000, is_destroyed: false };
    world.asteroids[0].position = Position { x: 200_000, y: 100_000 };
    world.lasers.push(LaserEntity {
        id: world.next_id,
        laser: Laser { velocity: 60_000, width: 9_000, height: 54_000 },
        position: Position { x: 210_000, y: 500_000 },
    });
    world.next_id += 1;

    GameBundle::run_tick(&mut world, &input, 100, &config, &pool_draws(1));
    // the beam is gone the same tick; the asteroid keeps its flag until
    // the asteroid pass of the next tick relocates it
    assert!(world.lasers.is_empty());
    assert!(world.asteroids[0].asteroid.is_destroyed);
    assert_eq!(world.play_state.lives, 3);

    GameBundle::run_tick(&mut world, &input, 100, &config, &pool_draws(1));
    assert!(!world.asteroids[0].asteroid.is_destroyed);
    assert!(world.asteroids[0].position.y >= SCREEN.height);
}

#[test]
fn sampled_ticks_keep_the_world_sound() {
    let mut world = started_world(100);
    let config = GameConfiguration::default();
    let input = InputState { axis: Some(-400), fire: Some(true) };
    let low = -(world.ship.width / 2);
    let high = SCREEN.width - world.ship.width / 2;

    for _ in 0..200 {
        GameBundle::run_tick_with_rng(&mut world, &input, 16, &config);
        assert_eq!(world.asteroids.len(), 100);
        assert!(low <= world.ship_position.x && world.ship_position.x <= high);
        assert_eq!(
            world.life_icons.len() as u8,
            world.play_state.lives.min(world.initial_lives),
        );
        for entity in &world.asteroids {
            assert!(entity.position.y >= -entity.asteroid.height);
        }
    }
}

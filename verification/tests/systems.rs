use space_shooter::components::{Asteroid, Laser, Position, Ship};
use space_shooter::config::GameConfiguration;
use space_shooter::entities::{fire_laser, locate_asteroid};
use space_shooter::fixed::mul_milli;
use space_shooter::resources::{InputState, LaserResource, PlayState};
use space_shooter::rng::{sample_draws, Draw};
use space_shooter::systems::collision::{collides, CollisionSystem};
use space_shooter::systems::laser::LaserSystem;
use space_shooter::systems::laser_collision::LaserCollisionSystem;
use space_shooter::systems::lives::LivesSystem;
use space_shooter::systems::ship::ShipSystem;
use space_shooter::systems::ship_collision::ShipCollisionSystem;
use space_shooter::world::{AsteroidEntity, CommandBuffer, LaserEntity, LifeEntity};

fn test_ship() -> Ship {
    Ship { velocity: 0, width: 100_000, height: 80_000, trigger_reset_timer: 0 }
}

fn test_asteroid_at(x: i64, y: i64) -> AsteroidEntity {
    AsteroidEntity {
        asteroid: Asteroid { velocity: 5_000, width: 40_000, height: 40_000, is_destroyed: false },
        position: Position { x, y },
    }
}

fn test_laser_resource() -> LaserResource {
    LaserResource { component: Laser { velocity: 60_000, width: 9_000, height: 54_000 } }
}

#[test]
fn fixed_point_product_truncates_toward_zero() {
    assert_eq!(mul_milli(1_500, 500), 750);
    assert_eq!(mul_milli(-1_500, 500), -750);
    assert_eq!(mul_milli(999, 1), 0);
    assert_eq!(mul_milli(-999, 1), 0);
    assert_eq!(mul_milli(60_000, 100), 6_000);
}

#[test]
fn default_configuration_values() {
    let config = GameConfiguration::default();
    assert_eq!(config.ship_thrust, 20);
    assert_eq!(config.asteroid_velocity, 5_000);
    assert_eq!(config.laser_velocity, 60_000);
    assert_eq!(config.wait_for_first_asteroid, 2_000);
    assert_eq!(config.asteroid_density, 300);
    assert_eq!(config.trigger_reset_timeout, 500);
}

#[test]
fn collision_test_is_one_sided() {
    // a ship edge within the asteroid's span, reaching its bottom: ship
    // at x=530 (width 100, height 80, y=0), asteroid at x=520, y=50
    // (side 40): ship_left=530 is within [520, 560], ship_top=80 >=
    // asteroid_bottom=50
    assert!(collides(530_000, 630_000, 80_000, 520_000, 560_000, 50_000));
    // a ship left edge short of the asteroid's span is not detected,
    // even though the boxes overlap: the test is one-sided on purpose
    assert!(!collides(500_000, 600_000, 80_000, 520_000, 560_000, 50_000));
    // a mover that fully contains the asteroid horizontally is not
    // detected either: neither of its edges falls within the span
    assert!(!collides(400_000, 700_000, 80_000, 520_000, 560_000, 50_000));
    // too low: the mover's top does not reach the asteroid's bottom
    assert!(!collides(530_000, 630_000, 40_000, 520_000, 560_000, 50_000));
}

#[test]
fn ship_collision_decrements_lives_and_marks_asteroid() {
    let mut play_state = PlayState { lives: 3 };
    let ship = test_ship();
    let position = Position { x: 530_000, y: 0 };
    let mut asteroids = vec![test_asteroid_at(520_000, 50_000)];
    ShipCollisionSystem::run(&mut play_state, &ship, &position, &mut asteroids);
    assert_eq!(play_state.lives, 2);
    assert!(asteroids[0].asteroid.is_destroyed);
}

#[test]
fn ship_collision_misses_leave_everything_alone() {
    let mut play_state = PlayState { lives: 3 };
    let ship = test_ship();
    let position = Position { x: 500_000, y: 0 };
    // far to the right: no overlap
    let mut asteroids = vec![test_asteroid_at(800_000, 50_000)];
    ShipCollisionSystem::run(&mut play_state, &ship, &position, &mut asteroids);
    assert_eq!(play_state.lives, 3);
    assert!(!asteroids[0].asteroid.is_destroyed);
}

#[test]
fn lives_clamp_at_zero() {
    let mut play_state = PlayState { lives: 1 };
    let ship = test_ship();
    let position = Position { x: 530_000, y: 0 };
    // two overlapping asteroids against one life
    let mut asteroids = vec![test_asteroid_at(520_000, 50_000), test_asteroid_at(510_000, 40_000)];
    ShipCollisionSystem::run(&mut play_state, &ship, &position, &mut asteroids);
    assert_eq!(play_state.lives, 0);
    assert!(asteroids[0].asteroid.is_destroyed);
    assert!(asteroids[1].asteroid.is_destroyed);
}

#[test]
fn collision_system_matches_ship_collision_system() {
    let ship = test_ship();
    let position = Position { x: 530_000, y: 0 };

    let mut lives_a = PlayState { lives: 3 };
    let mut pool_a = vec![test_asteroid_at(520_000, 50_000)];
    CollisionSystem::run(&mut lives_a, &ship, &position, &mut pool_a);

    let mut lives_b = PlayState { lives: 3 };
    let mut pool_b = vec![test_asteroid_at(520_000, 50_000)];
    ShipCollisionSystem::run(&mut lives_b, &ship, &position, &mut pool_b);

    assert_eq!(lives_a.lives, lives_b.lives);
    assert_eq!(pool_a[0].asteroid.is_destroyed, pool_b[0].asteroid.is_destroyed);
}

#[test]
fn trigger_timer_gates_fire() {
    // trigger_reset_timer = 0.3 s, timeout = 0.5 s, dt = 0.1 s, fire held:
    // no laser while the timer is above zero; the tick on which the
    // countdown reaches zero fires exactly one laser and resets the timer
    let mut config = GameConfiguration::default();
    config.trigger_reset_timeout = 500;
    let mut ship = Ship { velocity: 0, width: 100_000, height: 80_000, trigger_reset_timer: 300 };
    let mut position = Position { x: 500_000, y: 40_000 };
    let input = InputState { axis: None, fire: Some(true) };
    let resource = test_laser_resource();
    let mut commands = CommandBuffer::new();

    let mut fired_on: Vec<i32> = Vec::new();
    for tick in 1..=4 {
        let before = commands.laser_spawns.len();
        ShipSystem::run(
            &mut ship,
            &mut position,
            &input,
            100,
            &config,
            1_024_000,
            &resource,
            &mut commands,
        );
        if commands.laser_spawns.len() > before {
            fired_on.push(tick);
        }
    }
    // 300 -> 200 -> 100 -> 0: the third tick is the first with the timer
    // at zero when the trigger is checked
    assert_eq!(fired_on, vec![3]);
    assert_eq!(commands.laser_spawns.len(), 1);
    assert_eq!(ship.trigger_reset_timer, 400);  // 500 reset, then one tick counted down
}

#[test]
fn fire_position_centres_the_beam() {
    let resource = test_laser_resource();
    let mut commands = CommandBuffer::new();
    fire_laser(&mut commands, &resource, Position { x: 100_000, y: 120_000 });
    assert_eq!(commands.laser_spawns.len(), 1);
    assert_eq!(commands.laser_spawns[0].position.x, 95_500);  // shifted by half the width
    assert_eq!(commands.laser_spawns[0].position.y, 120_000);
}

#[test]
fn ship_bounces_off_the_left_wall() {
    let mut ship = Ship { velocity: 600_000, width: 100_000, height: 80_000, trigger_reset_timer: 0 };
    let mut position = Position { x: 0, y: 40_000 };
    let input = InputState { axis: None, fire: None };
    let config = GameConfiguration::default();
    let resource = test_laser_resource();
    let mut commands = CommandBuffer::new();
    // positive velocity moves the ship left; 0.1 s at 600 units/s crosses
    // the wall at -width/2
    ShipSystem::run(&mut ship, &mut position, &input, 100, &config, 1_024_000, &resource, &mut commands);
    assert_eq!(position.x, -50_000);
    assert_eq!(ship.velocity, -600_000);
}

#[test]
fn ship_thrust_integrates_the_axis() {
    let mut ship = test_ship();
    let mut position = Position { x: 500_000, y: 40_000 };
    let input = InputState { axis: Some(1_000), fire: None };
    let mut config = GameConfiguration::default();
    config.ship_thrust = 2_000_000;
    let resource = test_laser_resource();
    let mut commands = CommandBuffer::new();
    // full deflection for 0.1 s at thrust 2000: velocity 200, moving the
    // ship 20 units within the same tick
    ShipSystem::run(&mut ship, &mut position, &input, 100, &config, 1_024_000, &resource, &mut commands);
    assert_eq!(ship.velocity, 200_000);
    assert_eq!(position.x, 480_000);
}

#[test]
fn placement_spawns_above_the_screen() {
    let config = GameConfiguration::default();
    let asteroid = Asteroid { velocity: 5_000, width: 43_000, height: 43_000, is_destroyed: false };
    let position = locate_asteroid(
        &asteroid,
        1_024_000,
        1_024_000,
        &config,
        Draw { x_frac: 500, y_frac: 500 },
    );
    // min_height = 1024 + 2 * 5 = 1034; band = 1024 * 5 / 0.3 = 17066.666;
    // x = 0.5 * (1024 - 43), y = 1034 + 0.5 * band
    assert_eq!(position.x, 490_500);
    assert_eq!(position.y, 9_567_333);
    assert!(position.y >= 1_024_000);
}

#[test]
fn placement_extremes_stay_in_band() {
    let config = GameConfiguration::default();
    let asteroid = Asteroid { velocity: 5_000, width: 43_000, height: 43_000, is_destroyed: false };
    let low = locate_asteroid(&asteroid, 1_024_000, 1_024_000, &config, Draw { x_frac: 0, y_frac: 0 });
    assert_eq!(low.x, 0);
    assert_eq!(low.y, 1_034_000);
    let high = locate_asteroid(
        &asteroid,
        1_024_000,
        1_024_000,
        &config,
        Draw { x_frac: 999, y_frac: 999 },
    );
    assert_eq!(high.x, 980_019);
    assert_eq!(high.y, 1_034_000 + 17_049_599);
}

#[test]
fn laser_system_moves_and_expires() {
    let config = GameConfiguration::default();
    let mut lasers = vec![
        LaserEntity {
            id: 7,
            laser: Laser { velocity: 60_000, width: 9_000, height: 54_000 },
            position: Position { x: 100_000, y: 500_000 },
        },
        LaserEntity {
            id: 8,
            laser: Laser { velocity: 60_000, width: 9_000, height: 54_000 },
            position: Position { x: 200_000, y: 1_020_000 },
        },
    ];
    let mut commands = CommandBuffer::new();
    LaserSystem::run(&mut lasers, 100, &config, 1_024_000, &mut commands);
    // both climbed by 6 units; the second passed the screen top
    assert_eq!(lasers[0].position.y, 506_000);
    assert_eq!(lasers[1].position.y, 1_026_000);
    assert_eq!(commands.laser_deletes, vec![8u64]);
}

#[test]
fn laser_collision_deletes_beam_and_marks_asteroid() {
    let lasers = vec![LaserEntity {
        id: 9,
        laser: Laser { velocity: 60_000, width: 9_000, height: 54_000 },
        position: Position { x: 530_000, y: 40_000 },
    }];
    let mut asteroids = vec![test_asteroid_at(520_000, 50_000), test_asteroid_at(900_000, 50_000)];
    let mut commands = CommandBuffer::new();
    LaserCollisionSystem::run(&lasers, &mut asteroids, &mut commands);
    assert_eq!(commands.laser_deletes, vec![9u64]);
    assert!(asteroids[0].asteroid.is_destroyed);
    assert!(!asteroids[1].asteroid.is_destroyed);
}

#[test]
fn lives_system_retires_unbacked_icons() {
    let icons = vec![
        LifeEntity { id: 1, life: space_shooter::components::Life { life_number: 0 } },
        LifeEntity { id: 2, life: space_shooter::components::Life { life_number: 1 } },
        LifeEntity { id: 3, life: space_shooter::components::Life { life_number: 2 } },
    ];
    let play_state = PlayState { lives: 1 };
    let mut commands = CommandBuffer::new();
    LivesSystem::run(&icons, &play_state, &mut commands);
    assert_eq!(commands.life_deletes, vec![2u64, 3]);
}

#[test]
fn sampled_draws_are_fractions() {
    let draws = sample_draws(32);
    assert_eq!(draws.len(), 32);
    for draw in draws {
        assert!(0 <= draw.x_frac && draw.x_frac < 1_000);
        assert!(0 <= draw.y_frac && draw.y_frac < 1_000);
    }
}

//! The set of tuning values used to balance the game after the coding is
//! complete (player thrust, asteroid speed, and so on).

use crate::fixed::TUNING_MAX;
use vstd::prelude::*;

verus! {

/// Default effect a full axis deflection has on the ship's speed.
pub const SHIP_THRUST: i64 = 20;

/// Default vertical speed of an asteroid.
pub const ASTEROID_VELOCITY: i64 = 5_000;

/// Default vertical speed of a laser beam.
pub const LASER_VELOCITY: i64 = 60_000;

/// Default wait before the first asteroid reaches the screen.
pub const WAIT_FOR_FIRST_ASTEROID: i64 = 2_000;

/// Default closeness of the falling asteroids.
pub const ASTEROID_DENSITY: i64 = 300;

/// Default wait after firing a laser before the ship may fire again.
pub const TRIGGER_RESET_TIMEOUT: i64 = 500;

/// Tuning values that control the game mechanics, all in fixed-point
/// subunits (durations in subunits of a second).
#[derive(Clone, Copy, PartialEq, Eq, Structural, Debug)]
pub struct GameConfiguration {
    /// The effect each axis deflection has on the ship's speed.
    pub ship_thrust: i64,
    /// Asteroid vertical velocity.
    pub asteroid_velocity: i64,
    /// How long to wait before the first asteroid falls.
    pub wait_for_first_asteroid: i64,
    /// How close the asteroids are together: a denser configuration
    /// spawns them in a tighter vertical band above the screen.
    pub asteroid_density: i64,
    /// Laser vertical velocity.
    pub laser_velocity: i64,
    /// How long to wait after firing before the ship may fire again.
    pub trigger_reset_timeout: i64,
}

impl GameConfiguration {
    /// Every tuning value is nonnegative and within range; the density is
    /// positive, since the spawn band divides by it.
    pub open spec fn wf(self) -> bool {
        &&& 0 <= self.ship_thrust <= TUNING_MAX
        &&& 0 <= self.asteroid_velocity <= TUNING_MAX
        &&& 0 <= self.wait_for_first_asteroid <= TUNING_MAX
        &&& 1 <= self.asteroid_density <= TUNING_MAX
        &&& 0 <= self.laser_velocity <= TUNING_MAX
        &&& 0 <= self.trigger_reset_timeout <= TUNING_MAX
    }
}

impl Default for GameConfiguration {
    /// The values the game ships with.
    fn default() -> (r: Self)
        ensures
            r.ship_thrust == SHIP_THRUST,
            r.asteroid_velocity == ASTEROID_VELOCITY,
            r.wait_for_first_asteroid == WAIT_FOR_FIRST_ASTEROID,
            r.asteroid_density == ASTEROID_DENSITY,
            r.laser_velocity == LASER_VELOCITY,
            r.trigger_reset_timeout == TRIGGER_RESET_TIMEOUT,
            r.wf(),
    {
        GameConfiguration {
            ship_thrust: SHIP_THRUST,
            asteroid_velocity: ASTEROID_VELOCITY,
            wait_for_first_asteroid: WAIT_FOR_FIRST_ASTEROID,
            asteroid_density: ASTEROID_DENSITY,
            laser_velocity: LASER_VELOCITY,
            trigger_reset_timeout: TRIGGER_RESET_TIMEOUT,
        }
    }
}

} // verus!

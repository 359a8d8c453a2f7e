//! Components of the game: plain data records attached to entities.

use crate::fixed::{COORD_MAX, DT_MAX, SHIP_SPEED_MAX, TUNING_MAX};
use vstd::prelude::*;

verus! {

/// A 2D coordinate in fixed-point subunits, mutated every tick by the
/// movement system that owns the entity.
#[derive(Clone, Copy, PartialEq, Eq, Structural, Debug)]
pub struct Position {
    pub x: i64,
    pub y: i64,
}

impl Position {
    /// Both coordinates are within the range the store accepts.
    pub open spec fn wf(self) -> bool {
        &&& -COORD_MAX <= self.x <= COORD_MAX
        &&& -COORD_MAX <= self.y <= COORD_MAX
    }
}

/// The player's space ship (a singleton: exactly one exists per world).
#[derive(Clone, Copy, PartialEq, Eq, Structural, Debug)]
pub struct Ship {
    /// Current signed horizontal speed of the ship.
    pub velocity: i64,
    /// The width of the ship sprite.
    pub width: i64,
    /// The height of the ship sprite.
    pub height: i64,
    /// Time remaining before the laser may fire again.
    pub trigger_reset_timer: i64,
}

impl Ship {
    pub open spec fn wf(self) -> bool {
        &&& 0 <= self.width <= TUNING_MAX
        &&& 0 <= self.height <= TUNING_MAX
        &&& -SHIP_SPEED_MAX <= self.velocity <= SHIP_SPEED_MAX
        &&& -DT_MAX <= self.trigger_reset_timer <= TUNING_MAX
    }
}

/// A falling asteroid. Asteroids form a fixed pool: they are never
/// deleted; destruction flips `is_destroyed` and the asteroid system
/// relocates them above the screen.
#[derive(Clone, Copy, PartialEq, Eq, Structural, Debug)]
pub struct Asteroid {
    /// How fast the asteroid is falling.
    pub velocity: i64,
    /// The width of the asteroid.
    pub width: i64,
    /// The height of the asteroid.
    pub height: i64,
    /// Whether the asteroid was destroyed and waits for relocation.
    pub is_destroyed: bool,
}

impl Asteroid {
    pub open spec fn wf(self) -> bool {
        &&& 0 <= self.velocity <= TUNING_MAX
        &&& 0 <= self.width <= TUNING_MAX
        &&& 0 <= self.height <= TUNING_MAX
    }
}

/// The asteroid-destroying laser beam. Lasers are created when the ship
/// fires and destroyed when off screen or on collision.
#[derive(Clone, Copy, PartialEq, Eq, Structural, Debug)]
pub struct Laser {
    /// The upward speed of the beam.
    pub velocity: i64,
    /// The width of the beam.
    pub width: i64,
    /// The height of the beam.
    pub height: i64,
}

impl Laser {
    pub open spec fn wf(self) -> bool {
        &&& 0 <= self.velocity <= TUNING_MAX
        &&& 0 <= self.width <= TUNING_MAX
        &&& 0 <= self.height <= TUNING_MAX
    }
}

/// One life the player has, shown as an icon on the UI layer. When the
/// number of lives falls below `life_number`, the icon entity is deleted,
/// never to be recreated.
#[derive(Clone, Copy, PartialEq, Eq, Structural, Debug)]
pub struct Life {
    /// The 0-based rank of the life this icon represents.
    pub life_number: u8,
}

/// Marker component of the star-field background entity. The background
/// never moves and takes part in no system; the marker only tags the
/// entity for the presentation layer.
#[derive(Clone, Copy, PartialEq, Eq, Structural, Debug)]
pub struct Background;

} // verus!

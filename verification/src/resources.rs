//! Resources: data global to the game, as opposed to per-entity
//! components. The play state carries the lives left; the laser resource
//! is the template stamped onto a newly fired laser; the input state and
//! the screen bounds are handed in by the enclosing driver each tick.

use crate::components::Laser;
use crate::fixed::{MILLI, TUNING_MAX};
use crate::world::World;
use vstd::prelude::*;

verus! {

/// How many lives a game starts with.
pub const INITIAL_LIVES: u8 = 3;

/// The play state of the game: how many lives the player has left.
/// Only the collision systems write it (decrement, clamped at zero); the
/// lives system and the game-over check read it.
#[derive(Clone, Copy, PartialEq, Eq, Structural, Debug)]
pub struct PlayState {
    /// Number of lives the player has currently.
    pub lives: u8,
}

/// The template for creating a laser entity, set once at world setup and
/// read-only thereafter. Keeping it as a resource saves the fire system
/// from rebuilding the component every shot.
#[derive(Clone, Copy, PartialEq, Eq, Structural, Debug)]
pub struct LaserResource {
    /// The component stamped onto a newly created laser entity.
    pub component: Laser,
}

impl LaserResource {
    pub open spec fn wf(self) -> bool {
        self.component.wf()
    }
}

/// The abstract input signals the core consumes for one tick: an optional
/// horizontal axis value and an optional fire action. An absent signal is
/// "no input this tick", not a fault.
#[derive(Clone, Copy, PartialEq, Eq, Structural, Debug)]
pub struct InputState {
    /// Axis deflection in fixed point: one full unit either way.
    pub axis: Option<i64>,
    /// Whether the fire action is pressed.
    pub fire: Option<bool>,
}

impl InputState {
    /// A present axis value lies within one unit of centre.
    pub open spec fn wf(self) -> bool {
        match self.axis {
            Some(m) => -MILLI <= m <= MILLI,
            None => true,
        }
    }
}

/// The dimensions of the visible screen, in fixed-point subunits.
#[derive(Clone, Copy, PartialEq, Eq, Structural, Debug)]
pub struct ScreenBounds {
    pub width: i64,
    pub height: i64,
}

impl ScreenBounds {
    pub open spec fn wf(self) -> bool {
        &&& 0 <= self.width <= TUNING_MAX
        &&& 0 <= self.height <= TUNING_MAX
    }
}

/// Adds the resources needed at the start to the world: the play state,
/// with the lives a game starts with. (The laser template is not added
/// here, but when the laser entities are set up.)
pub fn add_resources(world: &mut World)
    requires
        old(world).wf(),
        old(world).initial_lives == 0,
        old(world).life_icons@.len() == 0,
    ensures
        final(world).wf(),
        final(world).play_state.lives == INITIAL_LIVES,
        final(world).screen == old(world).screen,
        final(world).initial_lives == old(world).initial_lives,
        final(world).ship == old(world).ship,
        final(world).ship_position == old(world).ship_position,
        final(world).laser_resource == old(world).laser_resource,
        final(world).asteroids@ == old(world).asteroids@,
        final(world).lasers@ == old(world).lasers@,
        final(world).life_icons@ == old(world).life_icons@,
        final(world).next_id == old(world).next_id,
{
    world.play_state = PlayState { lives: INITIAL_LIVES };
}

} // verus!

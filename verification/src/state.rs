//! The rules on what to do at each point of the game: set everything up
//! at the start, and stop once the ship runs out of lives.

use crate::config::GameConfiguration;
use crate::entities::{initialise_entities, ASTEROID_POOL_SIZE, SHIP_WIDTH};
use crate::resources::{add_resources, PlayState, INITIAL_LIVES};
use crate::rng::Draw;
use crate::world::World;
use vstd::prelude::*;

verus! {

/// What the enclosing driver should do after a state callback: keep the
/// simulation running, or quit.
#[derive(Clone, Copy, PartialEq, Eq, Structural, Debug)]
pub enum Trans {
    /// Keep running.
    Stay,
    /// Stop the game.
    Quit,
}

/// The top of the game: starting it, and deciding when it ends.
///
/// The driver is expected to call [`GameState::on_start`] once on a fresh
/// world, run one tick of [`crate::bundle::GameBundle`] per fixed
/// timestep, and stop when [`GameState::fixed_update`] says so; the core
/// never halts on its own.
pub struct GameState;

impl GameState {
    /// Sets a fresh world up: the starting resources, then all the
    /// entities.
    pub fn on_start(world: &mut World, config: &GameConfiguration, draws: &Vec<Draw>)
        requires
            old(world).wf(),
            config.wf(),
            old(world).screen.width >= SHIP_WIDTH,
            old(world).initial_lives == 0,
            old(world).life_icons@.len() == 0,
            old(world).asteroids@.len() == 0,
            old(world).next_id + INITIAL_LIVES <= u64::MAX,
            draws.len() == ASTEROID_POOL_SIZE,
            forall|j: int| 0 <= j < draws.len() ==> (#[trigger] draws[j]).wf(),
        ensures
            final(world).wf(),
            final(world).screen == old(world).screen,
            final(world).play_state.lives == INITIAL_LIVES,
            final(world).initial_lives == INITIAL_LIVES,
            final(world).asteroids@.len() == ASTEROID_POOL_SIZE,
            final(world).life_icons@.len() == INITIAL_LIVES,
            final(world).lasers@ == old(world).lasers@,
            final(world).laser_resource is Some,
    {
        add_resources(world);
        initialise_entities(world, config, draws);
    }

    /// The per-tick check the driver makes: stop the game once the ship
    /// has run out of lives.
    pub fn fixed_update(play_state: &PlayState) -> (r: Trans)
        ensures
            r == (if play_state.lives == 0 {
                Trans::Quit
            } else {
                Trans::Stay
            }),
    {
        if play_state.lives == 0 {
            Trans::Quit
        } else {
            Trans::Stay
        }
    }
}

} // verus!

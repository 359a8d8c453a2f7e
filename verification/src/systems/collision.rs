//! The collision test shared by the collision systems, and the
//! ship-against-asteroid collision pass under its second name.

use crate::components::{Position, Ship};
use crate::resources::PlayState;
use crate::systems::ship_collision;
use crate::systems::ship_collision::ShipCollisionSystem;
use crate::world::AsteroidEntity;
use vstd::prelude::*;

verus! {

/// The collision test between a mover (the ship or a laser) and an
/// asteroid, given the edges of the two bounding boxes.
///
/// The test is deliberately one-sided, not full box intersection: it asks
/// whether one horizontal edge of the mover falls within the asteroid's
/// horizontal span (not full interval overlap), and whether the mover's
/// top reaches the asteroid's bottom (no upper vertical bound). The game
/// plays by this simplified test, so it is preserved exactly.
pub open spec fn spec_collides(
    mover_left: int,
    mover_right: int,
    mover_top: int,
    asteroid_left: int,
    asteroid_right: int,
    asteroid_bottom: int,
) -> bool {
    &&& {
        ||| (mover_left <= asteroid_right && mover_left >= asteroid_left)
        ||| (mover_right <= asteroid_left && mover_right >= asteroid_right)
    }
    &&& mover_top >= asteroid_bottom
}

/// Whether the ship at `position` overlaps the asteroid, by the game's
/// one-sided test.
pub open spec fn spec_ship_hits(ship: Ship, position: Position, entity: AsteroidEntity) -> bool {
    spec_collides(
        position.x as int,
        position.x + ship.width,
        position.y + ship.height,
        entity.position.x as int,
        entity.position.x + entity.asteroid.width,
        entity.position.y as int,
    )
}

/// Executable form of [`spec_collides`].
pub fn collides(
    mover_left: i64,
    mover_right: i64,
    mover_top: i64,
    asteroid_left: i64,
    asteroid_right: i64,
    asteroid_bottom: i64,
) -> (r: bool)
    ensures
        r == spec_collides(
            mover_left as int,
            mover_right as int,
            mover_top as int,
            asteroid_left as int,
            asteroid_right as int,
            asteroid_bottom as int,
        ),
{
    ((mover_left <= asteroid_right && mover_left >= asteroid_left) || (mover_right
        <= asteroid_left && mover_right >= asteroid_right)) && mover_top >= asteroid_bottom
}

/// The ship-against-asteroid collision pass under its second name: some
/// callers know the system as plain `CollisionSystem`. It runs the same
/// pass as [`ShipCollisionSystem`](crate::systems::ship_collision::ShipCollisionSystem).
pub struct CollisionSystem;

impl CollisionSystem {
    /// Runs a pass of the system: see [`ShipCollisionSystem::run`].
    pub fn run(
        play_state: &mut PlayState,
        ship: &Ship,
        ship_position: &Position,
        asteroids: &mut Vec<AsteroidEntity>,
    )
        requires
            ship.wf(),
            ship_position.wf(),
            forall|i: int| 0 <= i < old(asteroids).len() ==> (#[trigger] old(asteroids)[i]).wf(),
        ensures
            final(asteroids)@.len() == old(asteroids)@.len(),
            forall|i: int|
                0 <= i < old(asteroids)@.len() ==> (#[trigger] final(asteroids)@[i]) == ship_collision::spec_marked(
                    old(asteroids)@[i],
                    spec_ship_hits(*ship, *ship_position, old(asteroids)@[i]),
                ),
            final(play_state).lives == ship_collision::spec_lives_after(
                old(play_state).lives as int,
                ship_collision::spec_hit_count(*ship, *ship_position, old(asteroids)@),
            ),
            final(play_state).lives <= old(play_state).lives,
    {
        ShipCollisionSystem::run(play_state, ship, ship_position, asteroids)
    }
}

} // verus!

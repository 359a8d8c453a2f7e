//! Moves the ship and fires lasers based on the player's input.
//!
//! The system implements thrust-based movement: an axis deflection
//! applies thrust to the ship's velocity rather than setting a position.
//! The ship bounces off either side of the screen as if they were walls.

use crate::components::{Laser, Position, Ship};
use crate::config::GameConfiguration;
use crate::entities::fire_laser;
use crate::fixed::{fx_mul, lemma_fx_div_bounds, mul_milli, spec_clamp_speed, DT_MAX, MILLI,
    SHIP_SPEED_MAX, TUNING_MAX};
use crate::resources::{InputState, LaserResource};
use crate::world::CommandBuffer;
use vstd::prelude::*;

verus! {

/// The trigger timer after its per-tick countdown: a running timer loses
/// the elapsed time (it may go below zero; it is not clamped), an expired
/// one stays where it was.
pub open spec fn spec_timer_countdown(timer: int, delta: int) -> int {
    if timer > 0 {
        timer - delta
    } else {
        timer
    }
}

/// Whether the ship fires this tick: the fire action is pressed and the
/// counted-down trigger timer has reached zero.
pub open spec fn spec_ship_fired(ship: Ship, input: InputState, delta: int) -> bool {
    input.fire == Some(true) && spec_timer_countdown(ship.trigger_reset_timer as int, delta) <= 0
}

/// The trigger timer at the end of the tick: reset to the configured
/// timeout on fire, otherwise just counted down.
pub open spec fn spec_timer_final(
    ship: Ship,
    input: InputState,
    delta: int,
    config: GameConfiguration,
) -> int {
    if spec_ship_fired(ship, input, delta) {
        config.trigger_reset_timeout as int
    } else {
        spec_timer_countdown(ship.trigger_reset_timer as int, delta)
    }
}

/// The ship's velocity after the axis deflection is integrated as thrust
/// (saturating at the speed bound); an absent axis is a no-op.
pub open spec fn spec_velocity_thrust(
    ship: Ship,
    input: InputState,
    delta: int,
    config: GameConfiguration,
) -> int {
    match input.axis {
        Some(movement) => spec_clamp_speed(
            ship.velocity + fx_mul(fx_mul(movement as int, delta), config.ship_thrust as int),
        ),
        None => ship.velocity as int,
    }
}

/// Where the ship's position integration puts it, before the walls.
pub open spec fn spec_ship_moved_x(
    ship: Ship,
    position: Position,
    input: InputState,
    delta: int,
    config: GameConfiguration,
) -> int {
    position.x - fx_mul(spec_velocity_thrust(ship, input, delta, config), delta)
}

/// The left wall: half the ship may hang over the screen edge.
pub open spec fn spec_wall_low(ship: Ship) -> int {
    -(ship.width as int / 2)
}

/// The right wall, symmetric to the left one.
pub open spec fn spec_wall_high(ship: Ship, arena_width: int) -> int {
    arena_width - ship.width as int / 2
}

/// Whether the tick's movement reaches a wall (and so flips the
/// velocity's sign).
pub open spec fn spec_ship_bounces(
    ship: Ship,
    position: Position,
    input: InputState,
    delta: int,
    config: GameConfiguration,
    arena_width: int,
) -> bool {
    let moved = spec_ship_moved_x(ship, position, input, delta, config);
    moved <= spec_wall_low(ship) || moved >= spec_wall_high(ship, arena_width)
}

/// The ship's horizontal position at the end of the tick: the integrated
/// position, clamped to the walls.
pub open spec fn spec_ship_x_final(
    ship: Ship,
    position: Position,
    input: InputState,
    delta: int,
    config: GameConfiguration,
    arena_width: int,
) -> int {
    let moved = spec_ship_moved_x(ship, position, input, delta, config);
    if moved <= spec_wall_low(ship) {
        spec_wall_low(ship)
    } else if moved >= spec_wall_high(ship, arena_width) {
        spec_wall_high(ship, arena_width)
    } else {
        moved
    }
}

/// The ship's velocity at the end of the tick: the thrust-integrated
/// velocity, its sign flipped when the ship bounced off a wall.
pub open spec fn spec_ship_velocity_final(
    ship: Ship,
    position: Position,
    input: InputState,
    delta: int,
    config: GameConfiguration,
    arena_width: int,
) -> int {
    let v = spec_velocity_thrust(ship, input, delta, config);
    if spec_ship_bounces(ship, position, input, delta, config, arena_width) {
        -v
    } else {
        v
    }
}

/// The horizontal middle of a laser fired this tick: the ship's centre.
pub open spec fn spec_fire_x(ship: Ship, position: Position) -> int {
    position.x + ship.width as int / 2
}

/// The vertical position of a laser fired this tick: the ship's top edge.
pub open spec fn spec_fire_y(ship: Ship, position: Position) -> int {
    position.y + ship.height
}

/// Moves the ship and fires lasers based on the player's input.
pub struct ShipSystem;

impl ShipSystem {
    /// Runs a pass of the system on the singleton ship.
    ///
    /// The pass counts the trigger timer down; fires (queues a laser
    /// creation and resets the timer) when the fire action is pressed and
    /// the timer has run out; integrates the axis deflection into the
    /// velocity as thrust; integrates the velocity into the position; and
    /// bounces the ship off the walls, flipping the velocity's sign.
    pub fn run(
        ship: &mut Ship,
        position: &mut Position,
        input: &InputState,
        delta: i64,
        config: &GameConfiguration,
        arena_width: i64,
        laser_resource: &LaserResource,
        commands: &mut CommandBuffer,
    )
        requires
            old(ship).wf(),
            old(position).wf(),
            input.wf(),
            0 <= delta <= DT_MAX,
            config.wf(),
            0 <= arena_width <= TUNING_MAX,
            old(ship).width <= arena_width,
            spec_wall_low(*old(ship)) <= old(position).x,
            old(position).x <= spec_wall_high(*old(ship), arena_width as int),
            0 <= old(position).y <= TUNING_MAX,
            laser_resource.wf(),
        ensures
            final(ship).width == old(ship).width,
            final(ship).height == old(ship).height,
            final(ship).trigger_reset_timer == spec_timer_final(*old(ship), *input, delta as int, *config),
            final(ship).velocity == spec_ship_velocity_final(
                *old(ship), *old(position), *input, delta as int, *config, arena_width as int),
            final(position).x == spec_ship_x_final(
                *old(ship), *old(position), *input, delta as int, *config, arena_width as int),
            final(position).y == old(position).y,
            final(ship).wf(),
            final(position).wf(),
            spec_wall_low(*old(ship)) <= final(position).x,
            final(position).x <= spec_wall_high(*old(ship), arena_width as int),
            spec_ship_fired(*old(ship), *input, delta as int) ==> {
                &&& final(commands).laser_spawns@.len() == old(commands).laser_spawns@.len() + 1
                &&& final(commands).laser_spawns@.drop_last() == old(commands).laser_spawns@
                &&& final(commands).laser_spawns@.last().laser == laser_resource.component
                &&& final(commands).laser_spawns@.last().position.x == spec_fire_x(*old(ship), *old(position))
                    - laser_resource.component.width as int / 2
                &&& final(commands).laser_spawns@.last().position.y == spec_fire_y(*old(ship), *old(position))
            },
            !spec_ship_fired(*old(ship), *input, delta as int)
                ==> final(commands).laser_spawns@ == old(commands).laser_spawns@,
            final(commands).laser_deletes@ == old(commands).laser_deletes@,
            final(commands).life_deletes@ == old(commands).life_deletes@,
            old(commands).wf() ==> final(commands).wf(),
    {
        // count down on the amount of time before we can fire again
        if ship.trigger_reset_timer > 0 {
            ship.trigger_reset_timer = ship.trigger_reset_timer - delta;
        }

        // if the fire action is down and sufficient time has passed since
        // the last shot, fire from the middle top of the ship
        match input.fire {
            Some(action) => {
                if action && ship.trigger_reset_timer <= 0 {
                    let fire_position = Position {
                        x: position.x + ship.width / 2,
                        y: position.y + ship.height,
                    };
                    fire_laser(commands, laser_resource, fire_position);
                    // the trigger stays reset until the timeout elapses
                    ship.trigger_reset_timer = config.trigger_reset_timeout;
                }
            },
            None => {},
        }

        // if the axis is off centre, apply thrust to the velocity
        match input.axis {
            Some(movement) => {
                proof {
                    assert(-MILLI * DT_MAX <= movement * delta <= MILLI * DT_MAX)
                        by (nonlinear_arith)
                        requires -MILLI <= movement <= MILLI && 0 <= delta <= DT_MAX;
                }
                let scaled = mul_milli(movement, delta);
                proof {
                    lemma_fx_div_bounds(movement * delta, MILLI as int);
                    assert(-MILLI * DT_MAX * TUNING_MAX <= scaled * config.ship_thrust
                        <= MILLI * DT_MAX * TUNING_MAX) by (nonlinear_arith)
                        requires
                            -MILLI * DT_MAX <= scaled <= MILLI * DT_MAX
                                && 0 <= config.ship_thrust <= TUNING_MAX;
                }
                let thrust = mul_milli(scaled, config.ship_thrust);
                proof {
                    lemma_fx_div_bounds(scaled * config.ship_thrust, MILLI as int);
                }
                let pushed = ship.velocity + thrust;
                ship.velocity = if pushed > SHIP_SPEED_MAX {
                    SHIP_SPEED_MAX
                } else if pushed < -SHIP_SPEED_MAX {
                    -SHIP_SPEED_MAX
                } else {
                    pushed
                };
            },
            None => {},
        }

        // move the ship according to its velocity
        proof {
            assert(i64::MIN <= ship.velocity * delta <= i64::MAX) by (nonlinear_arith)
                requires
                    -SHIP_SPEED_MAX <= ship.velocity <= SHIP_SPEED_MAX && 0 <= delta <= DT_MAX;
        }
        let step = mul_milli(ship.velocity, delta);
        proof {
            lemma_fx_div_bounds(ship.velocity * delta, MILLI as int);
        }
        let moved = position.x - step;

        // make sure the ship stays on the screen, bouncing off the walls
        let wall_low = -(ship.width / 2);
        let wall_high = arena_width - ship.width / 2;
        if moved <= wall_low {
            position.x = wall_low;
            ship.velocity = -ship.velocity;  // bounce off the left wall
        } else if moved >= wall_high {
            position.x = wall_high;
            ship.velocity = -ship.velocity;  // bounce off the right wall
        } else {
            position.x = moved;
        }
    }
}

} // verus!

//! Per-tick simulation core of a 2D arcade shooter.
//!
//! The crate advances entity state (positions, velocities, cooldowns, life
//! count) one fixed timestep at a time, detects collisions, and manages the
//! entity lifecycle: a recycled pool for asteroids, create/destroy for
//! lasers, and one-way destruction for the life icons of the UI layer.
//!
//! All physical quantities are fixed-point integers: one world unit is
//! [`fixed::MILLI`] subunits (see the `fixed` module).

pub mod bundle;
pub mod components;
pub mod config;
pub mod entities;
pub mod fixed;
pub mod resources;
pub mod rng;
pub mod state;
pub mod systems;
pub mod world;

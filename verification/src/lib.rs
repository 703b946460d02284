//! Per-tick character physics for a side-view platformer, over the integers.
//!
//! One tick runs three stages in a fixed order: the jump state machine, the
//! integration of gravity and jump velocity, and the resolution of collisions
//! against static boxes. Every quantity is an integer: lengths are counted in
//! position units, time in clock ticks, and rates in position units per clock
//! tick and per unit of time scale, so that a product `rate * dt * time_scale`
//! is a length without rounding. The host chooses how fine the units are.

pub mod character;
pub mod collision_resolver;
pub mod config;
pub mod geometry;
pub mod input;
pub mod jump_controller;
pub mod physics_integrator;
pub mod simulation;
pub mod theorems;
pub mod timestep;

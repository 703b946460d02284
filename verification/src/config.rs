//! The constants of a simulation.

use vstd::prelude::*;

verus! {

/// The constants that the host supplies at startup. A simulation reads them on
/// every tick and never changes them.
#[derive(Clone, Copy, Debug, PartialEq, Eq, Structural)]
pub struct SimulationConfig {
    /// Downward rate of fall, in position units per clock tick and unit of
    /// time scale.
    pub gravity: i64,
    /// Multiplier applied to every timestep.
    pub time_scale: i64,
    /// Upward rate of an ascending character, in the units of `gravity`.
    pub jump_impulse_velocity: i64,
    /// How long a jump drives the character upward, in clock ticks.
    pub jump_window: u64,
    /// Horizontal distance covered in one tick while a direction is held.
    pub walk_speed: i64,
}

/// The constants of a simulation, over the integers.
pub struct ConfigModel {
    pub gravity: int,
    pub time_scale: int,
    pub jump_impulse_velocity: int,
    pub jump_window: int,
    pub walk_speed: int,
}

impl View for SimulationConfig {
    type V = ConfigModel;

    open spec fn view(&self) -> ConfigModel {
        ConfigModel {
            gravity: self.gravity as int,
            time_scale: self.time_scale as int,
            jump_impulse_velocity: self.jump_impulse_velocity as int,
            jump_window: self.jump_window as int,
            walk_speed: self.walk_speed as int,
        }
    }
}

impl SimulationConfig {
    /// The configuration with the given constants.
    pub fn new(
        gravity: i64,
        time_scale: i64,
        jump_impulse_velocity: i64,
        jump_window: u64,
        walk_speed: i64,
    ) -> (r: SimulationConfig)
        ensures
            r.gravity == gravity,
            r.time_scale == time_scale,
            r.jump_impulse_velocity == jump_impulse_velocity,
            r.jump_window == jump_window,
            r.walk_speed == walk_speed,
    {
        SimulationConfig { gravity, time_scale, jump_impulse_velocity, jump_window, walk_speed }
    }
}

} // verus!

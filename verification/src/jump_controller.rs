//! The jump state machine.
//!
//! A character is either ascending (`is_jumping`) or not. It starts to ascend
//! when the jump key goes down while it is grounded, and it stops once the
//! jump has lasted as long as the jump window.

use vstd::prelude::*;
use crate::character::{Character, CharacterModel};
use crate::config::{ConfigModel, SimulationConfig};
use crate::input::InputState;
use crate::timestep::{clamp_timestep, effective_dt};

verus! {

/// A new jump starts on this tick: the jump key has just gone down, the
/// character was grounded when collisions were last resolved, and it is not
/// ascending already.
pub open spec fn jump_starts(c: CharacterModel, input: InputState) -> bool {
    input.jump_just_pressed && c.grounded && !c.is_jumping
}

/// What the jump clock shows before this tick's time is added: zero where a
/// new jump starts, else what it showed before.
pub open spec fn jump_clock(c: CharacterModel, input: InputState) -> int {
    if jump_starts(c, input) {
        0
    } else {
        c.jump_elapsed
    }
}

/// The character after the jump state machine has run for a tick of `dt`.
///
/// A character that ascends, or starts to, adds the tick's time to its jump
/// clock. While the clock stays below the jump window it keeps ascending at the
/// jump impulse velocity. On the tick that brings the clock to the window or
/// beyond it stops ascending, and its velocity for that one tick is the
/// impulse reversed, which cuts the jump short. A character that neither
/// ascends nor starts to has no vertical velocity, and its clock rests.
pub open spec fn after_jump(c: CharacterModel, input: InputState, dt: int, cfg: ConfigModel)
    -> CharacterModel {
    if c.is_jumping || jump_starts(c, input) {
        let elapsed = jump_clock(c, input) + effective_dt(dt);
        if elapsed < cfg.jump_window {
            CharacterModel {
                is_jumping: true,
                jump_elapsed: elapsed,
                velocity: cfg.jump_impulse_velocity,
                ..c
            }
        } else {
            CharacterModel {
                is_jumping: false,
                jump_elapsed: elapsed,
                velocity: -cfg.jump_impulse_velocity,
                ..c
            }
        }
    } else {
        CharacterModel { velocity: 0, ..c }
    }
}

/// Whether the jump state machine can run on this tick: whether the jump
/// clock and the velocity that it would set fit their 64-bit fields.
pub fn jump_fits(character: &Character, input: InputState, dt: i64, config: &SimulationConfig)
    -> (b: bool)
    ensures
        b == after_jump(character@, input, dt as int, config@).representable(),
{
    let starts = input.jump_just_pressed && character.grounded && !character.is_jumping;
    if character.is_jumping || starts {
        let clock: u64 = if starts {
            0
        } else {
            character.jump_elapsed
        };
        let t: i64 = clamp_timestep(dt);
        match clock.checked_add(t as u64) {
            None => false,
            Some(elapsed) => elapsed < config.jump_window || config.jump_impulse_velocity
                > i64::MIN,
        }
    } else {
        true
    }
}

/// Runs the jump state machine for one tick.
///
/// A jump starts only when `jump_just_pressed` meets a grounded character that
/// is not ascending; the clock then restarts from zero. A request in mid-air or
/// during an ascent changes nothing. An ascending character adds `dt` to its
/// clock, a negative `dt` taken as zero, and ascends at
/// `jump_impulse_velocity` until the clock reaches `jump_window`; on that tick
/// `is_jumping` falls and the velocity is the impulse reversed. Otherwise the
/// velocity is zero. Position, size and `grounded` are left alone.
pub fn update_jump(
    character: &mut Character,
    input: InputState,
    dt: i64,
    config: &SimulationConfig,
)
    requires
        after_jump(old(character)@, input, dt as int, config@).representable(),
    ensures
        final(character)@ == after_jump(old(character)@, input, dt as int, config@),
{
    if input.jump_just_pressed && character.grounded && !character.is_jumping {
        character.is_jumping = true;
        character.jump_elapsed = 0;
    }
    if character.is_jumping {
        let t: i64 = clamp_timestep(dt);
        character.jump_elapsed = character.jump_elapsed + t as u64;
        if character.jump_elapsed < config.jump_window {
            character.vertical_velocity = config.jump_impulse_velocity;
        } else {
            character.is_jumping = false;
            character.vertical_velocity = -config.jump_impulse_velocity;
        }
    } else {
        character.vertical_velocity = 0;
    }
}

} // verus!

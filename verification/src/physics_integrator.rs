//! Integration of gravity, jump velocity and walking into the position.

use vstd::prelude::*;
use crate::character::{Character, CharacterModel};
use crate::config::{ConfigModel, SimulationConfig};
use crate::input::InputState;
use crate::timestep::{as_i64, clamp_timestep, effective_dt, offset_by_scaled};

verus! {

/// How far gravity pulls the character down during a tick of `dt`.
pub open spec fn gravity_step(cfg: ConfigModel, dt: int) -> int {
    cfg.gravity * effective_dt(dt) * cfg.time_scale
}

/// How far the character's vertical velocity carries it up during a tick of
/// `dt`.
pub open spec fn jump_contribution(c: CharacterModel, cfg: ConfigModel, dt: int) -> int {
    c.velocity * effective_dt(dt) * cfg.time_scale
}

/// How far the held directions carry the character to the right during one
/// tick: the walking speed for each direction held, whatever the character's
/// state. A tick with an invalid timestep moves nothing.
pub open spec fn horizontal_step(input: InputState, dt: int, cfg: ConfigModel) -> int {
    if dt < 0 {
        0
    } else {
        (if input.right {
            cfg.walk_speed
        } else {
            0
        }) - (if input.left {
            cfg.walk_speed
        } else {
            0
        })
    }
}

/// The character after integration: gravity's step is taken off its height,
/// the jump contribution is added, and the horizontal step is added to its
/// abscissa. Nothing bounds the motion.
pub open spec fn after_integration(
    c: CharacterModel,
    input: InputState,
    dt: int,
    cfg: ConfigModel,
) -> CharacterModel {
    CharacterModel {
        x: c.x + horizontal_step(input, dt, cfg),
        y: c.y - gravity_step(cfg, dt) + jump_contribution(c, cfg, dt),
        ..c
    }
}

proof fn lemma_net_rate(velocity: int, gravity: int, t: int, scale: int)
    ensures
        (velocity - gravity) * t * scale == velocity * t * scale - gravity * t * scale,
{
    assert((velocity - gravity) * t * scale == velocity * t * scale - gravity * t * scale)
        by (nonlinear_arith);
}

/// The abscissa after integration, where it is a 64-bit integer.
fn next_x(character: &Character, input: InputState, dt: i64, config: &SimulationConfig) -> (r:
    Option<i64>)
    ensures
        r == as_i64(character@.x + horizontal_step(input, dt as int, config@)),
{
    let mut step: i128 = 0;
    if dt >= 0 {
        if input.right {
            step = step + config.walk_speed as i128;
        }
        if input.left {
            step = step - config.walk_speed as i128;
        }
    }
    let x: i128 = character.position.x as i128 + step;
    if -0x8000_0000_0000_0000 <= x && x <= 0x7fff_ffff_ffff_ffff {
        Some(x as i64)
    } else {
        None
    }
}

/// The height after integration, where it is a 64-bit integer.
fn next_y(character: &Character, dt: i64, config: &SimulationConfig) -> (r: Option<i64>)
    ensures
        r == as_i64(
            character@.y - gravity_step(config@, dt as int) + jump_contribution(
                character@,
                config@,
                dt as int,
            ),
        ),
{
    let rate: i128 = character.vertical_velocity as i128 - config.gravity as i128;
    proof {
        lemma_net_rate(
            character@.velocity,
            config@.gravity,
            effective_dt(dt as int),
            config@.time_scale,
        );
    }
    offset_by_scaled(character.position.y, rate, clamp_timestep(dt), config.time_scale)
}

/// Whether the character can be integrated over this tick: whether the
/// position it would reach fits its 64-bit fields.
pub fn integration_fits(
    character: &Character,
    input: InputState,
    dt: i64,
    config: &SimulationConfig,
) -> (b: bool)
    ensures
        b == after_integration(character@, input, dt as int, config@).representable(),
{
    next_x(character, input, dt, config).is_some() && next_y(character, dt, config).is_some()
}

/// Moves the character by one tick of gravity, jump velocity and walking.
///
/// The height loses `gravity * dt * time_scale` and gains
/// `vertical_velocity * dt * time_scale`, with a negative `dt` taken as zero;
/// the abscissa gains the walking speed for `right` and loses it for `left`.
/// Nothing else changes, and nothing bounds the motion: the position reached
/// only has to fit its 64-bit fields.
pub fn integrate(
    character: &mut Character,
    input: InputState,
    dt: i64,
    config: &SimulationConfig,
)
    requires
        after_integration(old(character)@, input, dt as int, config@).representable(),
    ensures
        final(character)@ == after_integration(old(character)@, input, dt as int, config@),
{
    let x = next_x(character, input, dt, config);
    let y = next_y(character, dt, config);
    character.position.x = x.unwrap();
    character.position.y = y.unwrap();
}

} // verus!

//! The tick: jump state machine, then integration, then collisions.

use vstd::prelude::*;
use crate::character::{boxes, Character, CharacterModel, StaticCollider};
use crate::collision_resolver::{after_resolution, resolution_fits, resolve_collisions};
use crate::config::{ConfigModel, SimulationConfig};
use crate::geometry::BoxModel;
use crate::input::InputState;
use crate::jump_controller::{after_jump, jump_fits, update_jump};
use crate::physics_integrator::{after_integration, integrate, integration_fits};
use crate::timestep::effective_dt;

verus! {

/// The character after one tick of `dt`: the jump state machine runs first,
/// integration second, and collisions are resolved last, against the position
/// that integration reached. The `grounded` flag that the jump state machine
/// reads is therefore the one that the tick before has left.
pub open spec fn tick(
    c: CharacterModel,
    colliders: Seq<BoxModel>,
    input: InputState,
    dt: int,
    cfg: ConfigModel,
) -> CharacterModel {
    let jumped = after_jump(c, input, dt, cfg);
    let moved = after_integration(jumped, input, dt, cfg);
    after_resolution(moved, colliders, dt, cfg)
}

/// The tick stays within the machine integers: what each of its three stages
/// leaves fits the fields of a `Character`.
pub open spec fn tick_fits(
    c: CharacterModel,
    colliders: Seq<BoxModel>,
    input: InputState,
    dt: int,
    cfg: ConfigModel,
) -> bool {
    let jumped = after_jump(c, input, dt, cfg);
    let moved = after_integration(jumped, input, dt, cfg);
    &&& jumped.representable()
    &&& moved.representable()
    &&& after_resolution(moved, colliders, dt, cfg).representable()
}

/// What one tick is given: the player's intents and the timestep.
pub struct Frame {
    pub input: InputState,
    pub dt: int,
}

/// The character after a run of ticks, one for each frame, in order.
pub open spec fn run(
    c: CharacterModel,
    colliders: Seq<BoxModel>,
    frames: Seq<Frame>,
    cfg: ConfigModel,
) -> CharacterModel
    decreases frames.len(),
{
    if frames.len() == 0 {
        c
    } else {
        tick(
            run(c, colliders, frames.drop_last(), cfg),
            colliders,
            frames.last().input,
            frames.last().dt,
            cfg,
        )
    }
}

/// The time that a run of ticks lets pass: the sum of its timesteps, an
/// invalid one counting as zero.
pub open spec fn total_time(frames: Seq<Frame>) -> int
    decreases frames.len(),
{
    if frames.len() == 0 {
        0
    } else {
        total_time(frames.drop_last()) + effective_dt(frames.last().dt)
    }
}

/// Advances the character by one tick of `dt` clock ticks.
///
/// The three stages run in order on the character in place: `update_jump`,
/// `integrate`, `resolve_collisions`. A negative `dt` is taken as zero, and
/// such a tick moves nothing. With no colliders the character ends the tick
/// not grounded.
pub fn advance(
    character: &mut Character,
    colliders: &[StaticCollider],
    input: InputState,
    dt: i64,
    config: &SimulationConfig,
)
    requires
        tick_fits(old(character)@, boxes(colliders@), input, dt as int, config@),
    ensures
        final(character)@ == tick(
            old(character)@,
            boxes(colliders@),
            input,
            dt as int,
            config@,
        ),
{
    update_jump(character, input, dt, config);
    integrate(character, input, dt, config);
    resolve_collisions(character, colliders, dt, config);
}

/// Advances the character by one tick where the tick stays within the machine
/// integers, and says whether it did. Where it does not, the character is left
/// as it was.
pub fn try_advance(
    character: &mut Character,
    colliders: &[StaticCollider],
    input: InputState,
    dt: i64,
    config: &SimulationConfig,
) -> (done: bool)
    ensures
        done == tick_fits(old(character)@, boxes(colliders@), input, dt as int, config@),
        done ==> final(character)@ == tick(
            old(character)@,
            boxes(colliders@),
            input,
            dt as int,
            config@,
        ),
        !done ==> *final(character) == *old(character),
{
    let mut next: Character = *character;
    if !jump_fits(&next, input, dt, config) {
        return false;
    }
    update_jump(&mut next, input, dt, config);
    if !integration_fits(&next, input, dt, config) {
        return false;
    }
    integrate(&mut next, input, dt, config);
    if !resolution_fits(&next, colliders, dt, config) {
        return false;
    }
    resolve_collisions(&mut next, colliders, dt, config);
    *character = next;
    true
}

} // verus!

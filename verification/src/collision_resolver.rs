//! Detection of overlap with the static geometry, and its resolution.

use vstd::prelude::*;
use crate::character::{boxes, Character, CharacterModel, StaticCollider};
use crate::config::{ConfigModel, SimulationConfig};
use crate::geometry::{Aabb, BoxModel};
use crate::physics_integrator::gravity_step;
use crate::timestep::{as_i64, clamp_timestep, offset_by_scaled};

verus! {

/// The box overlaps at least one of the colliders.
pub open spec fn overlaps_any(b: BoxModel, colliders: Seq<BoxModel>) -> bool {
    exists|i: int| 0 <= i < colliders.len() && b.overlaps(#[trigger] colliders[i])
}

/// Collider `i` is the first, in the order of the sequence, that the box
/// overlaps.
pub open spec fn is_first_overlap(b: BoxModel, colliders: Seq<BoxModel>, i: int) -> bool {
    &&& 0 <= i < colliders.len()
    &&& b.overlaps(colliders[i])
    &&& forall|j: int| 0 <= j < i ==> !b.overlaps(#[trigger] colliders[j])
}

/// The character after collisions are resolved. Where its box overlaps a
/// collider it is grounded and is lifted by gravity's step for this tick, which
/// undoes the fall that integration applied; otherwise it is not grounded and
/// stays where it is. The flag is decided by the overlap alone, whatever it
/// was before. Only the flag and the height change.
pub open spec fn after_resolution(
    c: CharacterModel,
    colliders: Seq<BoxModel>,
    dt: int,
    cfg: ConfigModel,
) -> CharacterModel {
    if overlaps_any(c.bounds(), colliders) {
        CharacterModel { grounded: true, y: c.y + gravity_step(cfg, dt), ..c }
    } else {
        CharacterModel { grounded: false, ..c }
    }
}

/// Finds the first collider, in the order of the slice, whose box overlaps
/// `bounds`. `None` means that no collider overlaps it.
pub fn first_overlap(bounds: &Aabb, colliders: &[StaticCollider]) -> (r: Option<usize>)
    ensures
        match r {
            Some(i) => is_first_overlap(bounds@, boxes(colliders@), i as int),
            None => !overlaps_any(bounds@, boxes(colliders@)),
        },
{
    let mut i: usize = 0;
    while i < colliders.len()
        invariant
            i <= colliders.len(),
            forall|j: int| 0 <= j < i ==> !bounds@.overlaps(#[trigger] boxes(colliders@)[j]),
        decreases colliders.len() - i,
    {
        if bounds.overlaps(&colliders[i].aabb()) {
            return Some(i);
        }
        i = i + 1;
    }
    None
}

/// The height of a grounded character after its lift, where it is a 64-bit
/// integer.
fn lifted_y(character: &Character, dt: i64, config: &SimulationConfig) -> (r: Option<i64>)
    ensures
        r == as_i64(character@.y + gravity_step(config@, dt as int)),
{
    offset_by_scaled(
        character.position.y,
        config.gravity as i128,
        clamp_timestep(dt),
        config.time_scale,
    )
}

/// Whether collisions can be resolved on this tick: whether the height that
/// the character would be lifted to fits its 64-bit field.
pub fn resolution_fits(
    character: &Character,
    colliders: &[StaticCollider],
    dt: i64,
    config: &SimulationConfig,
) -> (b: bool)
    ensures
        b == after_resolution(
            character@,
            boxes(colliders@),
            dt as int,
            config@,
        ).representable(),
{
    match first_overlap(&character.aabb(), colliders) {
        Some(_) => lifted_y(character, dt, config).is_some(),
        None => true,
    }
}

/// Tests the character's box against every collider and resolves the overlap.
///
/// With an overlap the character becomes grounded and rises by
/// `gravity * dt * time_scale`, this tick's fall; it is moved once, however
/// many colliders it overlaps, and never sideways. Without one it is no longer
/// grounded. An empty slice grounds nothing.
pub fn resolve_collisions(
    character: &mut Character,
    colliders: &[StaticCollider],
    dt: i64,
    config: &SimulationConfig,
)
    requires
        after_resolution(
            old(character)@,
            boxes(colliders@),
            dt as int,
            config@,
        ).representable(),
    ensures
        final(character)@ == after_resolution(
            old(character)@,
            boxes(colliders@),
            dt as int,
            config@,
        ),
{
    match first_overlap(&character.aabb(), colliders) {
        Some(_) => {
            let y = lifted_y(character, dt, config);
            character.grounded = true;
            character.position.y = y.unwrap();
        },
        None => {
            character.grounded = false;
        },
    }
}

} // verus!

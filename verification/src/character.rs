//! The character and the static geometry it stands on.

use vstd::prelude::*;
use crate::geometry::{Aabb, BoxModel, Position, Size};

verus! {

/// The one moving body of a simulation.
#[derive(Clone, Copy, Debug, PartialEq, Eq, Structural)]
pub struct Character {
    /// Centre of the character's box.
    pub position: Position,
    /// Extent of the character's box; it never changes.
    pub size: Size,
    /// Vertical rate that the jump state machine asks for on the current tick,
    /// upward when positive.
    pub vertical_velocity: i64,
    /// The character's box overlapped a collider when collisions were last
    /// resolved.
    pub grounded: bool,
    /// The character is ascending.
    pub is_jumping: bool,
    /// Clock ticks since the current or the latest jump began.
    pub jump_elapsed: u64,
}

/// A character over the integers.
pub struct CharacterModel {
    pub x: int,
    pub y: int,
    pub width: int,
    pub height: int,
    pub velocity: int,
    pub grounded: bool,
    pub is_jumping: bool,
    pub jump_elapsed: int,
}

impl CharacterModel {
    /// The box that the character fills.
    pub open spec fn bounds(self) -> BoxModel {
        BoxModel { x: self.x, y: self.y, width: self.width, height: self.height }
    }

    /// Every quantity fits the machine integer that holds it in a `Character`.
    pub open spec fn representable(self) -> bool {
        &&& i64::MIN <= self.x <= i64::MAX
        &&& i64::MIN <= self.y <= i64::MAX
        &&& 0 <= self.width <= u64::MAX
        &&& 0 <= self.height <= u64::MAX
        &&& i64::MIN <= self.velocity <= i64::MAX
        &&& 0 <= self.jump_elapsed <= u64::MAX
    }
}

impl View for Character {
    type V = CharacterModel;

    open spec fn view(&self) -> CharacterModel {
        CharacterModel {
            x: self.position.x as int,
            y: self.position.y as int,
            width: self.size.width as int,
            height: self.size.height as int,
            velocity: self.vertical_velocity as int,
            grounded: self.grounded,
            is_jumping: self.is_jumping,
            jump_elapsed: self.jump_elapsed as int,
        }
    }
}

impl Character {
    /// The character as a simulation starts: at rest in mid-air, neither
    /// grounded nor jumping, with no jump on its clock.
    pub fn new(position: Position, size: Size) -> (c: Character)
        ensures
            c.position == position,
            c.size == size,
            c.vertical_velocity == 0,
            !c.grounded,
            !c.is_jumping,
            c.jump_elapsed == 0,
    {
        Character {
            position,
            size,
            vertical_velocity: 0,
            grounded: false,
            is_jumping: false,
            jump_elapsed: 0,
        }
    }

    /// The box that the character fills.
    pub fn aabb(&self) -> (b: Aabb)
        ensures
            b.center == self.position,
            b.size == self.size,
            b@ == self@.bounds(),
    {
        Aabb { center: self.position, size: self.size }
    }
}

/// A piece of ground or a platform. It does not move.
#[derive(Clone, Copy, Debug, PartialEq, Eq, Structural)]
pub struct StaticCollider {
    /// Centre of the collider's box.
    pub position: Position,
    /// Extent of the collider's box.
    pub size: Size,
}

impl View for StaticCollider {
    type V = BoxModel;

    open spec fn view(&self) -> BoxModel {
        BoxModel {
            x: self.position.x as int,
            y: self.position.y as int,
            width: self.size.width as int,
            height: self.size.height as int,
        }
    }
}

impl StaticCollider {
    /// The collider with the given centre and extent.
    pub fn new(position: Position, size: Size) -> (s: StaticCollider)
        ensures
            s.position == position,
            s.size == size,
    {
        StaticCollider { position, size }
    }

    /// The box that the collider fills.
    pub fn aabb(&self) -> (b: Aabb)
        ensures
            b.center == self.position,
            b.size == self.size,
            b@ == self@,
    {
        Aabb { center: self.position, size: self.size }
    }
}

/// The boxes of a level, in the order of its colliders.
pub open spec fn boxes(colliders: Seq<StaticCollider>) -> Seq<BoxModel> {
    Seq::new(colliders.len(), |i: int| colliders[i]@)
}

} // verus!

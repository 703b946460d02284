//! Points, extents and axis-aligned boxes.

use vstd::prelude::*;

verus! {

/// A point of the plane, in position units.
#[derive(Clone, Copy, Debug, PartialEq, Eq, Structural)]
pub struct Position {
    pub x: i64,
    pub y: i64,
}

/// Width and height of a box, in position units.
#[derive(Clone, Copy, Debug, PartialEq, Eq, Structural)]
pub struct Size {
    pub width: u64,
    pub height: u64,
}

/// An axis-aligned box over the integers: its centre and its extent.
///
/// The box reaches half its extent to each side of the centre. The edges are
/// kept doubled, so that they are integers whatever the parity of the extent.
pub struct BoxModel {
    pub x: int,
    pub y: int,
    pub width: int,
    pub height: int,
}

impl BoxModel {
    /// Twice the abscissa of the left edge.
    pub open spec fn left2(self) -> int {
        2 * self.x - self.width
    }

    /// Twice the abscissa of the right edge.
    pub open spec fn right2(self) -> int {
        2 * self.x + self.width
    }

    /// Twice the ordinate of the bottom edge.
    pub open spec fn bottom2(self) -> int {
        2 * self.y - self.height
    }

    /// Twice the ordinate of the top edge.
    pub open spec fn top2(self) -> int {
        2 * self.y + self.height
    }

    /// The two boxes share interior: on each axis the one starts strictly
    /// before the other ends. Boxes that only touch do not overlap.
    pub open spec fn overlaps(self, other: BoxModel) -> bool {
        &&& self.left2() < other.right2()
        &&& self.right2() > other.left2()
        &&& self.bottom2() < other.top2()
        &&& self.top2() > other.bottom2()
    }
}

/// An axis-aligned box: its centre and its extent.
#[derive(Clone, Copy, Debug, PartialEq, Eq, Structural)]
pub struct Aabb {
    pub center: Position,
    pub size: Size,
}

impl View for Aabb {
    type V = BoxModel;

    open spec fn view(&self) -> BoxModel {
        BoxModel {
            x: self.center.x as int,
            y: self.center.y as int,
            width: self.size.width as int,
            height: self.size.height as int,
        }
    }
}

impl Aabb {
    /// The box with the given centre and extent.
    pub fn new(center: Position, size: Size) -> (r: Aabb)
        ensures
            r.center == center,
            r.size == size,
    {
        Aabb { center, size }
    }

    /// Whether the two boxes share interior.
    pub fn overlaps(&self, other: &Aabb) -> (r: bool)
        ensures
            r == self@.overlaps(other@),
    {
        let a_left: i128 = 2 * (self.center.x as i128) - (self.size.width as i128);
        let a_right: i128 = 2 * (self.center.x as i128) + (self.size.width as i128);
        let a_bottom: i128 = 2 * (self.center.y as i128) - (self.size.height as i128);
        let a_top: i128 = 2 * (self.center.y as i128) + (self.size.height as i128);
        let b_left: i128 = 2 * (other.center.x as i128) - (other.size.width as i128);
        let b_right: i128 = 2 * (other.center.x as i128) + (other.size.width as i128);
        let b_bottom: i128 = 2 * (other.center.y as i128) - (other.size.height as i128);
        let b_top: i128 = 2 * (other.center.y as i128) + (other.size.height as i128);
        a_left < b_right && a_right > b_left && a_bottom < b_top && a_top > b_bottom
    }
}

} // verus!

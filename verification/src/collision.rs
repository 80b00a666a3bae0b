//! Axis-aligned collision volumes on the integer lattice. Every block
//! occupies the unit cube whose minimum corner is its absolute position.

use vstd::prelude::*;
use crate::utils::Position;

verus! {

/// Coordinate magnitude up to which box corners can be formed without
/// overflow.
pub const COLLISION_COORD_LIMIT: i64 = 0x1000_0000_0000_0000;

/// An axis-aligned box given by its minimum and maximum corner on each
/// axis.
#[derive(Clone, Copy, PartialEq, Eq, Structural, Debug)]
pub struct CollisionBox {
    pub min_x: i64,
    pub max_x: i64,
    pub min_y: i64,
    pub max_y: i64,
    pub min_z: i64,
    pub max_z: i64,
}

/// A point tested against collision volumes.
#[derive(Clone, Copy, PartialEq, Eq, Structural, Debug)]
pub struct CollisionPoint {
    pub x: i64,
    pub y: i64,
    pub z: i64,
}

impl CollisionPoint {
    pub fn new(x: i64, y: i64, z: i64) -> (r: CollisionPoint)
        ensures
            r == (CollisionPoint { x, y, z }),
    {
        CollisionPoint { x, y, z }
    }
}

/// The unit cube occupied by the block whose minimum corner is `(x, y, z)`.
pub open spec fn spec_block_box(x: i64, y: i64, z: i64) -> CollisionBox {
    CollisionBox {
        min_x: x,
        max_x: (x + 1) as i64,
        min_y: y,
        max_y: (y + 1) as i64,
        min_z: z,
        max_z: (z + 1) as i64,
    }
}

impl CollisionBox {
    /// A box of the given extents whose minimum corner is `(x, y, z)`.
    pub fn new(x: i64, y: i64, z: i64, width: i64, height: i64, depth: i64) -> (r: CollisionBox)
        requires
            x + width <= i64::MAX,
            y + height <= i64::MAX,
            z + depth <= i64::MAX,
            x + width >= i64::MIN,
            y + height >= i64::MIN,
            z + depth >= i64::MIN,
        ensures
            r == (CollisionBox {
                min_x: x,
                max_x: (x + width) as i64,
                min_y: y,
                max_y: (y + height) as i64,
                min_z: z,
                max_z: (z + depth) as i64,
            }),
    {
        CollisionBox {
            min_x: x,
            max_x: x + width,
            min_y: y,
            max_y: y + height,
            min_z: z,
            max_z: z + depth,
        }
    }

    /// The unit cube of the block at `(x, y, z)`.
    pub fn from_block_position(x: i64, y: i64, z: i64) -> (r: CollisionBox)
        requires
            -COLLISION_COORD_LIMIT <= x <= COLLISION_COORD_LIMIT,
            -COLLISION_COORD_LIMIT <= y <= COLLISION_COORD_LIMIT,
            -COLLISION_COORD_LIMIT <= z <= COLLISION_COORD_LIMIT,
        ensures
            r == spec_block_box(x, y, z),
    {
        CollisionBox {
            min_x: x,
            max_x: x + 1,
            min_y: y,
            max_y: y + 1,
            min_z: z,
            max_z: z + 1,
        }
    }

    /// The block position a unit box stands on: its minimum corner.
    pub fn to_block_position(&self) -> (r: Position)
        ensures
            r == (Position { x: self.min_x, y: self.min_y, z: self.min_z }),
    {
        Position { x: self.min_x, y: self.min_y, z: self.min_z }
    }

    /// Whether the point lies inside the box, boundary included.
    pub fn intersects_point(&self, point: &CollisionPoint) -> (r: bool)
        ensures
            r == (self.min_x <= point.x <= self.max_x && self.min_y <= point.y <= self.max_y
                && self.min_z <= point.z <= self.max_z),
    {
        point.x >= self.min_x && point.x <= self.max_x && point.y >= self.min_y
            && point.y <= self.max_y && point.z >= self.min_z && point.z <= self.max_z
    }

    /// Whether the two boxes overlap or touch on every axis.
    pub fn intersects(&self, other: &CollisionBox) -> (r: bool)
        ensures
            r == (self.min_x <= other.max_x && self.max_x >= other.min_x
                && self.min_y <= other.max_y && self.max_y >= other.min_y
                && self.min_z <= other.max_z && self.max_z >= other.min_z),
    {
        self.min_x <= other.max_x && self.max_x >= other.min_x && self.min_y <= other.max_y
            && self.max_y >= other.min_y && self.min_z <= other.max_z && self.max_z >= other.min_z
    }
}

} // verus!

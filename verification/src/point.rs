//! Positions in space, kept apart from directions.

use vstd::prelude::*;
use crate::fixed::{add_spec, sub_spec, fx_add, fx_sub};
use crate::vector::Vector3;

verus! {

/// An ordered triple of fixed-point scalars naming a position.
#[derive(Clone, Copy, Debug, PartialEq, Eq, Structural)]
pub struct Point {
    pub x: i64,
    pub y: i64,
    pub z: i64,
}

impl Point {
    /// Translation by a vector.
    pub open spec fn spec_add(self, v: Vector3) -> Point {
        Point {
            x: add_spec(self.x as int, v.x as int) as i64,
            y: add_spec(self.y as int, v.y as int) as i64,
            z: add_spec(self.z as int, v.z as int) as i64,
        }
    }

    /// The displacement from another point to this one.
    pub open spec fn spec_sub(self, o: Point) -> Vector3 {
        Vector3 {
            x: sub_spec(self.x as int, o.x as int) as i64,
            y: sub_spec(self.y as int, o.y as int) as i64,
            z: sub_spec(self.z as int, o.z as int) as i64,
        }
    }

    /// The origin.
    pub fn zero() -> (r: Point)
        ensures
            r == (Point { x: 0i64, y: 0i64, z: 0i64 }),
    {
        Point::from_one(0)
    }

    /// The point with every coordinate equal to `v`.
    pub fn from_one(v: i64) -> (r: Point)
        ensures
            r == (Point { x: v, y: v, z: v }),
    {
        Point { x: v, y: v, z: v }
    }

    /// The point with the given coordinates.
    pub fn new(x: i64, y: i64, z: i64) -> (r: Point)
        ensures
            r == (Point { x: x, y: y, z: z }),
    {
        Point { x, y, z }
    }

    /// Translation by a vector.
    pub fn add(self, v: Vector3) -> (r: Point)
        ensures
            r == self.spec_add(v),
    {
        Point { x: fx_add(self.x, v.x), y: fx_add(self.y, v.y), z: fx_add(self.z, v.z) }
    }

    /// The displacement from another point to this one.
    pub fn sub(self, o: Point) -> (r: Vector3)
        ensures
            r == self.spec_sub(o),
    {
        Vector3 { x: fx_sub(self.x, o.x), y: fx_sub(self.y, o.y), z: fx_sub(self.z, o.z) }
    }
}

} // verus!

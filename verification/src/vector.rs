//! 3D vectors over fixed-point scalars.

use vstd::prelude::*;
use crate::fixed::{
    add_spec, div_spec, mul_spec, neg_spec, sqrt_spec, sub_spec, fx_add, fx_div, fx_mul, fx_neg,
    fx_sqrt, fx_sub,
};

verus! {

/// An ordered triple of fixed-point scalars.
#[derive(Clone, Copy, Debug, PartialEq, Eq, Structural)]
pub struct Vector3 {
    pub x: i64,
    pub y: i64,
    pub z: i64,
}

impl Vector3 {
    /// Componentwise sum.
    pub open spec fn spec_add(self, o: Vector3) -> Vector3 {
        Vector3 {
            x: add_spec(self.x as int, o.x as int) as i64,
            y: add_spec(self.y as int, o.y as int) as i64,
            z: add_spec(self.z as int, o.z as int) as i64,
        }
    }

    /// Componentwise difference.
    pub open spec fn spec_sub(self, o: Vector3) -> Vector3 {
        Vector3 {
            x: sub_spec(self.x as int, o.x as int) as i64,
            y: sub_spec(self.y as int, o.y as int) as i64,
            z: sub_spec(self.z as int, o.z as int) as i64,
        }
    }

    /// Componentwise negation.
    pub open spec fn spec_neg(self) -> Vector3 {
        Vector3 {
            x: neg_spec(self.x as int) as i64,
            y: neg_spec(self.y as int) as i64,
            z: neg_spec(self.z as int) as i64,
        }
    }

    /// Multiplication by a scalar.
    pub open spec fn spec_scale(self, k: int) -> Vector3 {
        Vector3 {
            x: mul_spec(self.x as int, k) as i64,
            y: mul_spec(self.y as int, k) as i64,
            z: mul_spec(self.z as int, k) as i64,
        }
    }

    /// Dot product.
    pub open spec fn spec_dot(self, o: Vector3) -> int {
        add_spec(
            add_spec(mul_spec(self.x as int, o.x as int), mul_spec(self.y as int, o.y as int)),
            mul_spec(self.z as int, o.z as int),
        )
    }

    /// Cross product.
    pub open spec fn spec_cross(self, o: Vector3) -> Vector3 {
        Vector3 {
            x: sub_spec(mul_spec(self.y as int, o.z as int), mul_spec(self.z as int, o.y as int))
                as i64,
            y: sub_spec(mul_spec(self.z as int, o.x as int), mul_spec(self.x as int, o.z as int))
                as i64,
            z: sub_spec(mul_spec(self.x as int, o.y as int), mul_spec(self.y as int, o.x as int))
                as i64,
        }
    }

    /// Squared length.
    pub open spec fn spec_norm(self) -> int {
        self.spec_dot(self)
    }

    /// Euclidean length.
    pub open spec fn spec_length(self) -> int {
        sqrt_spec(self.spec_norm())
    }

    /// The vector scaled to unit length; the zero vector stays zero.
    pub open spec fn spec_normalize(self) -> Vector3 {
        let l = self.spec_length();
        Vector3 {
            x: div_spec(self.x as int, l) as i64,
            y: div_spec(self.y as int, l) as i64,
            z: div_spec(self.z as int, l) as i64,
        }
    }

    /// The zero vector.
    pub fn zero() -> (r: Vector3)
        ensures
            r == (Vector3 { x: 0i64, y: 0i64, z: 0i64 }),
    {
        Vector3 { x: 0, y: 0, z: 0 }
    }

    /// Componentwise sum.
    pub fn add(self, o: Vector3) -> (r: Vector3)
        ensures
            r == self.spec_add(o),
    {
        Vector3 { x: fx_add(self.x, o.x), y: fx_add(self.y, o.y), z: fx_add(self.z, o.z) }
    }

    /// Componentwise difference.
    pub fn sub(self, o: Vector3) -> (r: Vector3)
        ensures
            r == self.spec_sub(o),
    {
        Vector3 { x: fx_sub(self.x, o.x), y: fx_sub(self.y, o.y), z: fx_sub(self.z, o.z) }
    }

    /// Componentwise negation.
    pub fn neg(self) -> (r: Vector3)
        ensures
            r == self.spec_neg(),
    {
        Vector3 { x: fx_neg(self.x), y: fx_neg(self.y), z: fx_neg(self.z) }
    }

    /// Multiplication by a scalar.
    pub fn scale(self, k: i64) -> (r: Vector3)
        ensures
            r == self.spec_scale(k as int),
    {
        Vector3 { x: fx_mul(self.x, k), y: fx_mul(self.y, k), z: fx_mul(self.z, k) }
    }

    /// Dot product.
    pub fn dot(&self, o: &Vector3) -> (r: i64)
        ensures
            r as int == self.spec_dot(*o),
    {
        fx_add(fx_add(fx_mul(self.x, o.x), fx_mul(self.y, o.y)), fx_mul(self.z, o.z))
    }

    /// Cross product.
    pub fn cross(&self, o: &Vector3) -> (r: Vector3)
        ensures
            r == self.spec_cross(*o),
    {
        Vector3 {
            x: fx_sub(fx_mul(self.y, o.z), fx_mul(self.z, o.y)),
            y: fx_sub(fx_mul(self.z, o.x), fx_mul(self.x, o.z)),
            z: fx_sub(fx_mul(self.x, o.y), fx_mul(self.y, o.x)),
        }
    }

    /// Squared length.
    pub fn norm(&self) -> (r: i64)
        ensures
            r as int == self.spec_norm(),
    {
        self.dot(self)
    }

    /// Euclidean length.
    pub fn length(&self) -> (r: i64)
        ensures
            r as int == self.spec_length(),
    {
        fx_sqrt(self.norm())
    }

    /// The vector scaled to unit length; the zero vector stays zero.
    pub fn normalize(&self) -> (r: Vector3)
        ensures
            r == self.spec_normalize(),
    {
        let l = self.length();
        Vector3 { x: fx_div(self.x, l), y: fx_div(self.y, l), z: fx_div(self.z, l) }
    }
}

} // verus!

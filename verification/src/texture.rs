//! Decoded 2D pixel grids and wrapping texture lookup.
//!
//! A texture reaches the renderer as a plain decoded grid: width,
//! height, and one 8-bit RGBA pixel per cell in row-major order.
//! Lookup wraps: the effective integer coordinate of `u` on a grid of
//! width `w` is `floor(u * w) mod w`, shifted into [0, w).

use vstd::prelude::*;
use crate::color::Rgba8;
use crate::fixed::{ONE, mul_spec, fx_mul, fx_floor, fx_of_u32, mod_u32};

verus! {

/// A decoded 2D grid of 8-bit RGBA pixels, row-major.
#[derive(Clone, Debug)]
pub struct TextureData {
    pub width: u32,
    pub height: u32,
    pub pixels: Vec<Rgba8>,
}

/// The wrapped integer coordinate of a fixed-point coordinate `v` on an
/// axis of `bound` cells: `floor(v * bound) mod bound`, in [0, bound).
pub open spec fn wrap_spec(v: int, bound: int) -> int {
    (mul_spec(v, bound * (ONE as int)) / (ONE as int)) % bound
}

/// The wrapped integer coordinate along one texture axis.
pub fn wrap(v: i64, bound: u32) -> (r: u32)
    requires
        bound > 0,
    ensures
        r as int == wrap_spec(v as int, bound as int),
        r < bound,
{
    let b = fx_of_u32(bound);
    let p = fx_mul(v, b);
    let f = fx_floor(p);
    mod_u32(f, bound)
}

impl TextureData {
    /// A well-formed grid: positive extent and one pixel per cell.
    pub open spec fn wf(self) -> bool {
        &&& self.width >= 1
        &&& self.height >= 1
        &&& self.pixels@.len() == self.width as int * self.height as int
    }

    /// The pixel stored at column `x` of row `y`.
    pub open spec fn spec_pixel_at(self, x: int, y: int) -> Rgba8 {
        self.pixels@[y * self.width as int + x]
    }

    /// The pixel stored at column `x` of row `y`.
    pub fn get_pixel(&self, x: u32, y: u32) -> (r: Rgba8)
        requires
            self.wf(),
            x < self.width,
            y < self.height,
        ensures
            r == self.spec_pixel_at(x as int, y as int),
    {
        proof {
            assert((y as int) * (self.width as int) + (x as int) < (self.width as int) * (
            self.height as int)) by (nonlinear_arith)
                requires
                    (y as int) < (self.height as int),
                    (x as int) < (self.width as int),
                    0 <= y as int,
                    0 <= x as int,
            ;
        }
        let _cells = self.pixels.len();
        self.pixels[(y as usize) * (self.width as usize) + (x as usize)]
    }
}

} // verus!

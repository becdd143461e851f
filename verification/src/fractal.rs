//! The extent of the auxiliary fractal image.

use vstd::prelude::*;

verus! {

/// The raster extent of a fractal image.
#[derive(Clone, Copy, Debug, PartialEq, Eq, Structural)]
pub struct Fractal {
    pub x: u32,
    pub y: u32,
}

impl Fractal {
    /// A fractal extent with the given dimensions.
    pub fn new(self, x: u32, y: u32) -> (r: Fractal)
        ensures
            r == (Fractal { x, y }),
    {
        Fractal { x, y }
    }
}

impl Default for Fractal {
    /// The conventional 800 by 800 extent.
    fn default() -> (r: Fractal)
        ensures
            r == (Fractal { x: 800u32, y: 800u32 }),
    {
        Fractal { x: 800, y: 800 }
    }
}

} // verus!

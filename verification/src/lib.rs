//! A Whitted-style recursive ray tracer with a verified shading
//! pipeline: primary-ray generation, sphere and plane intersection,
//! Lambertian shading with shadow rays, and depth-limited recursion
//! over reflection and refraction with Fresnel mixing.
//!
//! Every scalar of the pipeline is a saturating Q16.16 fixed-point
//! number, and every executable step is pinned by its contract to a
//! mathematical model of the same arithmetic, so a rendered image is
//! a pure function of the scene.  Scene documents and texture files
//! carry floats; the unverified shell around the library converts
//! them at the boundary.

pub mod fixed;
pub mod color;
pub mod entities;
pub mod fractal;
pub mod laws;
pub mod point;
pub mod rendering;
pub mod scene;
pub mod texture;
pub mod trig;
pub mod vector;

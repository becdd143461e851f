//! The scene's inhabitants: materials, primitives and lights.

use vstd::prelude::*;
use crate::color::Color;
use crate::fixed::{
    FOUR_PI_FX, div_spec, mul_spec, fx_div, fx_mul,
};
use crate::point::Point;
use crate::rendering::TextureCoords;
use crate::texture::{TextureData, wrap, wrap_spec};
use crate::vector::Vector3;

verus! {

/// A rectangular region of the output raster.
#[derive(Clone, Copy, Debug, PartialEq, Eq, Structural)]
pub struct ViewBlock {
    pub x: u32,
    pub y: u32,
    pub width: u32,
    pub height: u32,
}

/// Either a constant color or a decoded image sampled at UV.
#[derive(Clone, Debug)]
pub enum Coloration {
    Color(Color),
    Texture(TextureData),
}

impl Coloration {
    /// A well-formed coloration: any texture is a well-formed grid.
    pub open spec fn wf(self) -> bool {
        match self {
            Coloration::Color(_) => true,
            Coloration::Texture(t) => t.wf(),
        }
    }

    /// The color at the given texture coordinates: a constant color as
    /// it stands, a texture by wrapping lookup and gamma decoding.
    pub open spec fn spec_color_at(self, coords: TextureCoords) -> Color {
        match self {
            Coloration::Color(c) => c,
            Coloration::Texture(t) => Color::spec_from_rgba(
                t.spec_pixel_at(
                    wrap_spec(coords.x as int, t.width as int),
                    wrap_spec(coords.y as int, t.height as int),
                ),
            ),
        }
    }

    /// The color at the given texture coordinates.
    pub fn color(&self, coords: &TextureCoords) -> (r: Color)
        requires
            self.wf(),
        ensures
            r == self.spec_color_at(*coords),
    {
        match self {
            Coloration::Color(c) => *c,
            Coloration::Texture(t) => {
                let tex_x = wrap(coords.x, t.width);
                let tex_y = wrap(coords.y, t.height);
                Color::from_rgba(t.get_pixel(tex_x, tex_y))
            },
        }
    }
}

/// How a surface responds to light.
#[derive(Clone, Copy, Debug, PartialEq, Eq, Structural)]
pub enum SurfaceType {
    Diffuse,
    Reflective { reflectivity: i64 },
    Refractive { index: i64, transparency: i64 },
}

/// Coloration, diffuse albedo, and surface behaviour.
#[derive(Clone, Debug)]
pub struct Material {
    pub coloration: Coloration,
    pub albedo: i64,
    pub surface: SurfaceType,
}

/// A sphere given by center, radius and material.
#[derive(Clone, Debug)]
pub struct Sphere {
    pub center: Point,
    pub radius: i64,
    pub material: Material,
}

/// An oriented plane given by a point, a normal and a material.
#[derive(Clone, Debug)]
pub struct Plane {
    pub origin: Point,
    pub normal: Vector3,
    pub material: Material,
}

/// A light arriving from one fixed direction everywhere.
#[derive(Clone, Copy, Debug)]
pub struct DirectionalLight {
    pub direction: Vector3,
    pub color: Color,
    pub intensity: i64,
}

/// A point light radiating equally in all directions.
#[derive(Clone, Copy, Debug)]
pub struct SphericalLight {
    pub position: Point,
    pub color: Color,
    pub intensity: i64,
}

/// A light source.
#[derive(Clone, Copy, Debug)]
pub enum Light {
    Directional(DirectionalLight),
    Spherical(SphericalLight),
}

impl Light {
    /// The light's color.
    pub open spec fn spec_color(self) -> Color {
        match self {
            Light::Directional(d) => d.color,
            Light::Spherical(s) => s.color,
        }
    }

    /// The unit direction from a surface point toward the light.
    pub open spec fn spec_direction_from(self, hit_point: Point) -> Vector3 {
        match self {
            Light::Directional(d) => d.direction.spec_neg(),
            Light::Spherical(s) => s.position.spec_sub(hit_point).spec_normalize(),
        }
    }

    /// The intensity arriving at a surface point: constant for a
    /// directional light, inverse-square for a point light.
    pub open spec fn spec_intensity(self, hit_point: Point) -> int {
        match self {
            Light::Directional(d) => d.intensity as int,
            Light::Spherical(s) => {
                let r2 = s.position.spec_sub(hit_point).spec_norm();
                div_spec(s.intensity as int, mul_spec(FOUR_PI_FX as int, r2))
            },
        }
    }

    /// The distance from a surface point to the light source;
    /// a directional light is treated as infinitely far away.
    pub open spec fn spec_distance(self, hit_point: Point) -> int {
        match self {
            Light::Directional(_) => i64::MAX as int,
            Light::Spherical(s) => s.position.spec_sub(hit_point).spec_length(),
        }
    }

    /// The light's color.
    pub fn color(&self) -> (r: Color)
        ensures
            r == self.spec_color(),
    {
        match self {
            Light::Directional(d) => d.color,
            Light::Spherical(s) => s.color,
        }
    }

    /// The unit direction from a surface point toward the light.
    pub fn direction_from(&self, hit_point: &Point) -> (r: Vector3)
        ensures
            r == self.spec_direction_from(*hit_point),
    {
        match self {
            Light::Directional(d) => d.direction.neg(),
            Light::Spherical(s) => s.position.sub(*hit_point).normalize(),
        }
    }

    /// The intensity arriving at a surface point.
    pub fn intensity(&self, hit_point: &Point) -> (r: i64)
        ensures
            r as int == self.spec_intensity(*hit_point),
    {
        match self {
            Light::Directional(d) => d.intensity,
            Light::Spherical(s) => {
                let r2 = s.position.sub(*hit_point).norm();
                fx_div(s.intensity, fx_mul(FOUR_PI_FX, r2))
            },
        }
    }

    /// The distance from a surface point to the light source.
    pub fn distance(&self, hit_point: &Point) -> (r: i64)
        ensures
            r as int == self.spec_distance(*hit_point),
    {
        match self {
            Light::Directional(_) => i64::MAX,
            Light::Spherical(s) => s.position.sub(*hit_point).length(),
        }
    }
}

/// A forward hit: the distance along the ray and the index of the
/// intersected element in the scene's element sequence.
#[derive(Clone, Copy, Debug, PartialEq, Eq, Structural)]
pub struct Intersection {
    pub distance: i64,
    pub element: usize,
}

impl Intersection {
    /// The hit at the given distance on the given element.
    pub fn new(distance: i64, element: usize) -> (r: Intersection)
        ensures
            r == (Intersection { distance, element }),
    {
        Intersection { distance, element }
    }
}

/// A scene primitive.
#[derive(Clone, Debug)]
pub enum Element {
    Sphere(Sphere),
    Plane(Plane),
}

impl Element {
    /// The primitive's material.
    pub open spec fn spec_material(self) -> Material {
        match self {
            Element::Sphere(s) => s.material,
            Element::Plane(p) => p.material,
        }
    }

    /// A well-formed primitive: its coloration is well-formed.
    pub open spec fn wf(self) -> bool {
        self.spec_material().coloration.wf()
    }

    /// The primitive's material.
    pub fn material(&self) -> (r: &Material)
        ensures
            *r == self.spec_material(),
    {
        match self {
            Element::Sphere(s) => &s.material,
            Element::Plane(p) => &p.material,
        }
    }
}

} // verus!

//! Rays, the pinhole camera, reflection, refraction, Fresnel mixing,
//! and the intersection interface of the primitives.

use vstd::prelude::*;
use crate::entities::{Element, Plane, Sphere};
use crate::fixed::{
    HALF, ONE, abs_spec, add_spec, div_spec, max_spec, min_spec, mul_spec, neg_spec, sqrt_spec,
    sub_spec, fx_abs, fx_add, fx_div, fx_max, fx_min, fx_mul, fx_neg, fx_of_u32, fx_sqrt, fx_sub,
};
use crate::point::Point;
use crate::scene::Scene;
use crate::trig::{acospi, acospi_spec, atan2pi, atan2pi_spec, tan_half_deg, tan_half_deg_spec};
use crate::vector::Vector3;

verus! {

/// The intersection guard: a plane is hit only when the dot product of
/// its normal with the ray direction exceeds this.  The float guard
/// 1e-6 lies below fixed-point resolution, so any positive scalar
/// already exceeds it.
pub const EPSILON: i64 = 0;

/// A ray: an origin and a direction, unit length for primary rays.
#[derive(Clone, Copy, Debug, PartialEq, Eq, Structural)]
pub struct Ray {
    pub origin: Point,
    pub direction: Vector3,
}

impl Default for Ray {
    /// The degenerate ray at the origin with zero direction.
    fn default() -> (r: Ray)
        ensures
            r == (Ray {
                origin: Point { x: 0i64, y: 0i64, z: 0i64 },
                direction: Vector3 { x: 0i64, y: 0i64, z: 0i64 },
            }),
    {
        Ray {
            origin: Point::zero(),
            direction: Vector3::zero(),
        }
    }
}

/// UV coordinates into a coloration.
#[derive(Clone, Copy, Debug, PartialEq, Eq, Structural)]
pub struct TextureCoords {
    pub x: i64,
    pub y: i64,
}

/// The primary ray of pixel (x, y): through the pixel center on the
/// sensor plane at z = -1, scaled by aspect ratio and field of view,
/// then normalized.
pub open spec fn spec_create_prime(x: int, y: int, scene: Scene) -> Ray {
    let fov_adjustment = tan_half_deg_spec(scene.fov as int);
    let aspect_ratio = div_spec(scene.width as int * ONE as int, scene.height as int * ONE as int);
    let sensor_x = mul_spec(
        mul_spec(
            sub_spec(
                mul_spec(
                    div_spec(add_spec(x * ONE as int, HALF as int), scene.width as int * ONE as int),
                    2 * ONE as int,
                ),
                ONE as int,
            ),
            aspect_ratio,
        ),
        fov_adjustment,
    );
    let sensor_y = mul_spec(
        sub_spec(
            ONE as int,
            mul_spec(
                div_spec(add_spec(y * ONE as int, HALF as int), scene.height as int * ONE as int),
                2 * ONE as int,
            ),
        ),
        fov_adjustment,
    );
    Ray {
        origin: Point { x: 0i64, y: 0i64, z: 0i64 },
        direction: Vector3 {
            x: sensor_x as i64,
            y: sensor_y as i64,
            z: -(ONE as int) as i64,
        }.spec_normalize(),
    }
}

/// The reflection of `incident` about `normal` at `intersection`, with
/// the origin biased along the normal against self-intersection.
pub open spec fn spec_create_reflection(
    normal: Vector3,
    incident: Vector3,
    intersection: Point,
    bias: int,
) -> Ray {
    Ray {
        origin: intersection.spec_add(normal.spec_scale(bias)),
        direction: incident.spec_sub(
            normal.spec_scale(mul_spec(2 * ONE as int, incident.spec_dot(normal))),
        ),
    }
}

/// The transmitted ray of Snell's law in vector form, or `None` under
/// total internal reflection; the origin is biased against the
/// (possibly flipped) normal so the ray starts inside the medium it
/// enters.
pub open spec fn spec_create_transmission(
    normal: Vector3,
    incident: Vector3,
    intersection: Point,
    bias: int,
    index: int,
) -> Option<Ray> {
    let idn0 = incident.spec_dot(normal);
    let cos_i = if idn0 < 0 {
        neg_spec(idn0)
    } else {
        idn0
    };
    let ref_n = if idn0 < 0 {
        normal
    } else {
        normal.spec_neg()
    };
    let eta_i = if idn0 < 0 {
        ONE as int
    } else {
        index
    };
    let eta_t = if idn0 < 0 {
        index
    } else {
        ONE as int
    };
    let eta = div_spec(eta_i, eta_t);
    let k = sub_spec(
        ONE as int,
        mul_spec(mul_spec(eta, eta), sub_spec(ONE as int, mul_spec(cos_i, cos_i))),
    );
    if k < 0 {
        Option::None
    } else {
        Option::Some(
            Ray {
                origin: intersection.spec_add(ref_n.spec_scale(bias).spec_neg()),
                direction: incident.spec_scale(eta).spec_add(
                    ref_n.spec_scale(sub_spec(mul_spec(eta, cos_i), sqrt_spec(k))),
                ),
            },
        )
    }
}

/// The unpolarized Fresnel reflectance at a dielectric boundary, in
/// [0, 1]; 1 under total internal reflection.  Deliberately, the
/// ratio formulas reuse the magnitude of the transmitted cosine in
/// place of the incident one.
pub open spec fn spec_fresnel(incident: Vector3, normal: Vector3, index: int) -> int {
    let i_dot_n = incident.spec_dot(normal);
    let eta_i = if i_dot_n > 0 {
        index
    } else {
        ONE as int
    };
    let eta_t = if i_dot_n > 0 {
        ONE as int
    } else {
        index
    };
    let sin_t = mul_spec(
        div_spec(eta_i, eta_t),
        sqrt_spec(max_spec(0, sub_spec(ONE as int, mul_spec(i_dot_n, i_dot_n)))),
    );
    if sin_t >= ONE as int {
        ONE as int
    } else {
        let cos_t = sqrt_spec(max_spec(0, sub_spec(ONE as int, mul_spec(sin_t, sin_t))));
        let cos_i = abs_spec(cos_t);
        let r_s = div_spec(
            sub_spec(mul_spec(eta_t, cos_i), mul_spec(eta_i, cos_t)),
            add_spec(mul_spec(eta_t, cos_i), mul_spec(eta_i, cos_t)),
        );
        let r_p = div_spec(
            sub_spec(mul_spec(eta_i, cos_i), mul_spec(eta_t, cos_t)),
            add_spec(mul_spec(eta_i, cos_i), mul_spec(eta_t, cos_t)),
        );
        mul_spec(add_spec(mul_spec(r_s, r_s), mul_spec(r_p, r_p)), HALF as int)
    }
}

impl Ray {
    /// The primary ray of pixel (x, y).
    pub fn create_prime(x: u32, y: u32, scene: &Scene) -> (r: Ray)
        ensures
            r == spec_create_prime(x as int, y as int, *scene),
    {
        let fov_adjustment = tan_half_deg(scene.fov);
        let aspect_ratio = fx_div(fx_of_u32(scene.width), fx_of_u32(scene.height));
        let sensor_x = fx_mul(
            fx_mul(
                fx_sub(
                    fx_mul(
                        fx_div(fx_add(fx_of_u32(x), HALF), fx_of_u32(scene.width)),
                        131072,
                    ),
                    ONE,
                ),
                aspect_ratio,
            ),
            fov_adjustment,
        );
        let sensor_y = fx_mul(
            fx_sub(
                ONE,
                fx_mul(fx_div(fx_add(fx_of_u32(y), HALF), fx_of_u32(scene.height)), 131072),
            ),
            fov_adjustment,
        );
        Ray {
            origin: Point::zero(),
            direction: Vector3 { x: sensor_x, y: sensor_y, z: -ONE }.normalize(),
        }
    }

    /// The reflection of `incident` about `normal` at `intersection`.
    pub fn create_reflection(
        normal: Vector3,
        incident: Vector3,
        intersection: Point,
        bias: i64,
    ) -> (r: Ray)
        ensures
            r == spec_create_reflection(normal, incident, intersection, bias as int),
    {
        Ray {
            origin: intersection.add(normal.scale(bias)),
            direction: incident.sub(normal.scale(fx_mul(131072, incident.dot(&normal)))),
        }
    }

    /// The transmitted ray of Snell's law, or `None` under total
    /// internal reflection.
    pub fn create_transmission(
        normal: Vector3,
        incident: Vector3,
        intersection: Point,
        bias: i64,
        index: i64,
    ) -> (r: Option<Ray>)
        ensures
            r == spec_create_transmission(
                normal,
                incident,
                intersection,
                bias as int,
                index as int,
            ),
    {
        let idn0 = incident.dot(&normal);
        let cos_i = if idn0 < 0 {
            fx_neg(idn0)
        } else {
            idn0
        };
        let ref_n = if idn0 < 0 {
            normal
        } else {
            normal.neg()
        };
        let eta_i = if idn0 < 0 {
            ONE
        } else {
            index
        };
        let eta_t = if idn0 < 0 {
            index
        } else {
            ONE
        };
        let eta = fx_div(eta_i, eta_t);
        let k = fx_sub(ONE, fx_mul(fx_mul(eta, eta), fx_sub(ONE, fx_mul(cos_i, cos_i))));
        if k < 0 {
            Option::None
        } else {
            Option::Some(
                Ray {
                    origin: intersection.add(ref_n.scale(bias).neg()),
                    direction: incident.scale(eta).add(
                        ref_n.scale(fx_sub(fx_mul(eta, cos_i), fx_sqrt(k))),
                    ),
                },
            )
        }
    }
}

/// The unpolarized Fresnel reflectance at a dielectric boundary.
pub fn fresnel(incident: Vector3, normal: Vector3, index: i64) -> (r: i64)
    ensures
        r as int == spec_fresnel(incident, normal, index as int),
{
    let i_dot_n = incident.dot(&normal);
    let eta_i = if i_dot_n > 0 {
        index
    } else {
        ONE
    };
    let eta_t = if i_dot_n > 0 {
        ONE
    } else {
        index
    };
    let sin_t = fx_mul(
        fx_div(eta_i, eta_t),
        fx_sqrt(fx_max(0, fx_sub(ONE, fx_mul(i_dot_n, i_dot_n)))),
    );
    if sin_t >= ONE {
        ONE
    } else {
        let cos_t = fx_sqrt(fx_max(0, fx_sub(ONE, fx_mul(sin_t, sin_t))));
        let cos_i = fx_abs(cos_t);
        let r_s = fx_div(
            fx_sub(fx_mul(eta_t, cos_i), fx_mul(eta_i, cos_t)),
            fx_add(fx_mul(eta_t, cos_i), fx_mul(eta_i, cos_t)),
        );
        let r_p = fx_div(
            fx_sub(fx_mul(eta_i, cos_i), fx_mul(eta_t, cos_t)),
            fx_add(fx_mul(eta_i, cos_i), fx_mul(eta_t, cos_t)),
        );
        fx_mul(fx_add(fx_mul(r_s, r_s), fx_mul(r_p, r_p)), HALF)
    }
}

/// The nearest forward intersection distance of a sphere, including a
/// hit from inside; `None` when the ray misses or the sphere lies
/// wholly behind the origin.
pub open spec fn spec_sphere_intersect(s: Sphere, ray: Ray) -> Option<i64> {
    let l = s.center.spec_sub(ray.origin);
    let adj = l.spec_dot(ray.direction);
    let d2 = sub_spec(l.spec_dot(l), mul_spec(adj, adj));
    let r2 = mul_spec(s.radius as int, s.radius as int);
    if d2 > r2 {
        Option::None
    } else {
        let thc = sqrt_spec(sub_spec(r2, d2));
        let t0 = sub_spec(adj, thc);
        let t1 = add_spec(adj, thc);
        if t0 < 0 && t1 < 0 {
            Option::None
        } else if t0 < 0 {
            Option::Some(t1 as i64)
        } else if t1 < 0 {
            Option::Some(t0 as i64)
        } else {
            Option::Some(min_spec(t0, t1) as i64)
        }
    }
}

/// The forward intersection distance of a one-sided plane: only rays
/// with `normal . direction > EPSILON` and a nonnegative distance hit.
pub open spec fn spec_plane_intersect(p: Plane, ray: Ray) -> Option<i64> {
    let denom = p.normal.spec_dot(ray.direction);
    if denom > EPSILON as int {
        let v = p.origin.spec_sub(ray.origin);
        let distance = div_spec(v.spec_dot(p.normal), denom);
        if distance >= 0 {
            Option::Some(distance as i64)
        } else {
            Option::None
        }
    } else {
        Option::None
    }
}

/// The outward unit normal of a sphere at a hit point.
pub open spec fn spec_sphere_normal(s: Sphere, hit_point: Point) -> Vector3 {
    hit_point.spec_sub(s.center).spec_normalize()
}

/// The shading normal of a plane: the stored normal flipped and
/// normalized, so lighting faces the side the ray came from.
pub open spec fn spec_plane_normal(p: Plane) -> Vector3 {
    p.normal.spec_neg().spec_normalize()
}

/// Spherical UV: longitude from `atan2`, latitude from `acos`, both
/// scaled into [0, 1].
pub open spec fn spec_sphere_texture_coords(s: Sphere, hit_point: Point) -> TextureCoords {
    let hit_vec = hit_point.spec_sub(s.center);
    TextureCoords {
        x: mul_spec(
            add_spec(ONE as int, atan2pi_spec(hit_vec.z as int, hit_vec.x as int)),
            HALF as int,
        ) as i64,
        y: acospi_spec(div_spec(hit_vec.y as int, s.radius as int)) as i64,
    }
}

/// Planar UV: coordinates of the hit along two axes spanning the
/// plane, built by crossing the normal with a fixed axis.
pub open spec fn spec_plane_texture_coords(p: Plane, hit_point: Point) -> TextureCoords {
    let first = p.normal.spec_cross(Vector3 { x: 0i64, y: 0i64, z: ONE });
    let x_axis = if first.spec_length() == 0 {
        p.normal.spec_cross(Vector3 { x: 0i64, y: ONE, z: 0i64 })
    } else {
        first
    };
    let y_axis = p.normal.spec_cross(x_axis);
    let hit_vec = hit_point.spec_sub(p.origin);
    TextureCoords {
        x: hit_vec.spec_dot(x_axis) as i64,
        y: hit_vec.spec_dot(y_axis) as i64,
    }
}

/// What every primitive answers: intersection distance, shading
/// normal, and texture coordinates, each pinned to its model.
pub trait Intersectable {
    /// The model of `intersect`.
    spec fn spec_intersect(self, ray: Ray) -> Option<i64>;

    /// The model of `surface_normal`.
    spec fn spec_surface_normal(self, hit_point: Point) -> Vector3;

    /// The model of `texture_coords`.
    spec fn spec_texture_coords(self, hit_point: Point) -> TextureCoords;

    /// The distance to the nearest forward hit, if any.
    fn intersect(&self, ray: &Ray) -> (r: Option<i64>)
        ensures
            r == self.spec_intersect(*ray),
    ;

    /// The shading normal at a hit point.
    fn surface_normal(&self, hit_point: &Point) -> (r: Vector3)
        ensures
            r == self.spec_surface_normal(*hit_point),
    ;

    /// The texture coordinates at a hit point.
    fn texture_coords(&self, hit_point: &Point) -> (r: TextureCoords)
        ensures
            r == self.spec_texture_coords(*hit_point),
    ;
}

impl Intersectable for Sphere {
    open spec fn spec_intersect(self, ray: Ray) -> Option<i64> {
        spec_sphere_intersect(self, ray)
    }

    open spec fn spec_surface_normal(self, hit_point: Point) -> Vector3 {
        spec_sphere_normal(self, hit_point)
    }

    open spec fn spec_texture_coords(self, hit_point: Point) -> TextureCoords {
        spec_sphere_texture_coords(self, hit_point)
    }

    fn intersect(&self, ray: &Ray) -> (r: Option<i64>) {
        let l = self.center.sub(ray.origin);
        let adj = l.dot(&ray.direction);
        let d2 = fx_sub(l.dot(&l), fx_mul(adj, adj));
        let r2 = fx_mul(self.radius, self.radius);
        if d2 > r2 {
            return Option::None;
        }
        let thc = fx_sqrt(fx_sub(r2, d2));
        let t0 = fx_sub(adj, thc);
        let t1 = fx_add(adj, thc);
        if t0 < 0 && t1 < 0 {
            Option::None
        } else if t0 < 0 {
            Option::Some(t1)
        } else if t1 < 0 {
            Option::Some(t0)
        } else {
            Option::Some(fx_min(t0, t1))
        }
    }

    fn surface_normal(&self, hit_point: &Point) -> (r: Vector3) {
        hit_point.sub(self.center).normalize()
    }

    fn texture_coords(&self, hit_point: &Point) -> (r: TextureCoords) {
        let hit_vec = hit_point.sub(self.center);
        TextureCoords {
            x: fx_mul(fx_add(ONE, atan2pi(hit_vec.z, hit_vec.x)), HALF),
            y: acospi(fx_div(hit_vec.y, self.radius)),
        }
    }
}

impl Intersectable for Plane {
    open spec fn spec_intersect(self, ray: Ray) -> Option<i64> {
        spec_plane_intersect(self, ray)
    }

    open spec fn spec_surface_normal(self, hit_point: Point) -> Vector3 {
        spec_plane_normal(self)
    }

    open spec fn spec_texture_coords(self, hit_point: Point) -> TextureCoords {
        spec_plane_texture_coords(self, hit_point)
    }

    fn intersect(&self, ray: &Ray) -> (r: Option<i64>) {
        let denom = self.normal.dot(&ray.direction);
        if denom > EPSILON {
            let v = self.origin.sub(ray.origin);
            let distance = fx_div(v.dot(&self.normal), denom);
            if distance >= 0 {
                return Option::Some(distance);
            }
        }
        Option::None
    }

    fn surface_normal(&self, hit_point: &Point) -> (r: Vector3) {
        self.normal.neg().normalize()
    }

    fn texture_coords(&self, hit_point: &Point) -> (r: TextureCoords) {
        let first = self.normal.cross(&Vector3 { x: 0, y: 0, z: ONE });
        let x_axis = if first.length() == 0 {
            self.normal.cross(&Vector3 { x: 0, y: ONE, z: 0 })
        } else {
            first
        };
        let y_axis = self.normal.cross(&x_axis);
        let hit_vec = hit_point.sub(self.origin);
        TextureCoords { x: hit_vec.dot(&x_axis), y: hit_vec.dot(&y_axis) }
    }
}

impl Intersectable for Element {
    open spec fn spec_intersect(self, ray: Ray) -> Option<i64> {
        match self {
            Element::Sphere(s) => spec_sphere_intersect(s, ray),
            Element::Plane(p) => spec_plane_intersect(p, ray),
        }
    }

    open spec fn spec_surface_normal(self, hit_point: Point) -> Vector3 {
        match self {
            Element::Sphere(s) => spec_sphere_normal(s, hit_point),
            Element::Plane(p) => spec_plane_normal(p),
        }
    }

    open spec fn spec_texture_coords(self, hit_point: Point) -> TextureCoords {
        match self {
            Element::Sphere(s) => spec_sphere_texture_coords(s, hit_point),
            Element::Plane(p) => spec_plane_texture_coords(p, hit_point),
        }
    }

    fn intersect(&self, ray: &Ray) -> (r: Option<i64>) {
        match self {
            Element::Sphere(s) => s.intersect(ray),
            Element::Plane(p) => p.intersect(ray),
        }
    }

    fn surface_normal(&self, hit_point: &Point) -> (r: Vector3) {
        match self {
            Element::Sphere(s) => s.surface_normal(hit_point),
            Element::Plane(p) => p.surface_normal(hit_point),
        }
    }

    fn texture_coords(&self, hit_point: &Point) -> (r: TextureCoords) {
        match self {
            Element::Sphere(s) => s.texture_coords(hit_point),
            Element::Plane(p) => p.texture_coords(hit_point),
        }
    }
}

} // verus!

//! Laws of the renderer, each stated over the pipeline's model and
//! proved once and for all.

use vstd::prelude::*;
use crate::color::{Color, Rgba8};
use crate::entities::{Element, Intersection, Plane, Sphere, SurfaceType};
use crate::fixed::{
    ONE, add_spec, mag, max_spec, mul_spec, sqrt_spec, sub_spec, lemma_sqrt_spec_pos,
    lemma_sqrt_spec_range,
};
use crate::point::Point;
use crate::rendering::{
    EPSILON, Intersectable, Ray, spec_create_prime, spec_create_reflection, spec_plane_intersect,
    spec_sphere_intersect,
};
use crate::scene::{
    RenderTarget, Scene, lemma_trace_upto_index, spec_pixel_ok, spec_render_pixel, spec_trace,
};
use crate::vector::Vector3;

verus! {

/// Determinism: the rendered pixel (x, y) is exactly the primary ray
/// of (x, y) cast at depth 0 and gamma-encoded — a pure function of
/// the scene and the coordinates, with no other input.
pub proof fn lemma_render_pixel_is_primary_cast(s: Scene, x: int, y: int)
    ensures
        spec_render_pixel(s, x, y) == s.spec_cast_ray(
            spec_create_prime(x, y, s),
            0,
        ).spec_to_rgba(),
{
    reveal(spec_render_pixel);
}

/// Pixel independence: any two buffers that hold a rendering of the
/// same scene are identical, byte for byte — so rendering twice, or in
/// any pixel order, yields the same raster.
pub proof fn lemma_render_deterministic(s: Scene, a: RenderTarget, b: RenderTarget)
    requires
        a.pixels@.len() == 4 * (s.width as int) * (s.height as int),
        b.pixels@.len() == 4 * (s.width as int) * (s.height as int),
        forall|x: int, y: int|
            0 <= x < s.width as int && 0 <= y < s.height as int ==> spec_pixel_ok(
                s,
                a.pixels@,
                x,
                y,
            ),
        forall|x: int, y: int|
            0 <= x < s.width as int && 0 <= y < s.height as int ==> spec_pixel_ok(
                s,
                b.pixels@,
                x,
                y,
            ),
    ensures
        a.pixels@ == b.pixels@,
{
    let w = s.width as int;
    let h = s.height as int;
    assert forall|i: int| 0 <= i < a.pixels@.len() implies a.pixels@[i] == b.pixels@[i] by {
        assert(4 * w * h == 4 * (w * h)) by (nonlinear_arith);
        let q = i / 4;
        let j = i % 4;
        vstd::arithmetic::div_mod::lemma_fundamental_div_mod(i, 4);
        vstd::arithmetic::div_mod::lemma_mod_bound(i, 4);
        vstd::arithmetic::div_mod::lemma_div_pos_is_pos(i, 4);
        vstd::arithmetic::div_mod::lemma_multiply_divide_lt(i, 4, w * h);
        let py = q / w;
        let px = q % w;
        vstd::arithmetic::div_mod::lemma_fundamental_div_mod(q, w);
        vstd::arithmetic::div_mod::lemma_mod_bound(q, w);
        vstd::arithmetic::div_mod::lemma_div_pos_is_pos(q, w);
        vstd::arithmetic::div_mod::lemma_multiply_divide_lt(q, w, h);
        assert(q == w * py + px);
        assert(py * w == w * py) by (nonlinear_arith);
        assert(i == 4 * (py * w + px) + j);
        assert(spec_pixel_ok(s, a.pixels@, px, py));
        assert(spec_pixel_ok(s, b.pixels@, px, py));
    }
    assert(a.pixels@ =~= b.pixels@);
}

/// Shadow self-test, dark side: under a single light, a point whose
/// surface normal faces away from the light (the cosine term is not
/// positive) shades to pure black.
pub proof fn lemma_unlit_shades_black(
    s: Scene,
    element: Element,
    hit_point: Point,
    surface_normal: Vector3,
)
    requires
        s.lights@.len() == 1,
        surface_normal.spec_dot(s.lights@[0].spec_direction_from(hit_point)) <= 0,
    ensures
        s.spec_shade_diffuse(element, hit_point, surface_normal) == Color::spec_black(),
{
    let light = s.lights@[0];
    assert forall|b: int| #[trigger] mul_spec(0, b) == 0 by {
        vstd::arithmetic::mul::lemma_mul_basics(mag(b));
        vstd::arithmetic::div_mod::lemma_div_of0(65536);
    }
    assert forall|a2: int| #[trigger] mul_spec(a2, 0) == 0 by {
        vstd::arithmetic::mul::lemma_mul_basics(mag(a2));
        vstd::arithmetic::div_mod::lemma_div_of0(65536);
    }
    let acc1 = s.spec_shade_acc(element, hit_point, surface_normal, 1);
    let contribution = s.spec_light_contribution(element, hit_point, surface_normal, light);
    assert(s.spec_shade_acc(element, hit_point, surface_normal, 0) == Color::spec_black());
    assert(max_spec(0, surface_normal.spec_dot(light.spec_direction_from(hit_point))) == 0);
    assert(contribution == Color::spec_black());
    assert(acc1 == Color::spec_black().spec_add(contribution));
}

/// Energy clamping: diffuse shading always lies in [0, 1] per channel.
pub proof fn lemma_diffuse_shading_clamped(
    s: Scene,
    element: Element,
    hit_point: Point,
    surface_normal: Vector3,
)
    ensures
        ({
            let c = s.spec_shade_diffuse(element, hit_point, surface_normal);
            0 <= c.red <= ONE as int && 0 <= c.green <= ONE as int && 0 <= c.blue <= ONE as int
        }),
{
}

/// A scene whose every element is diffuse.
pub open spec fn all_diffuse(s: Scene) -> bool {
    forall|i: int|
        0 <= i < s.elements@.len() ==> s.elements@[i].spec_material().surface
            == SurfaceType::Diffuse
}

/// Energy clamping: in an all-diffuse scene, every cast ray — so every
/// output pixel before gamma encoding — lies in [0, 1] per channel.
pub proof fn lemma_diffuse_scene_cast_clamped(s: Scene, ray: Ray, depth: int)
    requires
        all_diffuse(s),
    ensures
        ({
            let c = s.spec_cast_ray(ray, depth);
            0 <= c.red <= ONE as int && 0 <= c.green <= ONE as int && 0 <= c.blue <= ONE as int
        }),
{
    if depth < s.max_recursion_depth {
        match spec_trace(s.elements@, ray) {
            Option::None => {},
            Option::Some(hit) => {
                lemma_trace_upto_index(s.elements@, ray, s.elements@.len() as int);
                assert(s.elements@[hit.element as int].spec_material().surface
                    == SurfaceType::Diffuse);
            },
        }
    }
}

/// Reflection bound: at a purely reflective hit, the shaded color is
/// exactly the diffuse base weighted by (1 - reflectivity) plus the
/// traced reflection ray weighted by reflectivity.
pub proof fn lemma_reflective_surface_mix(
    s: Scene,
    ray: Ray,
    hit: Intersection,
    depth: int,
    reflectivity: i64,
)
    requires
        depth < s.max_recursion_depth as int,
        s.elements@[hit.element as int].spec_material().surface == (SurfaceType::Reflective {
            reflectivity,
        }),
    ensures
        ({
            let hit_point = ray.origin.spec_add(ray.direction.spec_scale(hit.distance as int));
            let element = s.elements@[hit.element as int];
            let surface_normal = element.spec_surface_normal(hit_point);
            let base = s.spec_shade_diffuse(element, hit_point, surface_normal);
            let reflected = s.spec_cast_ray(
                spec_create_reflection(
                    surface_normal,
                    ray.direction,
                    hit_point,
                    s.shadow_bias as int,
                ),
                depth + 1,
            );
            s.spec_get_color(ray, hit, depth) == base.spec_scale(
                sub_spec(ONE as int, reflectivity as int),
            ).spec_add(reflected.spec_scale(reflectivity as int))
        }),
{
}

/// A scene with no elements renders every pixel as transparent black.
pub proof fn lemma_empty_scene_black(s: Scene, x: int, y: int)
    requires
        s.elements@.len() == 0,
    ensures
        spec_render_pixel(s, x, y) == (Rgba8 { red: 0u8, green: 0u8, blue: 0u8, alpha: 0u8 }),
{
    reveal(spec_render_pixel);
}

/// A scene with recursion depth 0 renders every pixel as transparent
/// black, whatever it contains.
pub proof fn lemma_zero_depth_black(s: Scene, x: int, y: int)
    requires
        s.max_recursion_depth == 0,
    ensures
        spec_render_pixel(s, x, y) == (Rgba8 { red: 0u8, green: 0u8, blue: 0u8, alpha: 0u8 }),
{
    reveal(spec_render_pixel);
}

/// A sphere whose center coincides with the ray origin: the two roots
/// have opposite signs, and the positive one is returned.  Spheres
/// whose squared radius vanishes in fixed point (radius below 2^-8)
/// are excluded.
pub proof fn lemma_sphere_centered_roots(s: Sphere, ray: Ray)
    requires
        ray.origin == s.center,
        mul_spec(s.radius as int, s.radius as int) > 0,
    ensures
        ({
            let thc = sqrt_spec(mul_spec(s.radius as int, s.radius as int));
            spec_sphere_intersect(s, ray) == Option::Some(thc as i64) && thc > 0
        }),
{
    assert forall|b: int| #[trigger] mul_spec(0, b) == 0 by {
        vstd::arithmetic::mul::lemma_mul_basics(mag(b));
        vstd::arithmetic::div_mod::lemma_div_of0(65536);
    }
    assert forall|a2: int| #[trigger] mul_spec(a2, 0) == 0 by {
        vstd::arithmetic::mul::lemma_mul_basics(mag(a2));
        vstd::arithmetic::div_mod::lemma_div_of0(65536);
    }
    let r2 = mul_spec(s.radius as int, s.radius as int);
    lemma_sqrt_spec_pos(r2);
    lemma_sqrt_spec_range(r2);
    let l = s.center.spec_sub(ray.origin);
    assert(l == (Vector3 { x: 0i64, y: 0i64, z: 0i64 }));
    assert(l.spec_dot(ray.direction) == 0);
    assert(l.spec_dot(l) == 0);
    let thc = sqrt_spec(r2);
    assert(sub_spec(0, thc) < 0);
    assert(add_spec(0, thc) == thc);
}

/// A plane viewed edge-on (or from behind): when the dot product of
/// its normal with the ray direction does not exceed the guard, there
/// is no intersection.
pub proof fn lemma_plane_edge_on(p: Plane, ray: Ray)
    requires
        p.normal.spec_dot(ray.direction) <= EPSILON as int,
    ensures
        spec_plane_intersect(p, ray) == Option::<i64>::None,
{
}

} // verus!

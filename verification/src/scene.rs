//! The scene and the recursive shading pipeline: nearest-hit tracing,
//! Lambertian shading with shadow rays, and depth-limited recursion
//! over reflection and refraction with Fresnel mixing.

use vstd::prelude::*;
use crate::color::{Color, Rgba8};
use crate::entities::{Element, Intersection, Light, SurfaceType};
use crate::fixed::{
    ONE, PI_FX, div_spec, max_spec, mul_spec, sub_spec, fx_div, fx_max, fx_mul, fx_sub,
};
use crate::point::Point;
use crate::rendering::{
    Intersectable, Ray, spec_create_prime, spec_create_reflection, spec_create_transmission,
    spec_fresnel, fresnel,
};
use crate::vector::Vector3;

verus! {

/// A scene: raster extent, horizontal field of view in degrees, the
/// primitives, the lights, the shadow-ray bias, and the recursion
/// bound for reflection and refraction.
#[derive(Clone, Debug)]
pub struct Scene {
    pub width: u32,
    pub height: u32,
    pub fov: i64,
    pub elements: Vec<Element>,
    pub lights: Vec<Light>,
    pub shadow_bias: i64,
    pub max_recursion_depth: u32,
}

/// The nearest forward hit among the first `n` elements; ties keep the
/// earliest element.
pub open spec fn spec_trace_upto(elements: Seq<Element>, ray: Ray, n: int) -> Option<Intersection>
    decreases n,
{
    if n <= 0 {
        Option::None
    } else {
        let prev = spec_trace_upto(elements, ray, n - 1);
        match elements[n - 1].spec_intersect(ray) {
            Option::None => prev,
            Option::Some(d) => match prev {
                Option::None => Option::Some(
                    Intersection { distance: d, element: (n - 1) as usize },
                ),
                Option::Some(b) => if (d as int) < (b.distance as int) {
                    Option::Some(Intersection { distance: d, element: (n - 1) as usize })
                } else {
                    prev
                },
            },
        }
    }
}

/// The nearest forward hit in the whole element sequence.
pub open spec fn spec_trace(elements: Seq<Element>, ray: Ray) -> Option<Intersection> {
    spec_trace_upto(elements, ray, elements.len() as int)
}

/// Among the first `n` elements, any element's hit is at least as far
/// as the reported one.
proof fn lemma_trace_upto_minimal(elements: Seq<Element>, ray: Ray, n: int, i: int)
    requires
        0 <= i < n <= elements.len(),
    ensures
        match elements[i].spec_intersect(ray) {
            Option::None => true,
            Option::Some(d) => match spec_trace_upto(elements, ray, n) {
                Option::None => false,
                Option::Some(h) => h.distance <= d,
            },
        },
    decreases n,
{
    if i < n - 1 {
        lemma_trace_upto_minimal(elements, ray, n - 1, i);
    }
}

/// The element order is irrelevant to which distance wins: the hit
/// that `spec_trace` reports is at least as near as any element's.
pub proof fn lemma_trace_minimal(elements: Seq<Element>, ray: Ray, i: int)
    requires
        0 <= i < elements.len(),
    ensures
        match elements[i].spec_intersect(ray) {
            Option::None => true,
            Option::Some(d) => match spec_trace(elements, ray) {
                Option::None => false,
                Option::Some(h) => h.distance <= d,
            },
        },
{
    lemma_trace_upto_minimal(elements, ray, elements.len() as int, i);
}

/// A hit reported among the first `n` elements names one of them.
pub proof fn lemma_trace_upto_index(elements: Seq<Element>, ray: Ray, n: int)
    requires
        0 <= n <= elements.len(),
    ensures
        match spec_trace_upto(elements, ray, n) {
            Option::None => true,
            Option::Some(h) => 0 <= h.element < n,
        },
    decreases n,
{
    if n > 0 {
        lemma_trace_upto_index(elements, ray, n - 1);
    }
}

impl Scene {
    /// A well-formed scene: positive raster extent, a raster that fits
    /// in memory, and well-formed elements.
    pub open spec fn wf(self) -> bool {
        &&& self.width >= 1
        &&& self.height >= 1
        &&& 4 * (self.width as int) * (self.height as int) <= usize::MAX as int
        &&& forall|i: int| 0 <= i < self.elements@.len() ==> self.elements@[i].wf()
    }

    /// One light's contribution to Lambertian shading at a hit: zero
    /// when the shadow ray is occluded nearer than the light,
    /// otherwise the surface color modulated by the light's color,
    /// the cosine-weighted intensity, and `albedo / pi`.
    pub open spec fn spec_light_contribution(
        self,
        element: Element,
        hit_point: Point,
        surface_normal: Vector3,
        light: Light,
    ) -> Color {
        let direction_to_light = light.spec_direction_from(hit_point);
        let shadow_ray = Ray {
            origin: hit_point.spec_add(surface_normal.spec_scale(self.shadow_bias as int)),
            direction: direction_to_light,
        };
        let shadow_intersection = spec_trace(self.elements@, shadow_ray);
        let in_light = match shadow_intersection {
            Option::None => true,
            Option::Some(si) => (si.distance as int) > light.spec_distance(hit_point),
        };
        let light_intensity = if in_light {
            light.spec_intensity(hit_point)
        } else {
            0
        };
        let light_power = mul_spec(
            max_spec(0, surface_normal.spec_dot(direction_to_light)),
            light_intensity,
        );
        let light_reflected = div_spec(element.spec_material().albedo as int, PI_FX as int);
        let light_color = light.spec_color().spec_scale(light_power).spec_scale(light_reflected);
        element.spec_material().coloration.spec_color_at(
            element.spec_texture_coords(hit_point),
        ).spec_mul(light_color)
    }

    /// The sum of the contributions of the first `n` lights.
    pub open spec fn spec_shade_acc(
        self,
        element: Element,
        hit_point: Point,
        surface_normal: Vector3,
        n: int,
    ) -> Color
        decreases n,
    {
        if n <= 0 {
            Color::spec_black()
        } else {
            self.spec_shade_acc(element, hit_point, surface_normal, n - 1).spec_add(
                self.spec_light_contribution(
                    element,
                    hit_point,
                    surface_normal,
                    self.lights@[n - 1],
                ),
            )
        }
    }

    /// Lambertian shading at a hit: the summed light contributions,
    /// clamped into [0, 1].
    pub open spec fn spec_shade_diffuse(
        self,
        element: Element,
        hit_point: Point,
        surface_normal: Vector3,
    ) -> Color {
        self.spec_shade_acc(
            element,
            hit_point,
            surface_normal,
            self.lights@.len() as int,
        ).spec_clamp()
    }

    /// The color of a traced ray: black past the recursion bound or on
    /// a miss, otherwise the shaded nearest hit.
    pub open spec fn spec_cast_ray(self, ray: Ray, depth: int) -> Color
        decreases self.max_recursion_depth - depth, 1int,
    {
        if depth >= self.max_recursion_depth {
            Color::spec_black()
        } else {
            match spec_trace(self.elements@, ray) {
                Option::None => Color::spec_black(),
                Option::Some(hit) => self.spec_get_color(ray, hit, depth),
            }
        }
    }

    /// The shaded color at a hit, by surface type: plain Lambertian
    /// for diffuse surfaces; a reflectivity-weighted mix of Lambertian
    /// and the reflected ray for reflective ones; and for refractive
    /// ones the Fresnel-weighted mix of the reflected and transmitted
    /// rays, tinted by the surface color and its transparency, with no
    /// diffuse term and no clamp.
    pub open spec fn spec_get_color(self, ray: Ray, hit: Intersection, depth: int) -> Color
        decreases self.max_recursion_depth - depth, 0int,
        when depth < self.max_recursion_depth
    {
        let hit_point = ray.origin.spec_add(ray.direction.spec_scale(hit.distance as int));
        let element = self.elements@[hit.element as int];
        let surface_normal = element.spec_surface_normal(hit_point);
        match element.spec_material().surface {
            SurfaceType::Diffuse => self.spec_shade_diffuse(element, hit_point, surface_normal),
            SurfaceType::Reflective { reflectivity } => {
                let base = self.spec_shade_diffuse(element, hit_point, surface_normal);
                let reflection_ray = spec_create_reflection(
                    surface_normal,
                    ray.direction,
                    hit_point,
                    self.shadow_bias as int,
                );
                base.spec_scale(sub_spec(ONE as int, reflectivity as int)).spec_add(
                    self.spec_cast_ray(reflection_ray, depth + 1).spec_scale(reflectivity as int),
                )
            },
            SurfaceType::Refractive { index, transparency } => {
                let kr = spec_fresnel(ray.direction, surface_normal, index as int);
                let surface_color = element.spec_material().coloration.spec_color_at(
                    element.spec_texture_coords(hit_point),
                );
                let refraction = if kr < ONE as int {
                    match spec_create_transmission(
                        surface_normal,
                        ray.direction,
                        hit_point,
                        self.shadow_bias as int,
                        index as int,
                    ) {
                        Option::Some(transmission_ray) => self.spec_cast_ray(
                            transmission_ray,
                            depth + 1,
                        ),
                        Option::None => Color::spec_black(),
                    }
                } else {
                    Color::spec_black()
                };
                let reflection_ray = spec_create_reflection(
                    surface_normal,
                    ray.direction,
                    hit_point,
                    self.shadow_bias as int,
                );
                let reflection = self.spec_cast_ray(reflection_ray, depth + 1);
                reflection.spec_scale(kr).spec_add(
                    refraction.spec_scale(sub_spec(ONE as int, kr)),
                ).spec_scale(transparency as int).spec_mul(surface_color)
            },
        }
    }

    /// The nearest forward hit of a ray, scanning the elements in
    /// order and keeping the minimum distance; ties keep the earliest.
    pub fn trace(&self, ray: &Ray) -> (r: Option<Intersection>)
        ensures
            r == spec_trace(self.elements@, *ray),
            match r {
                Option::None => true,
                Option::Some(h) => 0 <= (h.element as int) < self.elements@.len(),
            },
    {
        let mut best: Option<Intersection> = Option::None;
        let n = self.elements.len();
        let mut i: usize = 0;
        while i < n
            invariant
                i <= n,
                n == self.elements@.len(),
                best == spec_trace_upto(self.elements@, *ray, i as int),
            decreases n - i,
        {
            let e = &self.elements[i];
            match e.intersect(ray) {
                Option::Some(d) => {
                    match &best {
                        Option::None => {
                            best = Option::Some(Intersection::new(d, i));
                        },
                        Option::Some(b) => {
                            if d < b.distance {
                                best = Option::Some(Intersection::new(d, i));
                            }
                        },
                    }
                },
                Option::None => {},
            }
            i = i + 1;
        }
        proof {
            lemma_trace_upto_index(self.elements@, *ray, self.elements@.len() as int);
        }
        best
    }

    /// Lambertian shading at a hit on `element`, summing the shadowed,
    /// cosine-weighted contribution of every light, clamped to [0, 1].
    pub fn shade_diffuse(
        &self,
        element: &Element,
        hit_point: Point,
        surface_normal: Vector3,
    ) -> (r: Color)
        requires
            self.wf(),
            element.wf(),
        ensures
            r == self.spec_shade_diffuse(*element, hit_point, surface_normal),
    {
        let texture_coords = element.texture_coords(&hit_point);
        let texture_color = element.material().coloration.color(&texture_coords);
        let mut color = Color::black();
        let n = self.lights.len();
        let mut i: usize = 0;
        while i < n
            invariant
                i <= n,
                n == self.lights@.len(),
                self.wf(),
                element.wf(),
                texture_color == element.spec_material().coloration.spec_color_at(
                    element.spec_texture_coords(hit_point),
                ),
                color == self.spec_shade_acc(*element, hit_point, surface_normal, i as int),
            decreases n - i,
        {
            let light = self.lights[i];
            let direction_to_light = light.direction_from(&hit_point);
            let shadow_ray = Ray {
                origin: hit_point.add(surface_normal.scale(self.shadow_bias)),
                direction: direction_to_light,
            };
            let shadow_intersection = self.trace(&shadow_ray);
            let in_light = match &shadow_intersection {
                Option::None => true,
                Option::Some(si) => si.distance > light.distance(&hit_point),
            };
            let light_intensity = if in_light {
                light.intensity(&hit_point)
            } else {
                0
            };
            let light_power = fx_mul(
                fx_max(0, surface_normal.dot(&direction_to_light)),
                light_intensity,
            );
            let light_reflected = fx_div(element.material().albedo, PI_FX);
            let light_color = light.color().scale(light_power).scale(light_reflected);
            color = color.add(texture_color.mul(light_color));
            i = i + 1;
        }
        color.clamp()
    }

    /// The color of a traced ray: black past the recursion bound or on
    /// a miss, otherwise the shaded nearest hit.
    pub fn cast_ray(&self, ray: &Ray, depth: u32) -> (r: Color)
        requires
            self.wf(),
        ensures
            r == self.spec_cast_ray(*ray, depth as int),
        decreases self.max_recursion_depth - depth, 1int,
    {
        if depth >= self.max_recursion_depth {
            return Color::black();
        }
        let intersection = self.trace(ray);
        match intersection {
            Option::Some(i) => self.get_color(ray, &i, depth),
            Option::None => Color::black(),
        }
    }

    /// The shaded color at a hit, by surface type.
    pub fn get_color(&self, ray: &Ray, intersection: &Intersection, depth: u32) -> (r: Color)
        requires
            self.wf(),
            depth < self.max_recursion_depth,
            (intersection.element as int) < self.elements@.len(),
        ensures
            r == self.spec_get_color(*ray, *intersection, depth as int),
        decreases self.max_recursion_depth - depth, 0int,
    {
        let hit_point = ray.origin.add(ray.direction.scale(intersection.distance));
        let element = &self.elements[intersection.element];
        let surface_normal = element.surface_normal(&hit_point);
        match element.material().surface {
            SurfaceType::Diffuse => self.shade_diffuse(element, hit_point, surface_normal),
            SurfaceType::Reflective { reflectivity } => {
                let base = self.shade_diffuse(element, hit_point, surface_normal);
                let reflection_ray = Ray::create_reflection(
                    surface_normal,
                    ray.direction,
                    hit_point,
                    self.shadow_bias,
                );
                base.scale(fx_sub(ONE, reflectivity)).add(
                    self.cast_ray(&reflection_ray, depth + 1).scale(reflectivity),
                )
            },
            SurfaceType::Refractive { index, transparency } => {
                let kr = fresnel(ray.direction, surface_normal, index);
                let texture_coords = element.texture_coords(&hit_point);
                let surface_color = element.material().coloration.color(&texture_coords);
                let refraction = if kr < ONE {
                    match Ray::create_transmission(
                        surface_normal,
                        ray.direction,
                        hit_point,
                        self.shadow_bias,
                        index,
                    ) {
                        Option::Some(transmission_ray) => self.cast_ray(
                            &transmission_ray,
                            depth + 1,
                        ),
                        Option::None => Color::black(),
                    }
                } else {
                    Color::black()
                };
                let reflection_ray = Ray::create_reflection(
                    surface_normal,
                    ray.direction,
                    hit_point,
                    self.shadow_bias,
                );
                let reflection = self.cast_ray(&reflection_ray, depth + 1);
                reflection.scale(kr).add(refraction.scale(fx_sub(ONE, kr))).scale(
                    transparency,
                ).mul(surface_color)
            },
        }
    }
}

/// The finished color of pixel (x, y): the primary ray cast at depth
/// 0, gamma-encoded to 8-bit RGBA.
#[verifier::opaque]
pub open spec fn spec_render_pixel(s: Scene, x: int, y: int) -> Rgba8 {
    s.spec_cast_ray(spec_create_prime(x, y, s), 0).spec_to_rgba()
}

/// The four bytes of pixel (x, y) in `p` hold the rendered color.
pub open spec fn spec_pixel_ok(s: Scene, p: Seq<u8>, x: int, y: int) -> bool {
    let base = 4 * (y * (s.width as int) + x);
    let c = spec_render_pixel(s, x, y);
    &&& p[base] == c.red
    &&& p[base + 1] == c.green
    &&& p[base + 2] == c.blue
    &&& p[base + 3] == c.alpha
}

/// An RGBA raster buffer accepting per-pixel writes, row-major.
#[derive(Clone, Debug)]
pub struct RenderTarget {
    pub width: u32,
    pub height: u32,
    pub pixels: Vec<u8>,
}

/// The buffer `p` with the four bytes of pixel (x, y) replaced by `c`.
pub open spec fn spec_put_pixel(p: Seq<u8>, w: int, x: int, y: int, c: Rgba8) -> Seq<u8> {
    let base = 4 * (y * w + x);
    p.update(base, c.red).update(base + 1, c.green).update(base + 2, c.blue).update(
        base + 3,
        c.alpha,
    )
}

/// Distinct pixels of a `w`-wide raster live at distinct cells.
proof fn lemma_pixel_cell_distinct(w: int, x1: int, y1: int, x2: int, y2: int)
    requires
        0 <= x1 < w,
        0 <= x2 < w,
        0 <= y1,
        0 <= y2,
        !(x1 == x2 && y1 == y2),
    ensures
        y1 * w + x1 != y2 * w + x2,
{
    if y1 < y2 {
        assert(y1 * w + x1 < y2 * w + x2) by (nonlinear_arith)
            requires
                0 <= x1 < w,
                0 <= x2,
                y1 < y2,
                0 <= y1,
        ;
    }
    if y2 < y1 {
        assert(y2 * w + x2 < y1 * w + x1) by (nonlinear_arith)
            requires
                0 <= x2 < w,
                0 <= x1,
                y2 < y1,
                0 <= y2,
        ;
    }
}

/// The four cells of a pixel of a `w` by `h` raster lie inside it.
proof fn lemma_pixel_base_bounds(w: int, h: int, x: int, y: int)
    requires
        0 <= x < w,
        0 <= y < h,
    ensures
        0 <= 4 * (y * w + x),
        4 * (y * w + x) + 3 < 4 * w * h,
{
    assert(0 <= 4 * (y * w + x) && 4 * (y * w + x) + 3 < 4 * w * h) by (nonlinear_arith)
        requires
            0 <= x < w,
            0 <= y < h,
    ;
}

impl RenderTarget {
    /// An all-zero raster of the given extent.
    pub fn new_rgb8(width: u32, height: u32) -> (r: RenderTarget)
        requires
            4 * (width as int) * (height as int) <= usize::MAX as int,
        ensures
            r.width == width,
            r.height == height,
            r.pixels@.len() == 4 * (width as int) * (height as int),
            forall|i: int| 0 <= i < r.pixels@.len() ==> r.pixels@[i] == 0u8,
    {
        proof {
            assert((width as int) * (height as int) * 4 == 4 * (width as int) * (height as int))
                by (nonlinear_arith);
            assert((width as int) * (height as int) >= 0) by (nonlinear_arith);
        }
        let n: usize = (width as usize) * (height as usize) * 4;
        let mut pixels: Vec<u8> = Vec::new();
        let mut k: usize = 0;
        while k < n
            invariant
                k <= n,
                pixels@.len() == k as int,
                forall|i: int| 0 <= i < k as int ==> pixels@[i] == 0u8,
            decreases n - k,
        {
            pixels.push(0u8);
            k = k + 1;
        }
        RenderTarget { width, height, pixels }
    }

    /// Writes the four bytes of pixel (x, y).
    pub fn put_pixel(&mut self, x: u32, y: u32, color: Rgba8)
        requires
            x < old(self).width,
            y < old(self).height,
            old(self).pixels@.len() == 4 * (old(self).width as int) * (old(self).height as int),
        ensures
            final(self).width == old(self).width,
            final(self).height == old(self).height,
            final(self).pixels@ == spec_put_pixel(
                old(self).pixels@,
                old(self).width as int,
                x as int,
                y as int,
                color,
            ),
    {
        let len = self.pixels.len();
        proof {
            assert(0 <= (y as int) * (self.width as int) && 4 * ((y as int) * (self.width as int)
                + (x as int)) + 3 < 4 * (self.width as int) * (self.height as int))
                by (nonlinear_arith)
                requires
                    (y as int) < (self.height as int),
                    (x as int) < (self.width as int),
                    0 <= y as int,
                    0 <= x as int,
            ;
        }
        let base: usize = ((y as usize) * (self.width as usize) + (x as usize)) * 4;
        self.pixels.set(base, color.red);
        self.pixels.set(base + 1, color.green);
        self.pixels.set(base + 2, color.blue);
        self.pixels.set(base + 3, color.alpha);
    }
}

impl Scene {
    /// Renders the whole scene: for every pixel, the primary ray is
    /// cast at depth 0 and the resulting color is gamma-encoded into
    /// the raster.
    #[verifier::rlimit(100)]
    pub fn render(&self) -> (r: RenderTarget)
        requires
            self.wf(),
        ensures
            r.width == self.width,
            r.height == self.height,
            r.pixels@.len() == 4 * (self.width as int) * (self.height as int),
            forall|x: int, y: int|
                0 <= x < self.width as int && 0 <= y < self.height as int ==> spec_pixel_ok(
                    *self,
                    r.pixels@,
                    x,
                    y,
                ),
    {
        let mut target = RenderTarget::new_rgb8(self.width, self.height);
        let mut y: u32 = 0;
        while y < self.height
            invariant
                self.wf(),
                y <= self.height,
                target.width == self.width,
                target.height == self.height,
                target.pixels@.len() == 4 * (self.width as int) * (self.height as int),
                forall|px: int, py: int|
                    0 <= px < self.width as int && 0 <= py < y as int ==> spec_pixel_ok(
                        *self,
                        target.pixels@,
                        px,
                        py,
                    ),
            decreases self.height - y,
        {
            let mut x: u32 = 0;
            while x < self.width
                invariant
                    self.wf(),
                    y < self.height,
                    x <= self.width,
                    target.width == self.width,
                    target.height == self.height,
                    target.pixels@.len() == 4 * (self.width as int) * (self.height as int),
                    forall|px: int, py: int|
                        0 <= px < self.width as int && 0 <= py < y as int ==> spec_pixel_ok(
                            *self,
                            target.pixels@,
                            px,
                            py,
                        ),
                    forall|px: int|
                        0 <= px < x as int ==> spec_pixel_ok(*self, target.pixels@, px, y as int),
                decreases self.width - x,
            {
                let ray = Ray::create_prime(x, y, self);
                let color = self.cast_ray(&ray, 0);
                let ghost before = target.pixels@;
                target.put_pixel(x, y, color.to_rgba());
                proof {
                    assert forall|px: int, py: int|
                        0 <= px < self.width as int && ((0 <= py < y as int) || (py == y as int
                            && 0 <= px < x as int)) implies spec_pixel_ok(
                        *self,
                        target.pixels@,
                        px,
                        py,
                    ) by {
                        assert(spec_pixel_ok(*self, before, px, py));
                        lemma_pixel_cell_distinct(
                            self.width as int,
                            px,
                            py,
                            x as int,
                            y as int,
                        );
                        lemma_pixel_base_bounds(
                            self.width as int,
                            self.height as int,
                            px,
                            py,
                        );
                        lemma_pixel_base_bounds(
                            self.width as int,
                            self.height as int,
                            x as int,
                            y as int,
                        );
                    }
                    reveal(spec_render_pixel);
                    lemma_pixel_base_bounds(
                        self.width as int,
                        self.height as int,
                        x as int,
                        y as int,
                    );
                    assert(spec_pixel_ok(*self, target.pixels@, x as int, y as int));
                }
                x = x + 1;
            }
            y = y + 1;
        }
        target
    }
}

} // verus!

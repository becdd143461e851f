//! End-to-end renders of small scenes.

use raytracer::entities::{
    Coloration, DirectionalLight, Element, Light, Material, Plane, Sphere, SphericalLight,
    SurfaceType,
};
use raytracer::color::Color;
use raytracer::fixed::ONE;
use raytracer::point::Point;
use raytracer::rendering::Ray;
use raytracer::scene::{RenderTarget, Scene};
use raytracer::color::Rgba8;
use raytracer::texture::TextureData;
use raytracer::vector::Vector3;

fn fx(v: f64) -> i64 {
    (v * 65536.0).round() as i64
}

fn pixel(t: &RenderTarget, x: u32, y: u32) -> (u8, u8, u8, u8) {
    let b = ((y * t.width + x) * 4) as usize;
    (t.pixels[b], t.pixels[b + 1], t.pixels[b + 2], t.pixels[b + 3])
}

fn diffuse(color: Color) -> Material {
    Material {
        coloration: Coloration::Color(color),
        albedo: ONE,
        surface: SurfaceType::Diffuse,
    }
}

fn sphere(x: f64, y: f64, z: f64, r: f64, material: Material) -> Element {
    Element::Sphere(Sphere {
        center: Point::new(fx(x), fx(y), fx(z)),
        radius: fx(r),
        material,
    })
}

fn overhead_sun() -> Light {
    Light::Directional(DirectionalLight {
        direction: Vector3 { x: 0, y: -ONE, z: 0 },
        color: Color::new(ONE, ONE, ONE),
        intensity: fx(std::f64::consts::PI),
    })
}

#[test]
fn empty_scene_renders_all_black() {
    let scene = Scene {
        width: 4,
        height: 4,
        fov: fx(90.0),
        elements: vec![],
        lights: vec![],
        shadow_bias: fx(0.0001),
        max_recursion_depth: 1,
    };
    let img = scene.render();
    assert_eq!(img.pixels.len(), 64);
    for y in 0..4 {
        for x in 0..4 {
            assert_eq!(pixel(&img, x, y), (0, 0, 0, 0));
        }
    }
}

#[test]
fn unlit_sphere_renders_all_black() {
    // A red diffuse sphere with the light removed: the shading loop
    // runs over an empty list and every pixel stays black.
    let scene = Scene {
        width: 2,
        height: 2,
        fov: fx(90.0),
        elements: vec![sphere(0.0, 0.0, -5.0, 1.0, diffuse(Color::new(ONE, 0, 0)))],
        lights: vec![],
        shadow_bias: fx(0.0001),
        max_recursion_depth: 1,
    };
    let img = scene.render();
    for y in 0..2 {
        for x in 0..2 {
            assert_eq!(pixel(&img, x, y), (0, 0, 0, 0));
        }
    }
}

#[test]
fn zero_recursion_depth_renders_all_black() {
    let scene = Scene {
        width: 3,
        height: 3,
        fov: fx(90.0),
        elements: vec![sphere(0.0, 0.0, -5.0, 1.0, diffuse(Color::new(ONE, 0, 0)))],
        lights: vec![overhead_sun()],
        shadow_bias: fx(0.0001),
        max_recursion_depth: 0,
    };
    let img = scene.render();
    for y in 0..3 {
        for x in 0..3 {
            assert_eq!(pixel(&img, x, y), (0, 0, 0, 0));
        }
    }
}

#[test]
fn lit_sphere_shows_its_bright_and_dark_sides() {
    // A red sphere under a white overhead sun of intensity pi with
    // albedo 1: near the top of the sphere the red channel approaches
    // 1; on the terminator and below, the cosine term vanishes and
    // pixels are black.
    let scene = Scene {
        width: 9,
        height: 9,
        fov: fx(30.0),
        elements: vec![sphere(0.0, 0.0, -5.0, 1.0, diffuse(Color::new(ONE, 0, 0)))],
        lights: vec![overhead_sun()],
        shadow_bias: fx(0.01),
        max_recursion_depth: 1,
    };
    let img = scene.render();
    // The upper part of the sphere in the center column is brightly red.
    let (r, g, b, _) = pixel(&img, 4, 1);
    assert!(r > 150, "top red {r}");
    assert_eq!(g, 0);
    assert_eq!(b, 0);
    // The center pixel sees the front of the sphere, where the normal
    // is perpendicular to the light: exactly black.
    assert_eq!(pixel(&img, 4, 4), (0, 0, 0, 0));
    // Below the equator the surface faces away from the light.
    assert_eq!(pixel(&img, 4, 7), (0, 0, 0, 0));
    // No channel but red anywhere.
    for y in 0..9 {
        for x in 0..9 {
            let (_, g2, b2, a2) = pixel(&img, x, y);
            assert_eq!(g2, 0);
            assert_eq!(b2, 0);
            assert_eq!(a2, 0);
        }
    }
}

#[test]
fn rendering_twice_yields_identical_buffers() {
    let scene = Scene {
        width: 9,
        height: 9,
        fov: fx(30.0),
        elements: vec![sphere(0.0, 0.0, -5.0, 1.0, diffuse(Color::new(ONE, 0, 0)))],
        lights: vec![overhead_sun()],
        shadow_bias: fx(0.01),
        max_recursion_depth: 1,
    };
    let first = scene.render();
    let second = scene.render();
    assert_eq!(first.pixels, second.pixels);
}

#[test]
fn rendered_pixel_equals_primary_ray_cast() {
    let scene = Scene {
        width: 9,
        height: 9,
        fov: fx(30.0),
        elements: vec![sphere(0.0, 0.0, -5.0, 1.0, diffuse(Color::new(ONE, 0, 0)))],
        lights: vec![overhead_sun()],
        shadow_bias: fx(0.01),
        max_recursion_depth: 1,
    };
    let img = scene.render();
    for (x, y) in [(4u32, 1u32), (0, 0), (4, 4), (8, 7)] {
        let ray = Ray::create_prime(x, y, &scene);
        let rgba = scene.cast_ray(&ray, 0).to_rgba();
        assert_eq!(pixel(&img, x, y), (rgba.red, rgba.green, rgba.blue, rgba.alpha));
    }
}

#[test]
fn mirror_shows_the_wall_behind_the_camera() {
    // A perfect mirror in front of a red diffuse wall: the pixel
    // hitting the mirror's center returns the wall's lit red.
    let mirror = Material {
        coloration: Coloration::Color(Color::new(ONE, ONE, ONE)),
        albedo: ONE,
        surface: SurfaceType::Reflective { reflectivity: ONE },
    };
    let scene = Scene {
        width: 3,
        height: 3,
        fov: fx(90.0),
        elements: vec![
            sphere(0.0, 0.0, -3.0, 1.0, mirror),
            Element::Plane(Plane {
                origin: Point::new(0, 0, fx(2.0)),
                normal: Vector3 { x: 0, y: 0, z: ONE },
                material: diffuse(Color::new(ONE, 0, 0)),
            }),
        ],
        lights: vec![Light::Spherical(SphericalLight {
            position: Point::new(0, 0, fx(1.5)),
            color: Color::new(ONE, ONE, ONE),
            intensity: fx(16.0 * std::f64::consts::PI),
        })],
        shadow_bias: fx(0.01),
        max_recursion_depth: 5,
    };
    let img = scene.render();
    let (r, g, b, _) = pixel(&img, 1, 1);
    assert!(r > 150, "mirrored wall red {r}");
    assert_eq!(g, 0);
    assert_eq!(b, 0);
    // Corner rays miss both the sphere and the one-sided wall.
    assert_eq!(pixel(&img, 0, 0), (0, 0, 0, 0));
}

#[test]
fn glass_ball_passes_the_wall_color_through() {
    // A refractive ball (index 1.5, transparency 1) in front of a lit
    // green wall: the central pixel's green channel is non-zero, from
    // light transmitted through the ball.
    let glass = Material {
        coloration: Coloration::Color(Color::new(ONE, ONE, ONE)),
        albedo: ONE,
        surface: SurfaceType::Refractive { index: fx(1.5), transparency: ONE },
    };
    let scene = Scene {
        width: 3,
        height: 3,
        fov: fx(90.0),
        elements: vec![
            sphere(0.0, 0.0, -3.0, 1.0, glass),
            Element::Plane(Plane {
                origin: Point::new(0, 0, fx(-6.0)),
                normal: Vector3 { x: 0, y: 0, z: -ONE },
                material: diffuse(Color::new(0, ONE, 0)),
            }),
        ],
        lights: vec![Light::Spherical(SphericalLight {
            position: Point::new(0, 0, fx(-4.5)),
            color: Color::new(ONE, ONE, ONE),
            intensity: fx(88.83),
        })],
        shadow_bias: fx(0.01),
        max_recursion_depth: 6,
    };
    let img = scene.render();
    let (r, g, _b, _) = pixel(&img, 1, 1);
    assert!(g > 80, "transmitted green {g}");
    assert_eq!(r, 0);
}

#[test]
fn trace_picks_the_nearest_element() {
    // The nearer sphere stands second in the list; distance wins.
    let scene = Scene {
        width: 3,
        height: 3,
        fov: fx(90.0),
        elements: vec![
            sphere(0.0, 0.0, -9.0, 1.0, diffuse(Color::new(ONE, 0, 0))),
            sphere(0.0, 0.0, -5.0, 1.0, diffuse(Color::new(0, ONE, 0))),
        ],
        lights: vec![],
        shadow_bias: fx(0.01),
        max_recursion_depth: 1,
    };
    let ray = Ray {
        origin: Point::zero(),
        direction: Vector3 { x: 0, y: 0, z: -ONE },
    };
    let hit = scene.trace(&ray).expect("the ray runs through both spheres");
    assert_eq!(hit.element, 1);
    assert_eq!(hit.distance, fx(4.0));
}

#[test]
fn trace_breaks_ties_by_insertion_order() {
    // Two coincident spheres: the earlier one keeps the hit.
    let scene = Scene {
        width: 3,
        height: 3,
        fov: fx(90.0),
        elements: vec![
            sphere(0.0, 0.0, -5.0, 1.0, diffuse(Color::new(ONE, 0, 0))),
            sphere(0.0, 0.0, -5.0, 1.0, diffuse(Color::new(0, ONE, 0))),
        ],
        lights: vec![],
        shadow_bias: fx(0.01),
        max_recursion_depth: 1,
    };
    let ray = Ray {
        origin: Point::zero(),
        direction: Vector3 { x: 0, y: 0, z: -ONE },
    };
    let hit = scene.trace(&ray).expect("the ray runs through both spheres");
    assert_eq!(hit.element, 0);
    assert_eq!(hit.distance, fx(4.0));
}

#[test]
fn textured_wall_renders_through_the_full_pipeline() {
    // A one-cell green texture on a plane facing the camera: the
    // center pixel takes its color from the decoded texture.
    let textured = Material {
        coloration: Coloration::Texture(TextureData {
            width: 1,
            height: 1,
            pixels: vec![Rgba8 { red: 0, green: 255, blue: 0, alpha: 0 }],
        }),
        albedo: ONE,
        surface: SurfaceType::Diffuse,
    };
    let scene = Scene {
        width: 3,
        height: 3,
        fov: fx(90.0),
        elements: vec![Element::Plane(Plane {
            origin: Point::new(0, 0, fx(-4.0)),
            normal: Vector3 { x: 0, y: 0, z: -ONE },
            material: textured,
        })],
        lights: vec![Light::Directional(DirectionalLight {
            direction: Vector3 { x: 0, y: 0, z: -ONE },
            color: Color::new(ONE, ONE, ONE),
            intensity: fx(std::f64::consts::PI),
        })],
        shadow_bias: fx(0.01),
        max_recursion_depth: 1,
    };
    let img = scene.render();
    let (r, g, b, _) = pixel(&img, 1, 1);
    assert!(g > 200, "textured green {g}");
    assert_eq!(r, 0);
    assert_eq!(b, 0);
}

#[test]
fn nearer_sphere_casts_a_shadow_on_the_farther_one() {
    // A small sphere hangs between the sun and the big one: the big
    // sphere's top pixel is occluded and black, while a neighbouring
    // column, clear of the occluder, stays lit.
    let scene = Scene {
        width: 9,
        height: 9,
        fov: fx(30.0),
        elements: vec![
            sphere(0.0, 0.0, -5.0, 1.0, diffuse(Color::new(ONE, 0, 0))),
            sphere(0.0, 3.0, -4.37, 0.15, diffuse(Color::new(ONE, 0, 0))),
        ],
        lights: vec![overhead_sun()],
        shadow_bias: fx(0.01),
        max_recursion_depth: 1,
    };
    let img = scene.render();
    // Occluded: straight under the small sphere.
    assert_eq!(pixel(&img, 4, 1), (0, 0, 0, 0));
    // Lit: one column to the side.
    let (r, _, _, _) = pixel(&img, 3, 1);
    assert!(r > 120, "lit neighbour red {r}");
}

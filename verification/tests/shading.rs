//! Lights, Fresnel reflectance, reflection and refraction rays.

use raytracer::entities::{DirectionalLight, Light, SphericalLight};
use raytracer::color::Color;
use raytracer::fixed::ONE;
use raytracer::point::Point;
use raytracer::rendering::{fresnel, Ray};
use raytracer::vector::Vector3;

fn fx(v: f64) -> i64 {
    (v * 65536.0).round() as i64
}

fn fl(v: i64) -> f64 {
    v as f64 / 65536.0
}

fn vlen(v: &Vector3) -> f64 {
    (fl(v.x).powi(2) + fl(v.y).powi(2) + fl(v.z).powi(2)).sqrt()
}

#[test]
fn directional_light_is_uniform() {
    let l = Light::Directional(DirectionalLight {
        direction: Vector3 { x: 0, y: -ONE, z: 0 },
        color: Color::new(ONE, ONE, ONE),
        intensity: fx(2.0),
    });
    let p = Point::new(fx(3.0), 0, fx(-7.0));
    let d = l.direction_from(&p);
    assert_eq!(d.x, 0);
    assert_eq!(d.y, ONE);
    assert_eq!(d.z, 0);
    assert_eq!(l.intensity(&p), fx(2.0));
    assert_eq!(l.distance(&p), i64::MAX);
}

#[test]
fn spherical_light_follows_inverse_square_law() {
    let l = Light::Spherical(SphericalLight {
        position: Point::zero(),
        color: Color::new(ONE, ONE, ONE),
        intensity: fx(16.0 * std::f64::consts::PI),
    });
    let p = Point::new(0, 0, fx(-2.0));
    // intensity / (4 pi r^2) with r = 2: 16 pi / (16 pi) = 1.
    assert!((l.intensity(&p) - ONE).abs() < 50, "intensity {}", l.intensity(&p));
    assert!((l.distance(&p) - fx(2.0)).abs() < 10);
    let d = l.direction_from(&p);
    assert!((fl(d.z) - 1.0).abs() < 3e-4);
}

#[test]
fn fresnel_at_normal_incidence() {
    // Air to glass head-on: kr = ((1.5 - 1)/(1.5 + 1))^2 = 0.04.
    let kr = fresnel(
        Vector3 { x: 0, y: 0, z: -ONE },
        Vector3 { x: 0, y: 0, z: ONE },
        fx(1.5),
    );
    assert_eq!(kr, 2621);
}

#[test]
fn fresnel_under_total_internal_reflection() {
    // Leaving glass at a grazing angle: everything reflects.
    let incident = Vector3 { x: fx(0.9), y: 0, z: fx(-0.436) }.normalize();
    let kr = fresnel(incident, Vector3 { x: 0, y: 0, z: -ONE }, fx(1.5));
    assert_eq!(kr, ONE);
}

#[test]
fn reflection_mirrors_about_the_normal() {
    let incident = Vector3 { x: fx(1.0), y: 0, z: fx(-1.0) }.normalize();
    let normal = Vector3 { x: 0, y: 0, z: ONE };
    let r = Ray::create_reflection(normal, incident, Point::zero(), fx(0.001));
    // The x component is kept, the z component is flipped.
    assert!((fl(r.direction.x) - fl(incident.x)).abs() < 1e-3);
    assert!((fl(r.direction.z) + fl(incident.z)).abs() < 1e-3);
    // The origin is pushed along the normal.
    assert!(r.origin.z > 0);
    // The reflected direction is unit length.
    assert!((vlen(&r.direction) - 1.0).abs() < 1e-3);
}

#[test]
fn refraction_obeys_snells_law() {
    // A ray entering glass at 45 degrees: sin(theta_t) * 1.5 must give
    // back sin(theta_i), within the resolution of the arithmetic.
    let incident = Vector3 { x: ONE, y: 0, z: -ONE }.normalize();
    let normal = Vector3 { x: 0, y: 0, z: ONE };
    let t = Ray::create_transmission(normal, incident, Point::zero(), fx(0.001), fx(1.5))
        .expect("no total internal reflection entering glass");
    let sin_i = fl(incident.x).abs() / vlen(&incident);
    let sin_t = fl(t.direction.x).abs() / vlen(&t.direction);
    assert!((sin_t * 1.5 - sin_i).abs() < 2e-3, "sin_t {sin_t} sin_i {sin_i}");
    // The transmitted direction is unit length.
    assert!((vlen(&t.direction) - 1.0).abs() < 2e-3);
    // The transmitted ray starts on the far side of the surface.
    assert!(t.origin.z < 0);
}

#[test]
fn refraction_straight_through_is_unchanged() {
    let incident = Vector3 { x: 0, y: 0, z: -ONE };
    let normal = Vector3 { x: 0, y: 0, z: ONE };
    let t = Ray::create_transmission(normal, incident, Point::zero(), fx(0.001), fx(1.5))
        .expect("head-on entry refracts");
    assert_eq!(t.direction.x, 0);
    assert_eq!(t.direction.y, 0);
    assert_eq!(t.direction.z, -ONE);
}

#[test]
fn total_internal_reflection_yields_no_ray() {
    // Leaving glass at a grazing angle: k < 0, no transmitted ray.
    let incident = Vector3 { x: fx(0.9), y: 0, z: fx(-0.436) }.normalize();
    let normal = Vector3 { x: 0, y: 0, z: -ONE };
    let t = Ray::create_transmission(normal, incident, Point::zero(), fx(0.001), fx(1.5));
    assert!(t.is_none());
}

#[test]
fn default_ray_is_degenerate() {
    let r = Ray::default();
    assert_eq!(r.origin.x, 0);
    assert_eq!(r.direction.z, 0);
}

//! The fixed-point kernel and the color model.

use raytracer::color::{Color, Rgba8};
use raytracer::fixed::{
    fx_add, fx_clamp01, fx_div, fx_floor, fx_mul, fx_neg, fx_sqrt, mod_u32, ONE,
};
use raytracer::texture::{wrap, TextureData};

fn fx(v: f64) -> i64 {
    (v * 65536.0).round() as i64
}

#[test]
fn multiplication_is_scaled() {
    assert_eq!(fx_mul(fx(1.5), fx(2.0)), fx(3.0));
    assert_eq!(fx_mul(fx(-1.5), fx(2.0)), fx(-3.0));
    assert_eq!(fx_mul(fx(0.5), fx(0.5)), fx(0.25));
    assert_eq!(fx_mul(0, 123456), 0);
}

#[test]
fn division_is_scaled_and_total() {
    assert_eq!(fx_div(fx(3.0), fx(2.0)), fx(1.5));
    assert_eq!(fx_div(fx(-3.0), fx(2.0)), fx(-1.5));
    assert_eq!(fx_div(fx(5.0), 0), 0);
}

#[test]
fn square_root_is_exact_on_squares() {
    assert_eq!(fx_sqrt(fx(4.0)), fx(2.0));
    assert_eq!(fx_sqrt(ONE), ONE);
    assert_eq!(fx_sqrt(0), 0);
    assert_eq!(fx_sqrt(-ONE), 0);
}

#[test]
fn addition_saturates() {
    assert_eq!(fx_add(i64::MAX, ONE), i64::MAX);
    assert_eq!(fx_add(i64::MIN, -ONE), i64::MIN);
    assert_eq!(fx_neg(i64::MIN), i64::MAX);
}

#[test]
fn clamping_projects_into_unit_interval() {
    assert_eq!(fx_clamp01(-5), 0);
    assert_eq!(fx_clamp01(70000), ONE);
    assert_eq!(fx_clamp01(30000), 30000);
}

#[test]
fn floor_rounds_toward_negative_infinity() {
    assert_eq!(fx_floor(fx(1.5)), 1);
    assert_eq!(fx_floor(fx(-1.5)), -2);
    assert_eq!(fx_floor(0), 0);
    assert_eq!(fx_floor(-1), -1);
}

#[test]
fn remainder_is_euclidean() {
    assert_eq!(mod_u32(7, 4), 3);
    assert_eq!(mod_u32(-3, 4), 1);
    assert_eq!(mod_u32(-8, 4), 0);
}

#[test]
fn wrap_shifts_negative_coordinates() {
    // floor(-0.25 * 4) = -1, and -1 mod 4 = 3.
    assert_eq!(wrap(fx(-0.25), 4), 3);
    assert_eq!(wrap(fx(0.25), 4), 1);
    assert_eq!(wrap(fx(1.25), 4), 1);
}

#[test]
fn gamma_encoding_is_square_root() {
    let c = Color::new(ONE, 0, fx(0.25));
    let p = c.to_rgba();
    assert_eq!(p.red, 255);
    assert_eq!(p.green, 0);
    // sqrt(0.25) = 0.5, and floor(0.5 * 255) = 127.
    assert_eq!(p.blue, 127);
    assert_eq!(p.alpha, 0);
}

#[test]
fn gamma_decoding_is_square() {
    let c = Color::from_rgba(Rgba8 { red: 255, green: 0, blue: 0, alpha: 0 });
    assert_eq!(c.red, ONE);
    assert_eq!(c.green, 0);
    let mid = Color::from_rgba(Rgba8 { red: 128, green: 0, blue: 0, alpha: 0 });
    // (128/255)^2 is about 0.252.
    assert!((mid.red - fx(0.252)).abs() < 200);
}

#[test]
fn color_clamp_is_componentwise() {
    let c = Color::new(-5, 70000, 30000).clamp();
    assert_eq!(c.red, 0);
    assert_eq!(c.green, ONE);
    assert_eq!(c.blue, 30000);
}

#[test]
fn color_arithmetic_is_componentwise() {
    let a = Color::new(fx(0.5), fx(0.25), ONE);
    let b = Color::new(fx(0.5), fx(2.0), 0);
    let s = a.add(b);
    assert_eq!(s.red, ONE);
    assert_eq!(s.green, fx(2.25));
    assert_eq!(s.blue, ONE);
    let m = a.mul(b);
    assert_eq!(m.red, fx(0.25));
    assert_eq!(m.green, fx(0.5));
    assert_eq!(m.blue, 0);
    let k = a.scale(fx(2.0));
    assert_eq!(k.red, ONE);
}

#[test]
fn texture_lookup_wraps_and_decodes() {
    // A 2x1 grid: a full-red cell and a full-green cell.
    let tex = TextureData {
        width: 2,
        height: 1,
        pixels: vec![
            Rgba8 { red: 255, green: 0, blue: 0, alpha: 0 },
            Rgba8 { red: 0, green: 255, blue: 0, alpha: 0 },
        ],
    };
    assert_eq!(tex.get_pixel(0, 0).red, 255);
    assert_eq!(tex.get_pixel(1, 0).green, 255);
    // u = 0.75 lands in the second cell; u = -0.9 wraps into the first.
    assert_eq!(wrap(fx(0.75), 2), 1);
    assert_eq!(wrap(fx(-0.9), 2), 0);
}

//! Fixed-point trigonometry for the camera and for sphere UV mapping.
//!
//! The tangent comes from degree-7 Taylor polynomials for sine and
//! cosine on [0, pi/4] with the complement identity above pi/4.  The
//! arctangent uses the quarter-turn approximation
//! `atan(t) ~ (pi/4)t + 0.273 t (1 - t)` on [0, 1] with octant
//! reduction, and the arccosine is derived from it.  Angles produced by
//! `atan2pi` and `acospi` are scaled by 1/pi, so a half turn is 1.0.

use vstd::prelude::*;
use crate::fixed::{
    ONE, PI_FX, abs_spec, add_spec, div_spec, mul_spec, neg_spec, sqrt_spec, sub_spec, fx_abs,
    fx_add, fx_div, fx_mul, fx_neg, fx_sqrt, fx_sub,
};

verus! {

/// The fixed-point representation of pi/2.
pub const HALF_PI_FX: i64 = 102944;

/// The fixed-point representation of pi/4.
pub const QUARTER_PI_FX: i64 = 51472;

/// The fixed-point representation of 360 degrees.
pub const DEG360_FX: i64 = 23592960;

/// The coefficient 0.273/pi of the arctangent approximation.
pub const ATAN_C: i64 = 5695;

/// Degree-7 Taylor polynomial of sine on [0, pi/4].
pub open spec fn sin_poly_spec(x: int) -> int {
    let x2 = (x * x) / 65536;
    let x3 = (x2 * x) / 65536;
    let x5 = (x3 * x2) / 65536;
    let x7 = (x5 * x2) / 65536;
    x - x3 / 6 + x5 / 120 - x7 / 5040
}

/// Degree-6 Taylor polynomial of cosine on [0, pi/4].
pub open spec fn cos_poly_spec(x: int) -> int {
    let x2 = (x * x) / 65536;
    let x4 = (x2 * x2) / 65536;
    let x6 = (x4 * x2) / 65536;
    65536 - x2 / 2 + x4 / 24 - x6 / 720
}

/// Tangent of an angle in radians, clamped into [0, pi/2).
pub open spec fn tan_spec(rad: int) -> int {
    let r = if rad < 0 {
        0
    } else if rad >= HALF_PI_FX as int {
        HALF_PI_FX as int - 1
    } else {
        rad
    };
    if r <= QUARTER_PI_FX as int {
        div_spec(sin_poly_spec(r), cos_poly_spec(r))
    } else {
        let c = HALF_PI_FX as int - r;
        div_spec(cos_poly_spec(c), sin_poly_spec(c))
    }
}

/// The tangent of half the given angle in degrees: `tan(deg * pi / 360)`.
pub open spec fn tan_half_deg_spec(deg: int) -> int {
    tan_spec(div_spec(mul_spec(deg, PI_FX as int), DEG360_FX as int))
}

/// The arctangent approximation on [0, 1], scaled by 1/pi.
pub open spec fn atan_frac_spec(t: int) -> int {
    mul_spec(t, add_spec(16384, mul_spec(ATAN_C as int, sub_spec(ONE as int, t))))
}

/// The angle of the direction (x, y) from the positive x axis, scaled
/// by 1/pi, in [-1, 1]; the zero direction yields 0.
pub open spec fn atan2pi_spec(y: int, x: int) -> int {
    if y == 0 && x == 0 {
        0
    } else {
        let ay = abs_spec(y);
        let ax = abs_spec(x);
        let base = if ax >= ay {
            let a = atan_frac_spec(div_spec(ay, ax));
            if x >= 0 {
                a
            } else {
                sub_spec(ONE as int, a)
            }
        } else {
            let a = atan_frac_spec(div_spec(ax, ay));
            if x >= 0 {
                sub_spec(32768, a)
            } else {
                add_spec(32768, a)
            }
        };
        if y < 0 {
            neg_spec(base)
        } else {
            base
        }
    }
}

/// The arccosine of a scalar clamped into [-1, 1], scaled by 1/pi.
pub open spec fn acospi_spec(t: int) -> int {
    let c = if t < -(ONE as int) {
        -(ONE as int)
    } else if t > ONE as int {
        ONE as int
    } else {
        t
    };
    let s = sqrt_spec(sub_spec(ONE as int, mul_spec(c, c)));
    atan2pi_spec(s, c)
}

/// Degree-7 Taylor polynomial of sine on [0, pi/4].
fn sin_poly(x: i64) -> (r: i64)
    requires
        0 <= x <= QUARTER_PI_FX,
    ensures
        r as int == sin_poly_spec(x as int),
{
    let xu = x as u64;
    proof {
        lemma_mul_div_bound(xu as int, 65536, xu as int, 65536);
    }
    let x2 = (xu * xu) / 65536;
    proof {
        lemma_mul_div_bound(x2 as int, 65536, xu as int, 65536);
    }
    let x3 = (x2 * xu) / 65536;
    proof {
        lemma_mul_div_bound(x3 as int, 65536, x2 as int, 65536);
    }
    let x5 = (x3 * x2) / 65536;
    proof {
        lemma_mul_div_bound(x5 as int, 65536, x2 as int, 65536);
    }
    let x7 = (x5 * x2) / 65536;
    proof {
        lemma_shrink(x2 as int, xu as int);
        lemma_shrink(x2 as int, x5 as int);
        vstd::arithmetic::div_mod::lemma_div_nonincreasing(x3 as int, 6);
        vstd::arithmetic::div_mod::lemma_div_is_ordered(x7 as int, x5 as int, 5040);
        vstd::arithmetic::div_mod::lemma_div_is_ordered_by_denominator(x5 as int, 120, 5040);
    }
    (xu + x5 / 120 - x3 / 6 - x7 / 5040) as i64
}

/// For values in [0, ab] and [0, bb], the product and its scaled-down
/// quotient stay within the folded constant bounds.
proof fn lemma_mul_div_bound(a: int, ab: int, b: int, bb: int)
    requires
        0 <= a <= ab,
        0 <= b <= bb,
    ensures
        0 <= a * b <= ab * bb,
        0 <= (a * b) / 65536 <= (ab * bb) / 65536,
{
    vstd::arithmetic::mul::lemma_mul_upper_bound(a, ab, b, bb);
    vstd::arithmetic::mul::lemma_mul_nonnegative(a, b);
    vstd::arithmetic::div_mod::lemma_div_is_ordered(a * b, ab * bb, 65536);
    vstd::arithmetic::div_mod::lemma_div_pos_is_pos(a * b, 65536);
}

/// Degree-6 Taylor polynomial of cosine on [0, pi/4].
fn cos_poly(x: i64) -> (r: i64)
    requires
        0 <= x <= QUARTER_PI_FX,
    ensures
        r as int == cos_poly_spec(x as int),
{
    let xu = x as u64;
    proof {
        lemma_mul_div_bound(xu as int, 51472, xu as int, 51472);
    }
    let x2 = (xu * xu) / 65536;
    proof {
        lemma_mul_div_bound(x2 as int, 65536, x2 as int, 65536);
    }
    let x4 = (x2 * x2) / 65536;
    proof {
        lemma_mul_div_bound(x4 as int, 65536, x2 as int, 65536);
    }
    let x6 = (x4 * x2) / 65536;
    proof {
        lemma_shrink(x2 as int, x4 as int);
        vstd::arithmetic::div_mod::lemma_div_is_ordered(x6 as int, x4 as int, 720);
        vstd::arithmetic::div_mod::lemma_div_is_ordered_by_denominator(x4 as int, 24, 720);
    }
    (65536 + x4 / 24 - x2 / 2 - x6 / 720) as i64
}

/// For `0 <= f <= 65536` and `0 <= a`, the scaled product `(f * a) / 65536`
/// does not exceed `a`.
proof fn lemma_shrink(f: int, a: int)
    requires
        0 <= f <= 65536,
        0 <= a,
    ensures
        0 <= (f * a) / 65536 <= a,
{
    vstd::arithmetic::mul::lemma_mul_inequality(f, 65536, a);
    vstd::arithmetic::div_mod::lemma_div_is_ordered(f * a, 65536 * a, 65536);
    vstd::arithmetic::div_mod::lemma_div_multiples_vanish(a, 65536);
    vstd::arithmetic::mul::lemma_mul_nonnegative(f, a);
    vstd::arithmetic::div_mod::lemma_div_pos_is_pos(f * a, 65536);
}

/// Tangent of an angle in radians, clamped into [0, pi/2).
pub fn tan_fx(rad: i64) -> (r: i64)
    ensures
        r as int == tan_spec(rad as int),
{
    let t = if rad < 0 {
        0
    } else if rad >= HALF_PI_FX {
        HALF_PI_FX - 1
    } else {
        rad
    };
    if t <= QUARTER_PI_FX {
        fx_div(sin_poly(t), cos_poly(t))
    } else {
        let c = HALF_PI_FX - t;
        fx_div(cos_poly(c), sin_poly(c))
    }
}

/// The tangent of half the given angle in degrees.
pub fn tan_half_deg(deg: i64) -> (r: i64)
    ensures
        r as int == tan_half_deg_spec(deg as int),
{
    tan_fx(fx_div(fx_mul(deg, PI_FX), DEG360_FX))
}

/// The arctangent approximation on [0, 1], scaled by 1/pi.
fn atan_frac(t: i64) -> (r: i64)
    ensures
        r as int == atan_frac_spec(t as int),
{
    fx_mul(t, fx_add(16384, fx_mul(ATAN_C, fx_sub(65536, t))))
}

/// The angle of the direction (x, y) from the positive x axis, scaled
/// by 1/pi, in [-1, 1]; the zero direction yields 0.
pub fn atan2pi(y: i64, x: i64) -> (r: i64)
    ensures
        r as int == atan2pi_spec(y as int, x as int),
{
    if y == 0 && x == 0 {
        return 0;
    }
    let ay = fx_abs(y);
    let ax = fx_abs(x);
    let base = if ax >= ay {
        let a = atan_frac(fx_div(ay, ax));
        if x >= 0 {
            a
        } else {
            fx_sub(65536, a)
        }
    } else {
        let a = atan_frac(fx_div(ax, ay));
        if x >= 0 {
            fx_sub(32768, a)
        } else {
            fx_add(32768, a)
        }
    };
    if y < 0 {
        fx_neg(base)
    } else {
        base
    }
}

/// The arccosine of a scalar clamped into [-1, 1], scaled by 1/pi.
pub fn acospi(t: i64) -> (r: i64)
    ensures
        r as int == acospi_spec(t as int),
{
    let c = if t < -65536 {
        -65536
    } else if t > 65536 {
        65536
    } else {
        t
    };
    let s = fx_sqrt(fx_sub(65536, fx_mul(c, c)));
    atan2pi(s, c)
}

} // verus!

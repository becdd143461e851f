//! Q16.16 fixed-point scalar arithmetic.
//!
//! Every scalar of the renderer is an `i64` holding `value * 65536`.
//! Each operation is saturating: results outside the `i64` range are
//! clipped to the nearest representable value.  Every executable
//! operation is pinned exactly to a mathematical model over `int`,
//! so the whole shading pipeline is a pure function of its inputs.

use vstd::prelude::*;

verus! {

/// The fixed-point representation of 1.0.
pub const ONE: i64 = 65536;

/// The fixed-point representation of 1/2.
pub const HALF: i64 = 32768;

/// The fixed-point representation of pi.
pub const PI_FX: i64 = 205887;

/// The fixed-point representation of 4*pi.
pub const FOUR_PI_FX: i64 = 823550;

/// Magnitude of `x`.
pub open spec fn mag(x: int) -> int {
    if x < 0 {
        -x
    } else {
        x
    }
}

/// Saturation into the `i64` range.
pub open spec fn clip(x: int) -> int {
    if x > i64::MAX as int {
        i64::MAX as int
    } else if x < i64::MIN as int {
        i64::MIN as int
    } else {
        x
    }
}

/// Saturating fixed-point addition.
pub open spec fn add_spec(a: int, b: int) -> int {
    clip(a + b)
}

/// Saturating fixed-point subtraction.
pub open spec fn sub_spec(a: int, b: int) -> int {
    clip(a - b)
}

/// Saturating fixed-point negation.
pub open spec fn neg_spec(a: int) -> int {
    clip(-a)
}

/// Fixed-point product: the magnitudes are multiplied, scaled down by
/// 65536 rounding toward zero, and the sign follows the rule of signs.
pub open spec fn mul_spec(a: int, b: int) -> int {
    let m = (mag(a) * mag(b)) / (ONE as int);
    if (a < 0) != (b < 0) {
        clip(-m)
    } else {
        clip(m)
    }
}

/// Fixed-point quotient, rounding toward zero; division by zero yields 0.
pub open spec fn div_spec(a: int, b: int) -> int {
    if b == 0 {
        0
    } else {
        let m = (mag(a) * (ONE as int)) / mag(b);
        if (a < 0) != (b < 0) {
            clip(-m)
        } else {
            clip(m)
        }
    }
}

/// Integer square root: the greatest `r` with `r * r <= n`.
pub open spec fn sqrt_floor(n: nat) -> nat
    decreases n,
{
    if n == 0 {
        0
    } else {
        let s = sqrt_floor((n - 1) as nat);
        if (s + 1) * (s + 1) <= n {
            s + 1
        } else {
            s
        }
    }
}

/// Fixed-point square root; nonpositive arguments yield 0.
pub open spec fn sqrt_spec(a: int) -> int {
    if a <= 0 {
        0
    } else {
        sqrt_floor((a * (ONE as int)) as nat) as int
    }
}

/// The smaller of two scalars.
pub open spec fn min_spec(a: int, b: int) -> int {
    if a < b {
        a
    } else {
        b
    }
}

/// The larger of two scalars.
pub open spec fn max_spec(a: int, b: int) -> int {
    if a > b {
        a
    } else {
        b
    }
}

/// Saturating magnitude.
pub open spec fn abs_spec(a: int) -> int {
    clip(mag(a))
}

/// Projection into [0, 1].
pub open spec fn clamp01_spec(a: int) -> int {
    if a < 0 {
        0
    } else if a > ONE as int {
        ONE as int
    } else {
        a
    }
}

proof fn lemma_sqrt_floor_bounds(n: nat)
    ensures
        sqrt_floor(n) * sqrt_floor(n) <= n,
        n < (sqrt_floor(n) + 1) * (sqrt_floor(n) + 1),
    decreases n,
{
    if n == 0 {
        assert(sqrt_floor(0) == 0);
        assert(0 < (0 + 1) * (0 + 1)) by (nonlinear_arith);
    } else {
        lemma_sqrt_floor_bounds((n - 1) as nat);
        let s = sqrt_floor((n - 1) as nat);
        assert(s * s <= n - 1);
        assert(n - 1 < (s + 1) * (s + 1));
        if (s + 1) * (s + 1) <= n {
            assert(sqrt_floor(n) == s + 1);
            assert(n <= (s + 1) * (s + 1));
            assert((s + 1) * (s + 1) < (s + 1 + 1) * (s + 1 + 1)) by (nonlinear_arith);
            assert(n < (sqrt_floor(n) + 1) * (sqrt_floor(n) + 1));
        } else {
            assert(sqrt_floor(n) == s);
            assert(n < (s + 1) * (s + 1));
        }
    }
}

proof fn lemma_sqrt_floor_unique(n: nat, r: nat)
    requires
        r * r <= n,
        n < (r + 1) * (r + 1),
    ensures
        r == sqrt_floor(n),
{
    let s = sqrt_floor(n);
    lemma_sqrt_floor_bounds(n);
    if r < s {
        assert((r + 1) * (r + 1) <= s * s) by (nonlinear_arith)
            requires
                r + 1 <= s,
        ;
    }
    if s < r {
        assert((s + 1) * (s + 1) <= r * r) by (nonlinear_arith)
            requires
                s + 1 <= r,
        ;
    }
}

/// A square root of a scalar in [0, 1] stays in [0, 1].
pub proof fn lemma_sqrt_spec_le_one(a: int)
    requires
        0 <= a <= ONE as int,
    ensures
        0 <= sqrt_spec(a) <= ONE as int,
{
    if a > 0 {
        let n = (a * (ONE as int)) as nat;
        lemma_sqrt_floor_bounds(n);
        if sqrt_floor(n) > 65536 {
            assert(sqrt_floor(n) * sqrt_floor(n) > 65536 * 65536) by (nonlinear_arith)
                requires
                    sqrt_floor(n) > 65536,
            ;
        }
    }
}

/// A square root of a positive scalar is positive.
pub proof fn lemma_sqrt_spec_pos(a: int)
    requires
        a > 0,
    ensures
        sqrt_spec(a) > 0,
{
    let n = (a * (ONE as int)) as nat;
    lemma_sqrt_floor_bounds(n);
    let s = sqrt_floor(n);
    assert(n >= 65536);
    assert(n < (s + 1) * (s + 1));
    if s == 0 {
        assert((s + 1) * (s + 1) == 1) by (nonlinear_arith)
            requires
                s == 0nat,
        ;
        assert(false);
    }
}

/// The square root of a representable scalar is far below saturation.
pub proof fn lemma_sqrt_spec_range(a: int)
    requires
        a <= i64::MAX as int,
    ensures
        0 <= sqrt_spec(a) < 0x10000000000,
{
    if a > 0 {
        let n = (a * (ONE as int)) as nat;
        lemma_sqrt_floor_bounds(n);
        if sqrt_floor(n) >= 0x10000000000nat {
            assert(sqrt_floor(n) * sqrt_floor(n) >= 0x10000000000int * 0x10000000000int)
                by (nonlinear_arith)
                requires
                    sqrt_floor(n) >= 0x10000000000nat,
            ;
        }
    }
}

/// Saturation of an `i128` intermediate into an `i64`.
fn clip128(x: i128) -> (r: i64)
    ensures
        r as int == clip(x as int),
{
    if x > i64::MAX as i128 {
        i64::MAX
    } else if x < i64::MIN as i128 {
        i64::MIN
    } else {
        x as i64
    }
}

/// Saturating addition.
pub fn fx_add(a: i64, b: i64) -> (r: i64)
    ensures
        r as int == add_spec(a as int, b as int),
{
    clip128(a as i128 + b as i128)
}

/// Saturating subtraction.
pub fn fx_sub(a: i64, b: i64) -> (r: i64)
    ensures
        r as int == sub_spec(a as int, b as int),
{
    clip128(a as i128 - b as i128)
}

/// Saturating negation.
pub fn fx_neg(a: i64) -> (r: i64)
    ensures
        r as int == neg_spec(a as int),
{
    clip128(-(a as i128))
}

/// Saturating fixed-point multiplication.
pub fn fx_mul(a: i64, b: i64) -> (r: i64)
    ensures
        r as int == mul_spec(a as int, b as int),
{
    let ai = a as i128;
    let bi = b as i128;
    let ma: u128 = if ai < 0 {
        (-ai) as u128
    } else {
        ai as u128
    };
    let mb: u128 = if bi < 0 {
        (-bi) as u128
    } else {
        bi as u128
    };
    assert(ma * mb <= 0x8000000000000000u128 as int * 0x8000000000000000u128 as int)
        by (nonlinear_arith)
        requires
            ma <= 0x8000000000000000u128,
            mb <= 0x8000000000000000u128,
    ;
    let m: u128 = (ma * mb) / 65536;
    if (a < 0) != (b < 0) {
        clip128(-(m as i128))
    } else {
        if m > i64::MAX as u128 {
            i64::MAX
        } else {
            m as i64
        }
    }
}

/// Saturating fixed-point division; a zero divisor yields 0.
pub fn fx_div(a: i64, b: i64) -> (r: i64)
    ensures
        r as int == div_spec(a as int, b as int),
{
    if b == 0 {
        return 0;
    }
    let ai = a as i128;
    let bi = b as i128;
    let ma: u128 = if ai < 0 {
        (-ai) as u128
    } else {
        ai as u128
    };
    let mb: u128 = if bi < 0 {
        (-bi) as u128
    } else {
        bi as u128
    };
    let m: u128 = (ma * 65536) / mb;
    if (a < 0) != (b < 0) {
        clip128(-(m as i128))
    } else {
        if m > i64::MAX as u128 {
            i64::MAX
        } else {
            m as i64
        }
    }
}

/// Integer square root by binary search.
fn isqrt(n: u128) -> (r: u64)
    requires
        n < 0x100000000000000000000u128,
    ensures
        r as nat == sqrt_floor(n as nat),
{
    let mut lo: u64 = 0;
    let mut hi: u64 = 0x10000000000u64;
    proof {
        assert((0x10000000000int + 1) * (0x10000000000int + 1) > 0x100000000000000000000int)
            by (nonlinear_arith);
    }
    while lo < hi
        invariant
            lo <= hi,
            hi <= 0x10000000000u64,
            (lo as nat) * (lo as nat) <= n as nat,
            (n as nat) < ((hi + 1) as nat) * ((hi + 1) as nat),
        decreases hi - lo,
    {
        let mid: u64 = lo + (hi - lo + 1) / 2;
        assert((mid as u128) * (mid as u128) <= 0x10000000000u128 as int * 0x10000000000u128 as int)
            by (nonlinear_arith)
            requires
                mid <= 0x10000000000u64,
        ;
        if (mid as u128) * (mid as u128) <= n {
            lo = mid;
        } else {
            hi = mid - 1;
        }
    }
    proof {
        lemma_sqrt_floor_unique(n as nat, lo as nat);
    }
    lo
}

/// Fixed-point square root.
pub fn fx_sqrt(a: i64) -> (r: i64)
    ensures
        r as int == sqrt_spec(a as int),
{
    if a <= 0 {
        return 0;
    }
    let n: u128 = (a as u128) * 65536;
    let s = isqrt(n);
    proof {
        lemma_sqrt_floor_bounds(n as nat);
        assert(sqrt_floor(n as nat) < 0x10000000000nat) by {
            if sqrt_floor(n as nat) >= 0x10000000000nat {
                assert(sqrt_floor(n as nat) * sqrt_floor(n as nat)
                    >= 0x10000000000int * 0x10000000000int) by (nonlinear_arith)
                    requires
                        sqrt_floor(n as nat) >= 0x10000000000nat,
                ;
            }
        }
    }
    s as i64
}

/// Saturating magnitude.
pub fn fx_abs(a: i64) -> (r: i64)
    ensures
        r as int == abs_spec(a as int),
{
    if a >= 0 {
        a
    } else if a == i64::MIN {
        i64::MAX
    } else {
        -a
    }
}

/// The smaller of two scalars.
pub fn fx_min(a: i64, b: i64) -> (r: i64)
    ensures
        r as int == min_spec(a as int, b as int),
{
    if a < b {
        a
    } else {
        b
    }
}

/// The larger of two scalars.
pub fn fx_max(a: i64, b: i64) -> (r: i64)
    ensures
        r as int == max_spec(a as int, b as int),
{
    if a > b {
        a
    } else {
        b
    }
}

/// Projection into [0, 1].
pub fn fx_clamp01(a: i64) -> (r: i64)
    ensures
        r as int == clamp01_spec(a as int),
{
    if a < 0 {
        0
    } else if a > ONE {
        ONE
    } else {
        a
    }
}

/// The whole-number floor of a fixed-point scalar, as an integer count.
pub fn fx_floor(a: i64) -> (r: i64)
    ensures
        r as int == (a as int) / (ONE as int),
{
    if a >= 0 {
        a / 65536
    } else {
        let na: i128 = -(a as i128);
        let q: i128 = (na + 65535) / 65536;
        proof {
            vstd::arithmetic::div_mod::lemma_fundamental_div_mod(na as int + 65535, 65536);
            let rr = (na + 65535) % 65536;
            vstd::arithmetic::div_mod::lemma_fundamental_div_mod_converse(
                a as int,
                65536,
                -(q as int),
                65535 - rr,
            );
        }
        (-q) as i64
    }
}

/// The Euclidean remainder of an integer count by a positive bound.
pub fn mod_u32(a: i64, m: u32) -> (r: u32)
    requires
        m > 0,
    ensures
        r as int == (a as int) % (m as int),
        r < m,
{
    if a >= 0 {
        let r = (a as u64) % (m as u64);
        proof {
            vstd::arithmetic::div_mod::lemma_fundamental_div_mod(a as int, m as int);
        }
        r as u32
    } else {
        let na: u64 = (-(a as i128)) as u64;
        let rr = na % (m as u64);
        proof {
            vstd::arithmetic::div_mod::lemma_fundamental_div_mod(na as int, m as int);
            let q = na as int / m as int;
            let rr2 = na as int % m as int;
            if rr == 0 {
                assert(a as int == (-q) * (m as int) + 0) by (nonlinear_arith)
                    requires
                        na as int == (m as int) * q + rr2,
                        rr2 == 0,
                        a as int == -(na as int),
                ;
                vstd::arithmetic::div_mod::lemma_fundamental_div_mod_converse(
                    a as int,
                    m as int,
                    -q,
                    0,
                );
            } else {
                assert(a as int == (-q - 1) * (m as int) + ((m as int) - rr2)) by (nonlinear_arith)
                    requires
                        na as int == (m as int) * q + rr2,
                        a as int == -(na as int),
                ;
                vstd::arithmetic::div_mod::lemma_fundamental_div_mod_converse(
                    a as int,
                    m as int,
                    -q - 1,
                    m as int - rr2,
                );
            }
        }
        if rr == 0 {
            0
        } else {
            m - (rr as u32)
        }
    }
}

/// Conversion of a small whole number into fixed point.
pub fn fx_of_u32(w: u32) -> (r: i64)
    ensures
        r as int == w as int * ONE as int,
{
    (w as i64) * 65536
}

} // verus!

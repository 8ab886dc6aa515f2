//! Fixed-point scalar arithmetic.
//!
//! An `Fx` value is an `i64` carrying 16 fractional bits, kept within
//! `[-FX_MAX, FX_MAX]`. Every operation saturates at that range instead of
//! wrapping, and mirrors an exact specification over `int`, so callers can
//! reason about results without any floating-point semantics.

use vstd::prelude::*;
use vstd::arithmetic::div_mod::lemma_fundamental_div_mod;
use vstd::arithmetic::div_mod::lemma_fundamental_div_mod_converse;

verus! {

/// Scale of the fixed-point representation: one unit is `1/65536`.
pub const FX_SCALE: i64 = 65536;

/// One, in fixed-point units.
pub const FX_ONE: i64 = 65536;

/// One half, in fixed-point units.
pub const FX_HALF: i64 = 32768;

/// Largest magnitude of a representable value (`16384.0` in real terms).
pub const FX_MAX: i64 = 0x4000_0000;

/// Half a turn (pi) in fixed-point units.
pub const FX_PI: i64 = 205887;

/// A full turn (two pi) in fixed-point units.
pub const FX_TWO_PI: i64 = 411775;

/// Fixed-point number: 16 fractional bits, magnitude at most `FX_MAX`.
pub type Fx = i64;

/// Whether `v` lies within the representable fixed-point range.
pub open spec fn fx_bounded(v: i64) -> bool {
    -FX_MAX <= v <= FX_MAX
}

/// Mathematical absolute value.
pub open spec fn fx_iabs(v: int) -> int {
    if v < 0 {
        -v
    } else {
        v
    }
}

/// Saturation of an unbounded value to the representable range.
pub open spec fn fx_sat(v: int) -> int {
    if v > FX_MAX {
        FX_MAX as int
    } else if v < -(FX_MAX as int) {
        -(FX_MAX as int)
    } else {
        v
    }
}

/// Division of a double-width product by the scale, truncated toward zero
/// (the rounding the pipeline uses everywhere).
pub open spec fn fx_wide_to_raw(p: int) -> int {
    if p >= 0 {
        p / (FX_SCALE as int)
    } else {
        -((-p) / (FX_SCALE as int))
    }
}

/// Saturating fixed-point addition.
pub open spec fn spec_fx_add(a: int, b: int) -> int {
    fx_sat(a + b)
}

/// Saturating fixed-point subtraction.
pub open spec fn spec_fx_sub(a: int, b: int) -> int {
    fx_sat(a - b)
}

/// Saturating fixed-point multiplication, truncated toward zero.
pub open spec fn spec_fx_mul(a: int, b: int) -> int {
    fx_sat(fx_wide_to_raw(a * b))
}

/// Saturating fixed-point division, truncated toward zero.
pub open spec fn spec_fx_div(a: int, b: int) -> int {
    let q = (fx_iabs(a) * (FX_SCALE as int)) / fx_iabs(b);
    if (a < 0) != (b < 0) {
        fx_sat(-q)
    } else {
        fx_sat(q)
    }
}

/// Truncation of a fixed-point value to a whole number of units,
/// rounding toward zero.
pub open spec fn spec_fx_trunc(v: int) -> int {
    fx_wide_to_raw(v)
}

/// Whether `r` is the integer square root of `n`.
pub open spec fn is_isqrt(n: int, r: int) -> bool {
    0 <= r && r * r <= n && n < (r + 1) * (r + 1)
}

/// The integer square root (the unique `r` with `r*r <= n < (r+1)*(r+1)`).
pub open spec fn spec_isqrt(n: int) -> int {
    choose|r: int| is_isqrt(n, r)
}

/// The square root of a fixed-point value: zero on non-positive input,
/// otherwise the integer square root of `v` brought back to scale.
pub open spec fn spec_fx_sqrt(v: int) -> int {
    if v <= 0 {
        0
    } else {
        spec_isqrt(v * (FX_SCALE as int))
    }
}

/// The first half-turn of the sine approximation: the parabola
/// `4 a (pi - a) / pi^2`, in fixed-point units, for `a` in `[0, pi]`.
pub open spec fn spec_sin_half(a: int) -> int {
    (4 * a * ((FX_PI as int) - a) * (FX_SCALE as int)) / ((FX_PI as int) * (FX_PI as int))
}

/// The library's sine: the argument reduced to one turn, then a parabola
/// per half-turn (a quadratic approximation of the trigonometric sine).
pub open spec fn spec_fx_sin(x: int) -> int {
    let a = x % (FX_TWO_PI as int);
    if a < FX_PI {
        spec_sin_half(a)
    } else {
        -spec_sin_half(a - (FX_PI as int))
    }
}

/// `fx_sat` at `i64` width, for composing specifications.
pub open spec fn sfx_clamp(v: i64) -> i64 {
    fx_sat(v as int) as i64
}

/// Saturating addition, at `i64` width.
pub open spec fn sfx_add(a: i64, b: i64) -> i64 {
    spec_fx_add(a as int, b as int) as i64
}

/// Saturating subtraction, at `i64` width.
pub open spec fn sfx_sub(a: i64, b: i64) -> i64 {
    spec_fx_sub(a as int, b as int) as i64
}

/// Saturating multiplication, at `i64` width.
pub open spec fn sfx_mul(a: i64, b: i64) -> i64 {
    spec_fx_mul(a as int, b as int) as i64
}

/// Saturating division, at `i64` width.
pub open spec fn sfx_div(a: i64, b: i64) -> i64 {
    spec_fx_div(a as int, b as int) as i64
}

/// Absolute value, at `i64` width.
pub open spec fn sfx_abs(a: i64) -> i64 {
    fx_iabs(a as int) as i64
}

/// Conversion from whole units, at `i64` width.
pub open spec fn sfx_from_int(i: i64) -> i64 {
    fx_sat(i as int * (FX_SCALE as int)) as i64
}

/// Truncation to whole units, at `i64` width.
pub open spec fn sfx_trunc(v: i64) -> i64 {
    spec_fx_trunc(v as int) as i64
}

/// Square root, at `i64` width.
pub open spec fn sfx_sqrt(v: i64) -> i64 {
    spec_fx_sqrt(v as int) as i64
}

/// Sine, at `i64` width.
pub open spec fn sfx_sin(x: i64) -> i64 {
    spec_fx_sin(x as int) as i64
}

/// Clamps an arbitrary `i64` into the representable fixed-point range.
pub fn fx_clamp(v: i64) -> (r: i64)
    ensures
        r == sfx_clamp(v),
        fx_bounded(r),
{
    if v > FX_MAX {
        FX_MAX
    } else if v < -FX_MAX {
        -FX_MAX
    } else {
        v
    }
}

/// Saturating addition.
pub fn fx_add(a: i64, b: i64) -> (r: i64)
    requires
        fx_bounded(a),
        fx_bounded(b),
    ensures
        r == sfx_add(a, b),
        fx_bounded(r),
{
    fx_clamp(a + b)
}

/// Saturating subtraction.
pub fn fx_sub(a: i64, b: i64) -> (r: i64)
    requires
        fx_bounded(a),
        fx_bounded(b),
    ensures
        r == sfx_sub(a, b),
        fx_bounded(r),
{
    fx_clamp(a - b)
}

/// Saturating multiplication, truncated toward zero.
pub fn fx_mul(a: i64, b: i64) -> (r: i64)
    requires
        fx_bounded(a),
        fx_bounded(b),
    ensures
        r == sfx_mul(a, b),
        fx_bounded(r),
{
    assert(-0x1000_0000_0000_0000 <= (a as int) * (b as int) <= 0x1000_0000_0000_0000)
        by (nonlinear_arith)
        requires
            -0x4000_0000 <= a <= 0x4000_0000,
            -0x4000_0000 <= b <= 0x4000_0000;
    let p: i64 = a * b;
    let neg: bool = p < 0;
    let m: u64 = if neg {
        (-p) as u64
    } else {
        p as u64
    };
    let q: u64 = m / 65536;
    let qi: i64 = q as i64;
    let r0: i64 = if neg {
        -qi
    } else {
        qi
    };
    fx_clamp(r0)
}

/// Saturating division, truncated toward zero.
pub fn fx_div(a: i64, b: i64) -> (r: i64)
    requires
        fx_bounded(a),
        fx_bounded(b),
        b != 0,
    ensures
        r == sfx_div(a, b),
        fx_bounded(r),
{
    let na: bool = a < 0;
    let nb: bool = b < 0;
    let ma: u64 = if na {
        (-a) as u64
    } else {
        a as u64
    };
    let mb: u64 = if nb {
        (-b) as u64
    } else {
        b as u64
    };
    let q: u64 = (ma * 65536) / mb;
    let qi: i64 = q as i64;
    let r0: i64 = if na != nb {
        -qi
    } else {
        qi
    };
    fx_clamp(r0)
}

/// Conversion of a whole number of units into fixed-point, saturating.
pub fn fx_from_int(i: i64) -> (r: i64)
    ensures
        r == sfx_from_int(i),
        fx_bounded(r),
{
    if i >= 16384 {
        FX_MAX
    } else if i <= -16384 {
        -FX_MAX
    } else {
        i * 65536
    }
}

/// Truncation to a whole number of units, toward zero.
pub fn fx_trunc(v: i64) -> (r: i64)
    requires
        fx_bounded(v),
    ensures
        r == sfx_trunc(v),
        -16384 <= r <= 16384,
{
    let neg: bool = v < 0;
    let m: u64 = if neg {
        (-v) as u64
    } else {
        v as u64
    };
    let q: u64 = m / 65536;
    let qi: i64 = q as i64;
    if neg {
        -qi
    } else {
        qi
    }
}

/// Absolute value.
pub fn fx_abs(v: i64) -> (r: i64)
    requires
        fx_bounded(v),
    ensures
        r == sfx_abs(v),
        fx_bounded(r),
{
    if v < 0 {
        -v
    } else {
        v
    }
}

/// The smaller of two values.
pub fn fx_min(a: i64, b: i64) -> (r: i64)
    ensures
        r == if a <= b { a } else { b },
{
    if a <= b {
        a
    } else {
        b
    }
}

/// The larger of two values.
pub fn fx_max(a: i64, b: i64) -> (r: i64)
    ensures
        r == if a >= b { a } else { b },
{
    if a >= b {
        a
    } else {
        b
    }
}

/// No two distinct integers are both square roots of `n`.
proof fn lemma_isqrt_unique(n: int, r1: int, r2: int)
    requires
        is_isqrt(n, r1),
        is_isqrt(n, r2),
    ensures
        r1 == r2,
{
    assert(!(r1 < r2) && !(r2 < r1)) by (nonlinear_arith)
        requires
            0 <= r1,
            0 <= r2,
            r1 * r1 <= n,
            n < (r1 + 1) * (r1 + 1),
            r2 * r2 <= n,
            n < (r2 + 1) * (r2 + 1),
    ;
}

/// The integer square root, by binary search.
pub fn isqrt(n: u64) -> (r: u64)
    ensures
        is_isqrt(n as int, r as int),
        r == spec_isqrt(n as int),
        r <= 0xFFFF_FFFF,
{
    let mut lo: u64 = 0;
    let mut hi: u64 = 0x1_0000_0000;
    assert((0x1_0000_0000 as int) * (0x1_0000_0000 as int) == 0x1_0000_0000_0000_0000)
        by (nonlinear_arith);
    while lo + 1 < hi
        invariant
            lo < hi <= 0x1_0000_0000,
            (lo as int) * (lo as int) <= n,
            n < (hi as int) * (hi as int),
        decreases hi - lo,
    {
        let mid: u64 = lo + (hi - lo) / 2;
        assert(lo < mid < hi);
        assert((mid as int) * (mid as int) <= 0xFFFF_FFFE_0000_0001) by (nonlinear_arith)
            requires
                0 <= mid <= 0xFFFF_FFFF,
        ;
        if mid * mid <= n {
            lo = mid;
        } else {
            hi = mid;
        }
    }
    proof {
        assert((lo as int + 1) * (lo as int + 1) == (hi as int) * (hi as int));
        assert(is_isqrt(n as int, lo as int));
        let c = choose|r: int| is_isqrt(n as int, r);
        assert(is_isqrt(n as int, c));
        lemma_isqrt_unique(n as int, lo as int, c);
    }
    lo
}

/// The fixed-point square root: zero on non-positive input.
pub fn fx_sqrt(v: i64) -> (r: i64)
    requires
        fx_bounded(v),
    ensures
        r == sfx_sqrt(v),
        0 <= r <= 0x80_0000,
        fx_bounded(r),
{
    if v <= 0 {
        0
    } else {
        let n: u64 = (v as u64) * 65536;
        let s: u64 = isqrt(n);
        proof {
            assert(is_isqrt(n as int, s as int));
            assert(s <= 0x80_0000) by (nonlinear_arith)
                requires
                    (s as int) * (s as int) <= n,
                    n <= 0x4000_0000_0000,
                    0 <= s,
            ;
        }
        s as i64
    }
}

/// Euclidean remainder of `x` by the positive constant `d`, matching the
/// specification-level `%`.
fn euclid_mod(x: i64, d: u64) -> (r: u64)
    requires
        fx_bounded(x),
        0 < d <= 0x10_0000,
    ensures
        r == (x as int) % (d as int),
        r < d,
{
    if x >= 0 {
        let r: u64 = (x as u64) % d;
        r
    } else {
        let m: u64 = ((-x) as u64) % d;
        let q: u64 = ((-x) as u64) / d;
        proof {
            lemma_fundamental_div_mod((-x) as int, d as int);
            assert((-x) as int == (d as int) * (q as int) + m);
        }
        if m == 0 {
            proof {
                assert((-(q as int)) * (d as int) == -((d as int) * (q as int)))
                    by (nonlinear_arith);
                lemma_fundamental_div_mod_converse(x as int, d as int, -(q as int), 0);
            }
            0
        } else {
            proof {
                assert((-(q as int) - 1) * (d as int) + ((d - m) as int) == -((d as int) * (
                q as int)) - m) by (nonlinear_arith);
                lemma_fundamental_div_mod_converse(
                    x as int,
                    d as int,
                    -(q as int) - 1,
                    (d - m) as int,
                );
            }
            d - m
        }
    }
}

/// The rising parabola on one half-turn.
fn sin_half(a: u64) -> (r: u64)
    requires
        a <= 205887,
    ensures
        r == spec_sin_half(a as int),
        r <= 0x10_0000,
{
    assert(0 <= 4 * (a as int) * (205887 - a as int) <= 0x28_0000_0000) by (nonlinear_arith)
        requires
            0 <= a <= 205887,
    ;
    let num: u64 = 4 * a * (205887 - a) * 65536;
    let den: u64 = 205887 * 205887;
    let q: u64 = num / den;
    proof {
        assert(den == 42389456769);
        assert(num as int == 4 * (a as int) * ((FX_PI as int) - a) * (FX_SCALE as int))
            by (nonlinear_arith)
            requires
                0 <= a <= 205887,
                num == 4 * (a as int) * (205887 - a as int) * 65536,
                FX_PI == 205887,
                FX_SCALE == 65536,
        ;
        vstd::arithmetic::div_mod::lemma_div_is_ordered(
            num as int,
            0x40_0000_0000_0000,
            42389456769,
        );
        assert(0x40_0000_0000_0000int / 42389456769int < 0x10_0000) by (nonlinear_arith);
    }
    q
}

/// The fixed-point sine approximation: argument reduced modulo one turn,
/// then one parabola per half-turn.
pub fn fx_sin(x: i64) -> (r: i64)
    requires
        fx_bounded(x),
    ensures
        r == sfx_sin(x),
        -0x10_0000 <= r <= 0x10_0000,
        fx_bounded(r),
{
    let a: u64 = euclid_mod(x, 411775);
    if a < 205887 {
        let s: u64 = sin_half(a);
        s as i64
    } else {
        let s: u64 = sin_half(a - 205887);
        -(s as i64)
    }
}

} // verus!

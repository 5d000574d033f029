//! Fixed-point scalar arithmetic.
//!
//! A quantity is stored as an `i64` holding its value times `SCALE`
//! (nine decimal digits of fraction). The operations are total: results
//! outside the `i64` range saturate, division by zero yields zero. Each
//! executable operation is specified exactly by a spec function over `int`,
//! so callers reason about the computed value itself, not an approximation.

use vstd::prelude::*;
use vstd::arithmetic::mul::*;

verus! {

/// Number of raw units per 1.0.
pub const SCALE: i64 = 1_000_000_000;

/// pi, in raw units (rounded to the nearest unit).
pub const PI_FX: i64 = 3_141_592_654;
/// pi / 2, in raw units; exactly half of `PI_FX`.
pub const HALF_PI_FX: i64 = 1_570_796_327;
/// 2 * pi, in raw units; kept exactly equal to `2 * PI_FX` so that the
/// quadrant folding identities of `fx_sin` hold without correction terms.
pub const TWO_PI_FX: i64 = 6_283_185_308;

/// pi / 6, in raw units: the tilt angle of one clock hour.
pub const PI_6_FX: i64 = 523_598_776;
/// pi / 360, in raw units: the tilt angle of one clock minute.
pub const PI_360_FX: i64 = 8_726_646;

/// exp(-1), in raw units.
pub const EXP_NEG1_FX: i64 = 367_879_441;

/// Reciprocals used by the polynomial kernels, in raw units.
pub const INV2_FX: i64 = 500_000_000;
pub const INV3_FX: i64 = 333_333_333;
pub const INV4_FX: i64 = 250_000_000;
pub const INV5_FX: i64 = 200_000_000;
pub const INV6_FX: i64 = 166_666_667;
pub const INV7_FX: i64 = 142_857_143;
pub const INV8_FX: i64 = 125_000_000;
pub const INV9_FX: i64 = 111_111_111;
pub const INV20_FX: i64 = 50_000_000;
pub const INV42_FX: i64 = 23_809_524;
pub const INV72_FX: i64 = 13_888_889;
pub const INV110_FX: i64 = 9_090_909;

/// From this many whole units on, `fx_exp_neg` underflows to exactly zero:
/// exp(-21) is already below the resolution of the representation.
pub const EXP_CUTOFF: u64 = 21;

/// Saturation to the `i64` range.
pub open spec fn clip(x: int) -> int {
    if x > i64::MAX as int {
        i64::MAX as int
    } else if x < i64::MIN as int {
        i64::MIN as int
    } else {
        x
    }
}

/// Magnitude of an integer.
pub open spec fn spec_abs(a: int) -> int {
    if a < 0 {
        -a
    } else {
        a
    }
}

/// Division truncating toward zero, for a positive divisor.
pub open spec fn tdiv(n: int, d: int) -> int
    recommends
        d > 0,
{
    if n >= 0 {
        n / d
    } else {
        -((-n) / d)
    }
}

pub open spec fn fx_add_spec(a: int, b: int) -> int {
    clip(a + b)
}

pub open spec fn fx_sub_spec(a: int, b: int) -> int {
    clip(a - b)
}

pub open spec fn fx_neg_spec(a: int) -> int {
    clip(-a)
}

pub open spec fn fx_mul_spec(a: int, b: int) -> int {
    clip(tdiv(a * b, SCALE as int))
}

pub open spec fn fx_div_spec(a: int, b: int) -> int {
    if b == 0 {
        0
    } else {
        let m: int = (spec_abs(a) * SCALE) / spec_abs(b);
        clip(
            if (a < 0) != (b < 0) {
                -m
            } else {
                m
            },
        )
    }
}

/// Saturating addition.
pub fn fx_add(a: i64, b: i64) -> (r: i64)
    ensures
        r as int == fx_add_spec(a as int, b as int),
{
    let s: i128 = a as i128 + b as i128;
    if s > i64::MAX as i128 {
        i64::MAX
    } else if s < i64::MIN as i128 {
        i64::MIN
    } else {
        s as i64
    }
}

/// Saturating subtraction.
pub fn fx_sub(a: i64, b: i64) -> (r: i64)
    ensures
        r as int == fx_sub_spec(a as int, b as int),
{
    let s: i128 = a as i128 - b as i128;
    if s > i64::MAX as i128 {
        i64::MAX
    } else if s < i64::MIN as i128 {
        i64::MIN
    } else {
        s as i64
    }
}

/// Saturating negation.
pub fn fx_neg(a: i64) -> (r: i64)
    ensures
        r as int == fx_neg_spec(a as int),
{
    if a == i64::MIN {
        i64::MAX
    } else {
        -a
    }
}

/// Magnitude of an `i64`, exact also for `i64::MIN`.
fn abs_u64(a: i64) -> (r: u64)
    ensures
        r as int == spec_abs(a as int),
{
    if a >= 0 {
        a as u64
    } else if a == i64::MIN {
        9_223_372_036_854_775_808u64
    } else {
        (-a) as u64
    }
}

/// Reassembles a signed result from a sign and a magnitude, saturating.
fn from_magnitude(neg: bool, q: u128) -> (r: i64)
    ensures
        r as int == clip(
            if neg {
                -(q as int)
            } else {
                q as int
            },
        ),
{
    if neg {
        if q >= 9_223_372_036_854_775_808u128 {
            i64::MIN
        } else {
            -(q as i64)
        }
    } else {
        if q > i64::MAX as u128 {
            i64::MAX
        } else {
            q as i64
        }
    }
}

proof fn lemma_mul_sign_split(a: int, b: int, ma: int, mb: int)
    by (nonlinear_arith)
    requires
        ma == if a < 0 {
            -a
        } else {
            a
        },
        mb == if b < 0 {
            -b
        } else {
            b
        },
    ensures
        ma * mb >= 0,
        a * b == if (a < 0) != (b < 0) {
            -(ma * mb)
        } else {
            ma * mb
        },
{
}

/// Saturating product, truncated toward zero: (a * b) / SCALE.
pub fn fx_mul(a: i64, b: i64) -> (r: i64)
    ensures
        r as int == fx_mul_spec(a as int, b as int),
{
    let neg: bool = (a < 0) != (b < 0);
    let ma: u128 = abs_u64(a) as u128;
    let mb: u128 = abs_u64(b) as u128;
    proof {
        lemma_mul_upper_bound(ma as int, 0x8000_0000_0000_0000, mb as int, 0x8000_0000_0000_0000);
        lemma_mul_sign_split(a as int, b as int, ma as int, mb as int);
    }
    let p: u128 = ma * mb;
    let q: u128 = p / (SCALE as u128);
    from_magnitude(neg, q)
}

/// Saturating quotient, truncated toward zero: (a * SCALE) / b; zero when b is zero.
pub fn fx_div(a: i64, b: i64) -> (r: i64)
    ensures
        r as int == fx_div_spec(a as int, b as int),
{
    if b == 0 {
        return 0;
    }
    let neg: bool = (a < 0) != (b < 0);
    let ma: u128 = abs_u64(a) as u128;
    let mb: u128 = abs_u64(b) as u128;
    proof {
        lemma_mul_upper_bound(ma as int, 0x8000_0000_0000_0000, SCALE as int, SCALE as int);
    }
    let q: u128 = (ma * (SCALE as u128)) / mb;
    from_magnitude(neg, q)
}

pub proof fn lemma_fx_mul_nonneg(a: int, b: int)
    requires
        a >= 0,
        b >= 0,
    ensures
        fx_mul_spec(a, b) >= 0,
{
    lemma_mul_nonnegative(a, b);
    vstd::arithmetic::div_mod::lemma_div_pos_is_pos(a * b, SCALE as int);
}

pub proof fn lemma_fx_div_nonneg(a: int, b: int)
    requires
        a >= 0,
        b >= 0,
    ensures
        fx_div_spec(a, b) >= 0,
{
    if b != 0 {
        lemma_mul_nonnegative(a, SCALE as int);
        vstd::arithmetic::div_mod::lemma_div_pos_is_pos(a * SCALE, b);
    }
}

/// Floor of the square root of a nonnegative integer.
pub open spec fn sqrt_floor(n: int) -> int
    decreases n,
{
    if n <= 0 {
        0
    } else {
        let p: int = sqrt_floor(n - 1);
        if (p + 1) * (p + 1) <= n {
            p + 1
        } else {
            p
        }
    }
}

pub proof fn lemma_sqrt_floor_bounds(n: int)
    requires
        n >= 0,
    ensures
        sqrt_floor(n) >= 0,
        sqrt_floor(n) * sqrt_floor(n) <= n,
        n < (sqrt_floor(n) + 1) * (sqrt_floor(n) + 1),
    decreases n,
{
    if n > 0 {
        lemma_sqrt_floor_bounds(n - 1);
        let p: int = sqrt_floor(n - 1);
        if (p + 1) * (p + 1) <= n {
            assert((p + 1) * (p + 1) < (p + 2) * (p + 2)) by (nonlinear_arith)
                requires
                    p >= 0,
            ;
        }
    }
}

pub proof fn lemma_sqrt_floor_unique(n: int, r: int)
    requires
        n >= 0,
        r >= 0,
        r * r <= n,
        n < (r + 1) * (r + 1),
    ensures
        r == sqrt_floor(n),
{
    lemma_sqrt_floor_bounds(n);
    let s: int = sqrt_floor(n);
    if r < s {
        assert((r + 1) * (r + 1) <= s * s) by (nonlinear_arith)
            requires
                0 <= r && r < s,
        ;
    }
    if r > s {
        assert((s + 1) * (s + 1) <= r * r) by (nonlinear_arith)
            requires
                0 <= s && s < r,
        ;
    }
}

/// Binary search for the integer square root.
fn isqrt_u128(p: u128) -> (r: u64)
    ensures
        r as int == sqrt_floor(p as int),
{
    let mut lo: u128 = 0;
    let mut hi: u128 = 0x1_0000_0000_0000_0000u128;
    proof {
        assert((0x1_0000_0000_0000_0000u128 as int) * (0x1_0000_0000_0000_0000u128 as int) > p as int)
            by (nonlinear_arith)
            requires
                p <= u128::MAX,
        ;
    }
    while lo + 1 < hi
        invariant
            lo < hi <= 0x1_0000_0000_0000_0000u128,
            (lo as int) * (lo as int) <= p as int,
            (p as int) < (hi as int) * (hi as int),
        decreases hi - lo,
    {
        let mid: u128 = lo + (hi - lo) / 2;
        proof {
            lemma_mul_upper_bound(
                mid as int,
                0xffff_ffff_ffff_ffff,
                mid as int,
                0xffff_ffff_ffff_ffff,
            );
        }
        if mid * mid <= p {
            lo = mid;
        } else {
            hi = mid;
        }
    }
    proof {
        lemma_sqrt_floor_unique(p as int, lo as int);
    }
    lo as u64
}

/// Square root in raw units: sqrt(a / SCALE) * SCALE, rounded down; zero for
/// nonpositive arguments.
pub open spec fn fx_sqrt_spec(a: int) -> int {
    if a <= 0 {
        0
    } else {
        sqrt_floor(a * SCALE)
    }
}

pub fn fx_sqrt(a: i64) -> (r: i64)
    ensures
        r as int == fx_sqrt_spec(a as int),
{
    if a <= 0 {
        return 0;
    }
    proof {
        lemma_mul_upper_bound(a as int, 0x8000_0000_0000_0000, SCALE as int, SCALE as int);
    }
    let p: u128 = (a as u128) * (SCALE as u128);
    let r: u64 = isqrt_u128(p);
    proof {
        lemma_sqrt_floor_bounds(p as int);
        assert(r as int <= 0x1_0000_0000_0000) by (nonlinear_arith)
            requires
                r as int >= 0,
                (r as int) * (r as int) <= p as int,
                p as int <= 0x8000_0000_0000_0000 * 1_000_000_000,
        ;
    }
    r as i64
}

/// Reduction of an angle to (-PI_FX, PI_FX].
pub open spec fn angle_reduce_spec(x: int) -> int {
    let m: int = x % (TWO_PI_FX as int);
    if m > PI_FX {
        m - TWO_PI_FX
    } else {
        m
    }
}

fn angle_reduce(x: i64) -> (r: i64)
    ensures
        r as int == angle_reduce_spec(x as int),
        -(PI_FX as int) < r as int <= PI_FX as int,
{
    let m: u64 = if x >= 0 {
        (x as u64) % (TWO_PI_FX as u64)
    } else {
        let ux: u64 = abs_u64(x);
        let rem: u64 = ux % (TWO_PI_FX as u64);
        proof {
            let t: int = TWO_PI_FX as int;
            let u: int = ux as int;
            vstd::arithmetic::div_mod::lemma_fundamental_div_mod(u, t);
            vstd::arithmetic::div_mod::lemma_mod_bound(u, t);
            let q: int = u / t;
            let rr: int = u % t;
            if rr == 0 {
                assert(-u == (-q) * t + 0) by (nonlinear_arith)
                    requires
                        u == q * t + rr && rr == 0,
                ;
                vstd::arithmetic::div_mod::lemma_fundamental_div_mod_converse(-u, t, -q, 0);
            } else {
                assert(-u == (-q - 1) * t + (t - rr)) by (nonlinear_arith)
                    requires
                        u == q * t + rr,
                ;
                vstd::arithmetic::div_mod::lemma_fundamental_div_mod_converse(-u, t, -q - 1, t - rr);
            }
        }
        if rem == 0 {
            0
        } else {
            (TWO_PI_FX as u64) - rem
        }
    };
    if m > PI_FX as u64 {
        (m as i64) - TWO_PI_FX
    } else {
        m as i64
    }
}

/// The sine kernel: an odd polynomial accurate on [-HALF_PI_FX, HALF_PI_FX].
pub open spec fn sin_poly_spec(z: int) -> int {
    let z2: int = fx_mul_spec(z, z);
    let t1: int = fx_sub_spec(SCALE as int, fx_mul_spec(z2, INV110_FX as int));
    let t2: int = fx_sub_spec(SCALE as int, fx_mul_spec(fx_mul_spec(z2, INV72_FX as int), t1));
    let t3: int = fx_sub_spec(SCALE as int, fx_mul_spec(fx_mul_spec(z2, INV42_FX as int), t2));
    let t4: int = fx_sub_spec(SCALE as int, fx_mul_spec(fx_mul_spec(z2, INV20_FX as int), t3));
    let t5: int = fx_sub_spec(SCALE as int, fx_mul_spec(fx_mul_spec(z2, INV6_FX as int), t4));
    fx_mul_spec(z, t5)
}

/// Sine of an angle in raw radians.
pub open spec fn fx_sin_spec(x: int) -> int {
    let y: int = angle_reduce_spec(x);
    let z: int = if y > HALF_PI_FX {
        PI_FX - y
    } else if y < -(HALF_PI_FX as int) {
        -(PI_FX as int) - y
    } else {
        y
    };
    sin_poly_spec(z)
}

/// Cosine of an angle in raw radians, as the shifted sine.
pub open spec fn fx_cos_spec(x: int) -> int {
    fx_sin_spec(fx_add_spec(x, HALF_PI_FX as int))
}

fn sin_poly(z: i64) -> (r: i64)
    ensures
        r as int == sin_poly_spec(z as int),
{
    let z2: i64 = fx_mul(z, z);
    let t1: i64 = fx_sub(SCALE, fx_mul(z2, INV110_FX));
    let t2: i64 = fx_sub(SCALE, fx_mul(fx_mul(z2, INV72_FX), t1));
    let t3: i64 = fx_sub(SCALE, fx_mul(fx_mul(z2, INV42_FX), t2));
    let t4: i64 = fx_sub(SCALE, fx_mul(fx_mul(z2, INV20_FX), t3));
    let t5: i64 = fx_sub(SCALE, fx_mul(fx_mul(z2, INV6_FX), t4));
    fx_mul(z, t5)
}

pub fn fx_sin(x: i64) -> (r: i64)
    ensures
        r as int == fx_sin_spec(x as int),
{
    let y: i64 = angle_reduce(x);
    let z: i64 = if y > HALF_PI_FX {
        PI_FX - y
    } else if y < -HALF_PI_FX {
        -PI_FX - y
    } else {
        y
    };
    sin_poly(z)
}

pub fn fx_cos(x: i64) -> (r: i64)
    ensures
        r as int == fx_cos_spec(x as int),
{
    fx_sin(fx_add(x, HALF_PI_FX))
}

/// n-fold product with exp(-1).
pub open spec fn exp_shift_spec(v: int, n: nat) -> int
    decreases n,
{
    if n == 0 {
        v
    } else {
        fx_mul_spec(exp_shift_spec(v, (n - 1) as nat), EXP_NEG1_FX as int)
    }
}

/// The kernel for exp(-g) with g in [0, SCALE].
pub open spec fn exp_poly_spec(g: int) -> int {
    let t1: int = fx_sub_spec(SCALE as int, fx_mul_spec(g, INV9_FX as int));
    let t2: int = fx_sub_spec(SCALE as int, fx_mul_spec(fx_mul_spec(g, INV8_FX as int), t1));
    let t3: int = fx_sub_spec(SCALE as int, fx_mul_spec(fx_mul_spec(g, INV7_FX as int), t2));
    let t4: int = fx_sub_spec(SCALE as int, fx_mul_spec(fx_mul_spec(g, INV6_FX as int), t3));
    let t5: int = fx_sub_spec(SCALE as int, fx_mul_spec(fx_mul_spec(g, INV5_FX as int), t4));
    let t6: int = fx_sub_spec(SCALE as int, fx_mul_spec(fx_mul_spec(g, INV4_FX as int), t5));
    let t7: int = fx_sub_spec(SCALE as int, fx_mul_spec(fx_mul_spec(g, INV3_FX as int), t6));
    let t8: int = fx_sub_spec(SCALE as int, fx_mul_spec(fx_mul_spec(g, INV2_FX as int), t7));
    fx_sub_spec(SCALE as int, fx_mul_spec(g, t8))
}

/// exp(-t) in raw units for a nonnegative raw argument t; zero once the true
/// value falls below the resolution of the representation.
pub open spec fn fx_exp_neg_spec(t: int) -> int
    recommends
        t >= 0,
{
    let n: int = t / (SCALE as int);
    let f: int = t % (SCALE as int);
    if n >= EXP_CUTOFF {
        0
    } else {
        exp_shift_spec(exp_poly_spec(f), n as nat)
    }
}

fn exp_poly(g: i64) -> (r: i64)
    ensures
        r as int == exp_poly_spec(g as int),
{
    let t1: i64 = fx_sub(SCALE, fx_mul(g, INV9_FX));
    let t2: i64 = fx_sub(SCALE, fx_mul(fx_mul(g, INV8_FX), t1));
    let t3: i64 = fx_sub(SCALE, fx_mul(fx_mul(g, INV7_FX), t2));
    let t4: i64 = fx_sub(SCALE, fx_mul(fx_mul(g, INV6_FX), t3));
    let t5: i64 = fx_sub(SCALE, fx_mul(fx_mul(g, INV5_FX), t4));
    let t6: i64 = fx_sub(SCALE, fx_mul(fx_mul(g, INV4_FX), t5));
    let t7: i64 = fx_sub(SCALE, fx_mul(fx_mul(g, INV3_FX), t6));
    let t8: i64 = fx_sub(SCALE, fx_mul(fx_mul(g, INV2_FX), t7));
    fx_sub(SCALE, fx_mul(g, t8))
}

pub fn fx_exp_neg(t: i64) -> (r: i64)
    requires
        t >= 0,
    ensures
        r as int == fx_exp_neg_spec(t as int),
{
    let n: u64 = (t as u64) / (SCALE as u64);
    let f: i64 = ((t as u64) % (SCALE as u64)) as i64;
    if n >= EXP_CUTOFF {
        return 0;
    }
    let mut acc: i64 = exp_poly(f);
    let mut i: u64 = 0;
    while i < n
        invariant
            i <= n,
            acc as int == exp_shift_spec(exp_poly_spec(f as int), i as nat),
        decreases n - i,
    {
        acc = fx_mul(acc, EXP_NEG1_FX);
        i = i + 1;
    }
    acc
}

} // verus!

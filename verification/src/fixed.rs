//! Fixed-point scalar arithmetic.
//!
//! All real-valued quantities of the simulation are represented as `i64`
//! values scaled by `FX_ONE` (2^16): the value `v` stands for the real number
//! `v / 65536`.  Products and quotients are computed in `i128` and rounded
//! toward negative infinity, which matches the Euclidean `/` of the
//! specification language, so every operation has an exact contract.

use vstd::prelude::*;
use vstd::arithmetic::div_mod::*;
use vstd::arithmetic::mul::*;

verus! {

/// One unit in fixed-point representation (2^16).
pub const FX_ONE: i64 = 65536;

/// The angle pi, scaled by `FX_ONE`.
pub const FX_PI: i64 = 205887;

/// The angle 2*pi, scaled by `FX_ONE`; exactly twice `FX_PI` so that angle
/// wrapping around the full circle and around the half circle agree.
pub const FX_TWO_PI: i64 = 411774;

/// The angle pi/2, scaled by `FX_ONE` (rounded up from `FX_PI / 2`).
pub const FX_HALF_PI: i64 = 102944;

/// Largest magnitude accepted by the binary fixed-point operations; large
/// enough for every quantity of the simulation with room for intermediates.
pub const FX_ABS_MAX: i64 = 0x80_0000_0000;

/// Fixed-point product: the real product of the two operands, rounded down.
pub open spec fn fxs_mul(a: int, b: int) -> int {
    (a * b) / (FX_ONE as int)
}

/// Fixed-point quotient: the real quotient of the two operands, rounded down.
pub open spec fn fxs_div(a: int, b: int) -> int {
    (a * (FX_ONE as int)) / b
}

/// Division rounded toward negative infinity is monotone in the dividend and
/// maps multiples of the divisor exactly, so a dividend confined to
/// `[-bound*d, bound*d]` yields a quotient confined to `[-bound, bound]`.
pub proof fn lemma_div_bounds(p: int, d: int, bound: int)
    requires
        0 < d,
        0 <= bound,
        -bound * d <= p <= bound * d,
    ensures
        -bound <= p / d <= bound,
{
    lemma_mul_is_commutative(bound, d);
    lemma_mul_is_commutative(-bound, d);
    lemma_div_is_ordered(-bound * d, p, d);
    lemma_div_is_ordered(p, bound * d, d);
    lemma_div_multiples_vanish(bound, d);
    lemma_div_multiples_vanish(-bound, d);
}

/// Quotient of `i128` values, rounded toward negative infinity, matching the
/// Euclidean `/` of specifications for a positive divisor.
pub fn floor_div_i128(p: i128, d: i128) -> (q: i128)
    requires
        0 < d <= 0x4000_0000_0000_0000_0000_0000_0000_0000,
        -0x4000_0000_0000_0000_0000_0000_0000_0000 <= p
            <= 0x4000_0000_0000_0000_0000_0000_0000_0000,
    ensures
        q == (p as int) / (d as int),
{
    if p >= 0 {
        let qu: u128 = (p as u128) / (d as u128);
        proof {
            lemma_div_nonincreasing(p as int, d as int);
            lemma_div_pos_is_pos(p as int, d as int);
        }
        qu as i128
    } else {
        let np: u128 = (-p) as u128;
        let du: u128 = d as u128;
        let qc: u128 = (np + du - 1) / du;
        proof {
            let npi = np as int;
            let di = d as int;
            let qq = npi / di;
            let r = npi % di;
            lemma_fundamental_div_mod(npi, di);
            lemma_mod_bound(npi, di);
            lemma_div_nonincreasing(npi + di - 1, di);
            lemma_div_pos_is_pos(npi + di - 1, di);
            if r == 0 {
                assert (npi + di - 1 == qq * di + (di - 1) && -npi == (-qq) * di + 0)
                    by (nonlinear_arith)
                    requires
                        npi == di * qq + r,
                        r == 0,
                ;
                lemma_fundamental_div_mod_converse(npi + di - 1, di, qq, di - 1);
                lemma_fundamental_div_mod_converse(-npi, di, -qq, 0);
            } else {
                assert (npi + di - 1 == (qq + 1) * di + (r - 1) && -npi == (-(qq + 1)) * di
                    + (di - r)) by (nonlinear_arith)
                    requires
                        npi == di * qq + r,
                        0 < r,
                ;
                lemma_fundamental_div_mod_converse(npi + di - 1, di, qq + 1, r - 1);
                lemma_fundamental_div_mod_converse(-npi, di, -(qq + 1), di - r);
            }
        }
        -(qc as i128)
    }
}

/// Fixed-point multiplication of two bounded scalars.
pub fn fx_mul(a: i64, b: i64) -> (r: i64)
    requires
        -FX_ABS_MAX <= a <= FX_ABS_MAX,
        -FX_ABS_MAX <= b <= FX_ABS_MAX,
    ensures
        r == fxs_mul(a as int, b as int),
{
    proof {
        assert (-(FX_ABS_MAX as int) * (FX_ABS_MAX as int) <= (a as int) * (b as int)
            <= (FX_ABS_MAX as int) * (FX_ABS_MAX as int)) by (nonlinear_arith)
            requires
                -FX_ABS_MAX <= a <= FX_ABS_MAX,
                -FX_ABS_MAX <= b <= FX_ABS_MAX,
        ;
    }
    let p: i128 = (a as i128) * (b as i128);
    let q: i128 = floor_div_i128(p, 65536);
    proof {
        assert ((FX_ABS_MAX as int) * (FX_ABS_MAX as int) == 0x4000_0000_0000_0000int * 65536);
        lemma_div_bounds(p as int, 65536, 0x4000_0000_0000_0000);
    }
    q as i64
}

/// Largest dividend magnitude accepted by `fx_div`.
pub const FX_DIV_MAX: i64 = 0x7000_0000_0000;

/// Fixed-point division of a bounded scalar by a positive scalar.
pub fn fx_div(a: i64, b: i64) -> (r: i64)
    requires
        0 < b,
        -FX_DIV_MAX <= a <= FX_DIV_MAX,
    ensures
        r == fxs_div(a as int, b as int),
{
    let p: i128 = (a as i128) * 65536;
    let q: i128 = floor_div_i128(p, b as i128);
    proof {
        let bnd: int = (FX_DIV_MAX as int) * 65536;
        assert (-bnd * b <= p <= bnd * b) by (nonlinear_arith)
            requires
                p == (a as int) * 65536,
                -FX_DIV_MAX <= a <= FX_DIV_MAX,
                bnd == (FX_DIV_MAX as int) * 65536,
                1 <= b,
        ;
        lemma_div_bounds(p as int, b as int, bnd);
    }
    q as i64
}

/// Reduces an angle into `[0, FX_TWO_PI)`; exactly the Euclidean remainder.
pub fn fx_wrap_two_pi(x: i64) -> (r: i64)
    ensures
        r == (x as int) % (FX_TWO_PI as int),
        0 <= r < FX_TWO_PI,
{
    let q: i128 = floor_div_i128(x as i128, FX_TWO_PI as i128);
    proof {
        lemma_fundamental_div_mod(x as int, FX_TWO_PI as int);
        lemma_mod_bound(x as int, FX_TWO_PI as int);
        assert (q * (FX_TWO_PI as int) == (x as int) - (x as int) % (FX_TWO_PI as int))
            by (nonlinear_arith)
            requires
                x as int == (FX_TWO_PI as int) * q + (x as int) % (FX_TWO_PI as int),
        ;
    }
    (x as i128 - q * (FX_TWO_PI as i128)) as i64
}

/// Comparing two fractions with positive denominators: cross-multiplied
/// ordering carries over to the rounded-down quotients.
pub proof fn lemma_div_frac_le(num1: int, den1: int, num2: int, den2: int)
    requires
        0 < den1,
        0 < den2,
        num1 * den2 <= num2 * den1,
    ensures
        num1 / den1 <= num2 / den2,
{
    let q = num1 / den1;
    lemma_fundamental_div_mod(num1, den1);
    lemma_mod_bound(num1, den1);
    assert (q * den1 <= num1) by (nonlinear_arith)
        requires
            num1 == den1 * q + num1 % den1,
            0 <= num1 % den1,
    ;
    assert ((q * den2) * den1 <= num2 * den1) by (nonlinear_arith)
        requires
            q * den1 <= num1,
            num1 * den2 <= num2 * den1,
            0 < den2,
    ;
    assert (q * den2 <= num2) by (nonlinear_arith)
        requires
            (q * den2) * den1 <= num2 * den1,
            0 < den1,
    ;
    lemma_div_multiples_vanish(q, den2);
    lemma_div_is_ordered(q * den2, num2, den2);
    assert (q * den2 == den2 * q) by (nonlinear_arith);
}

/// The absolute value of an integer.
pub open spec fn iabs(x: int) -> int {
    if x < 0 {
        -x
    } else {
        x
    }
}

/// Negating the dividend of a rounded-down division negates the quotient,
/// up to one rounding step.
pub proof fn lemma_div_neg(x: int, d: int)
    requires
        0 < d,
    ensures
        -(x / d) - 1 <= (-x) / d <= -(x / d),
{
    lemma_fundamental_div_mod(x, d);
    lemma_mod_bound(x, d);
    let q = x / d;
    let r = x % d;
    if r == 0 {
        assert (-x == (-q) * d + 0) by (nonlinear_arith)
            requires
                x == d * q + r,
                r == 0,
        ;
        lemma_fundamental_div_mod_converse(-x, d, -q, 0);
    } else {
        assert (-x == (-q - 1) * d + (d - r)) by (nonlinear_arith)
            requires
                x == d * q + r,
        ;
        lemma_fundamental_div_mod_converse(-x, d, -q - 1, d - r);
    }
}

/// A fixed-point product of bounded operands is bounded by the fixed-point
/// product of the bounds, up to one rounding step below.
pub proof fn lemma_fxs_mul_le(a: int, b: int, ba: int, bb: int)
    requires
        -ba <= a <= ba,
        -bb <= b <= bb,
        0 <= ba,
        0 <= bb,
    ensures
        -fxs_mul(ba, bb) - 1 <= fxs_mul(a, b) <= fxs_mul(ba, bb),
        0 <= fxs_mul(ba, bb),
{
    assert (-(ba * bb) <= a * b <= ba * bb) by (nonlinear_arith)
        requires
            -ba <= a <= ba,
            -bb <= b <= bb,
            0 <= ba,
            0 <= bb,
    ;
    lemma_div_is_ordered(a * b, ba * bb, FX_ONE as int);
    lemma_div_is_ordered(-(ba * bb), a * b, FX_ONE as int);
    lemma_div_neg(ba * bb, FX_ONE as int);
    lemma_div_pos_is_pos(ba * bb, FX_ONE as int);
}

/// A fixed-point product with a factor of at most one unit does not grow
/// past the other operand's magnitude, up to one rounding step below.
pub proof fn lemma_fxs_mul_unit(a: int, s: int)
    requires
        -FX_ONE <= s <= FX_ONE,
    ensures
        -iabs(a) - 1 <= fxs_mul(a, s) <= iabs(a),
{
    lemma_fxs_mul_le(a, s, iabs(a), FX_ONE as int);
    lemma_div_by_multiple(iabs(a), FX_ONE as int);
}

/// Rational half-wave sine approximation on `[0, FX_PI]` (Bhaskara's
/// formula `16 x (pi - x) / (5 pi^2 - 4 x (pi - x))`), scaled by `FX_ONE`.
pub open spec fn fxs_half_sin(x: int) -> int {
    (16 * (x * ((FX_PI as int) - x)) * (FX_ONE as int)) / (5 * (FX_PI as int) * (FX_PI as int)
        - 4 * (x * ((FX_PI as int) - x)))
}

/// Fixed-point sine: the argument is wrapped into `[0, FX_TWO_PI)` and the
/// half-wave approximation is applied with the sign of the half circle.
pub open spec fn fxs_sin(x: int) -> int {
    let w = x % (FX_TWO_PI as int);
    if w <= FX_PI {
        fxs_half_sin(w)
    } else {
        -fxs_half_sin(w - (FX_PI as int))
    }
}

/// Fixed-point cosine, as the sine shifted by a quarter turn.
pub open spec fn fxs_cos(x: int) -> int {
    fxs_sin(x + (FX_HALF_PI as int))
}

proof fn lemma_half_sin_arg(x: int)
    requires
        0 <= x <= FX_PI,
    ensures
        0 <= x * ((FX_PI as int) - x),
        4 * (x * ((FX_PI as int) - x)) <= (FX_PI as int) * (FX_PI as int),
{
    assert (0 <= x * ((FX_PI as int) - x) && 4 * (x * ((FX_PI as int) - x)) <= (FX_PI as int)
        * (FX_PI as int)) by (nonlinear_arith)
        requires
            0 <= x <= FX_PI,
    ;
}

/// The half-wave approximation stays within `[0, FX_ONE]` on its domain.
pub proof fn lemma_half_sin_bounds(x: int)
    requires
        0 <= x <= FX_PI,
    ensures
        0 <= fxs_half_sin(x) <= FX_ONE,
{
    lemma_half_sin_arg(x);
    let t = x * ((FX_PI as int) - x);
    let num = 16 * t * (FX_ONE as int);
    let den = 5 * (FX_PI as int) * (FX_PI as int) - 4 * t;
    assert (0 < den && 0 <= num && -(FX_ONE as int) * den <= num <= (FX_ONE as int) * den)
        by (nonlinear_arith)
        requires
            0 <= t,
            4 * t <= (FX_PI as int) * (FX_PI as int),
            num == 16 * t * (FX_ONE as int),
            den == 5 * (FX_PI as int) * (FX_PI as int) - 4 * t,
    ;
    lemma_div_bounds(num, den, FX_ONE as int);
    lemma_div_pos_is_pos(num, den);
}

/// The fixed-point sine stays within `[-FX_ONE, FX_ONE]` everywhere.
pub proof fn lemma_sin_bounds(x: int)
    ensures
        -FX_ONE <= fxs_sin(x) <= FX_ONE,
{
    lemma_mod_bound(x, FX_TWO_PI as int);
    let w = x % (FX_TWO_PI as int);
    if w <= FX_PI {
        lemma_half_sin_bounds(w);
    } else {
        lemma_half_sin_bounds(w - (FX_PI as int));
    }
}

/// The fixed-point cosine stays within `[-FX_ONE, FX_ONE]` everywhere.
pub proof fn lemma_cos_bounds(x: int)
    ensures
        -FX_ONE <= fxs_cos(x) <= FX_ONE,
{
    lemma_sin_bounds(x + (FX_HALF_PI as int));
}

fn fx_half_sin(x: i64) -> (r: i64)
    requires
        0 <= x <= FX_PI,
    ensures
        r == fxs_half_sin(x as int),
        0 <= r <= FX_ONE,
{
    proof {
        lemma_half_sin_arg(x as int);
        lemma_half_sin_bounds(x as int);
    }
    let t: i128 = (x as i128) * ((FX_PI - x) as i128);
    let num: i128 = 16 * t * 65536;
    let den: i128 = 5 * (FX_PI as i128) * (FX_PI as i128) - 4 * t;
    let q: i128 = floor_div_i128(num, den);
    q as i64
}

/// Fixed-point sine of an arbitrary angle.
pub fn fx_sin(x: i64) -> (r: i64)
    ensures
        r == fxs_sin(x as int),
        -FX_ONE <= r <= FX_ONE,
{
    let w: i64 = fx_wrap_two_pi(x);
    if w <= FX_PI {
        fx_half_sin(w)
    } else {
        -fx_half_sin(w - FX_PI)
    }
}

/// Largest magnitude accepted by `fx_cos`, leaving room for the quarter-turn
/// shift.
pub const FX_ANGLE_MAX: i64 = 0x1000_0000_0000_0000;

/// Fixed-point cosine of an arbitrary angle.
pub fn fx_cos(x: i64) -> (r: i64)
    requires
        -FX_ANGLE_MAX <= x <= FX_ANGLE_MAX,
    ensures
        r == fxs_cos(x as int),
        -FX_ONE <= r <= FX_ONE,
{
    fx_sin(x + FX_HALF_PI)
}

/// `r` is the integer square root of `n`.
pub open spec fn is_isqrt(n: int, r: int) -> bool {
    r * r <= n < (r + 1) * (r + 1)
}

/// The integer square root of `n`, as a specification value.
pub open spec fn spec_isqrt(n: int) -> int {
    choose|r: int| 0 <= r && #[trigger] is_isqrt(n, r)
}

proof fn lemma_isqrt_exists(n: nat)
    ensures
        exists|r: int| 0 <= r && #[trigger] is_isqrt(n as int, r),
    decreases n,
{
    if n == 0 {
        assert (0 <= 0 && is_isqrt(0, 0)) by (nonlinear_arith);
    } else {
        lemma_isqrt_exists((n - 1) as nat);
        let p = choose|r: int| 0 <= r && #[trigger] is_isqrt(n as int - 1, r);
        if n < (p + 1) * (p + 1) {
            assert (0 <= p && is_isqrt(n as int, p));
        } else {
            assert (0 <= p + 1 && is_isqrt(n as int, p + 1)) by (nonlinear_arith)
                requires
                    0 <= p,
                    p * p <= n - 1,
                    n - 1 < (p + 1) * (p + 1),
                    (p + 1) * (p + 1) <= n,
            ;
        }
    }
}

/// For a nonnegative argument, `spec_isqrt` is nonnegative, is a genuine
/// integer square root, and is the only one.
pub proof fn lemma_isqrt(n: int, r: int)
    requires
        0 <= r,
        is_isqrt(n, r),
    ensures
        spec_isqrt(n) == r,
{
    assert (0 <= n) by (nonlinear_arith)
        requires
            0 <= r,
            r * r <= n,
    ;
    lemma_isqrt_exists(n as nat);
    let s = spec_isqrt(n);
    assert (0 <= s && is_isqrt(n, s));
    assert (s == r) by (nonlinear_arith)
        requires
            0 <= s,
            0 <= r,
            s * s <= n < (s + 1) * (s + 1),
            r * r <= n < (r + 1) * (r + 1),
    ;
}

/// Integer square root by bisection.
pub fn isqrt_u128(n: u128) -> (r: u64)
    requires
        n < 0x4000_0000_0000_0000_0000_0000_0000_0000,
    ensures
        is_isqrt(n as int, r as int),
        r == spec_isqrt(n as int),
{
    let mut lo: u128 = 0;
    let mut hi: u128 = 0x8000_0000_0000_0000;
    proof {
        assert ((0x8000_0000_0000_0000 as int) * (0x8000_0000_0000_0000 as int)
            == 0x4000_0000_0000_0000_0000_0000_0000_0000);
    }
    while lo + 1 < hi
        invariant
            lo < hi <= 0x8000_0000_0000_0000,
            (lo as int) * (lo as int) <= n as int,
            (n as int) < (hi as int) * (hi as int),
        decreases hi - lo,
    {
        let mid: u128 = lo + (hi - lo) / 2;
        proof {
            assert (lo < mid < hi) by (nonlinear_arith)
                requires
                    mid == lo + (hi - lo) / 2,
                    lo + 1 < hi,
            ;
            assert ((mid as int) * (mid as int) < 0x8000_0000_0000_0000_0000_0000_0000_0000)
                by (nonlinear_arith)
                requires
                    mid < 0x8000_0000_0000_0000,
            ;
        }
        if mid * mid <= n {
            lo = mid;
        } else {
            hi = mid;
        }
    }
    proof {
        assert ((lo as int) + 1 == hi as int);
        lemma_isqrt(n as int, lo as int);
    }
    lo as u64
}

} // verus!

//! Three-component fixed-point vectors.
//!
//! The view of a vector is the triple of its components as unbounded
//! integers; every operation's contract states the resulting triple exactly,
//! in terms of the fixed-point scalar operations of [`crate::fixed`].

use vstd::prelude::*;
use vstd::arithmetic::div_mod::*;
use crate::fixed::{
    fxs_mul, fxs_div, fxs_sin, fxs_cos, fx_mul, fx_div, fx_sin, fx_cos, isqrt_u128, is_isqrt,
    spec_isqrt, iabs, FX_ONE, FX_ABS_MAX, FX_ANGLE_MAX, lemma_fxs_mul_le, lemma_fxs_mul_unit,
    lemma_div_neg, lemma_sin_bounds, lemma_cos_bounds,
};

verus! {

/// A vector of three fixed-point scalars.
#[derive(Clone, Copy, PartialEq, Eq, Structural, Debug)]
pub struct Vec3F {
    pub x: i64,
    pub y: i64,
    pub z: i64,
}

impl View for Vec3F {
    type V = (int, int, int);

    open spec fn view(&self) -> (int, int, int) {
        (self.x as int, self.y as int, self.z as int)
    }
}

/// Componentwise sum.
pub open spec fn vadd(a: (int, int, int), b: (int, int, int)) -> (int, int, int) {
    (a.0 + b.0, a.1 + b.1, a.2 + b.2)
}

/// Componentwise difference.
pub open spec fn vsub(a: (int, int, int), b: (int, int, int)) -> (int, int, int) {
    (a.0 - b.0, a.1 - b.1, a.2 - b.2)
}

/// Componentwise negation.
pub open spec fn vneg(a: (int, int, int)) -> (int, int, int) {
    (-a.0, -a.1, -a.2)
}

/// Fixed-point scaling of every component.
pub open spec fn vsmul(a: (int, int, int), s: int) -> (int, int, int) {
    (fxs_mul(a.0, s), fxs_mul(a.1, s), fxs_mul(a.2, s))
}

/// Fixed-point dot product.
pub open spec fn vdot(a: (int, int, int), b: (int, int, int)) -> int {
    fxs_mul(a.0, b.0) + fxs_mul(a.1, b.1) + fxs_mul(a.2, b.2)
}

/// Fixed-point cross product.
pub open spec fn vcross(a: (int, int, int), b: (int, int, int)) -> (int, int, int) {
    (
        fxs_mul(a.1, b.2) - fxs_mul(a.2, b.1),
        fxs_mul(a.2, b.0) - fxs_mul(a.0, b.2),
        fxs_mul(a.0, b.1) - fxs_mul(a.1, b.0),
    )
}

/// Squared Euclidean length, in raw (unscaled) integer units.
pub open spec fn vnorm2(a: (int, int, int)) -> int {
    a.0 * a.0 + a.1 * a.1 + a.2 * a.2
}

/// Euclidean length, carrying the same fixed-point scale as the components.
pub open spec fn vnorm(a: (int, int, int)) -> int {
    spec_isqrt(vnorm2(a))
}

/// The vector scaled to unit length (components divided by the length).
pub open spec fn vnormalize(a: (int, int, int)) -> (int, int, int) {
    (fxs_div(a.0, vnorm(a)), fxs_div(a.1, vnorm(a)), fxs_div(a.2, vnorm(a)))
}

/// Linear interpolation `a + (b - a) * t`.
pub open spec fn vlerp(a: (int, int, int), b: (int, int, int), t: int) -> (int, int, int) {
    (a.0 + fxs_mul(b.0 - a.0, t), a.1 + fxs_mul(b.1 - a.1, t), a.2 + fxs_mul(b.2 - a.2, t))
}

/// Rotation about the x axis by a fixed-point angle.
pub open spec fn vrot_x(a: (int, int, int), ang: int) -> (int, int, int) {
    let c = fxs_cos(ang);
    let s = fxs_sin(ang);
    (a.0, fxs_mul(a.1, c) - fxs_mul(a.2, s), fxs_mul(a.1, s) + fxs_mul(a.2, c))
}

/// Rotation about the y axis by a fixed-point angle.
pub open spec fn vrot_y(a: (int, int, int), ang: int) -> (int, int, int) {
    let c = fxs_cos(ang);
    let s = fxs_sin(ang);
    (fxs_mul(a.0, c) + fxs_mul(a.2, s), a.1, fxs_mul(a.2, c) - fxs_mul(a.0, s))
}

/// Rotation about the z axis by a fixed-point angle.
pub open spec fn vrot_z(a: (int, int, int), ang: int) -> (int, int, int) {
    let c = fxs_cos(ang);
    let s = fxs_sin(ang);
    (fxs_mul(a.0, c) - fxs_mul(a.1, s), fxs_mul(a.0, s) + fxs_mul(a.1, c), a.2)
}

/// Rodrigues' rotation of `v` about the unit axis `k`:
/// `v cos + (k x v) sin + k (k . v)(1 - cos)`.
pub open spec fn vrodrigues(v: (int, int, int), k: (int, int, int), ang: int) -> (int, int, int) {
    let c = fxs_cos(ang);
    let s = fxs_sin(ang);
    vadd(
        vadd(vsmul(v, c), vsmul(vcross(k, v), s)),
        vsmul(k, fxs_mul(vdot(k, v), (FX_ONE as int) - c)),
    )
}

/// Every component lies within `[-b, b]`.
pub open spec fn vb(a: (int, int, int), b: int) -> bool {
    &&& -b <= a.0 <= b
    &&& -b <= a.1 <= b
    &&& -b <= a.2 <= b
}

/// The largest component magnitude.
pub open spec fn vmax_abs(a: (int, int, int)) -> int {
    let m = if iabs(a.0) >= iabs(a.1) {
        iabs(a.0)
    } else {
        iabs(a.1)
    };
    if m >= iabs(a.2) {
        m
    } else {
        iabs(a.2)
    }
}

/// Component cap for the binary vector operations (dot, cross, length).
pub const VEC_OP_MAX: i64 = 0x40_0000_0000;

/// Component cap for vectors fed to the axis rotation.
pub const VEC_ROT_MAX: i64 = 0x4_0000_0000;

impl Vec3F {
    /// Builds a vector from its components.
    pub fn new(x: i64, y: i64, z: i64) -> (r: Vec3F)
        ensures
            r@ == (x as int, y as int, z as int),
    {
        Vec3F { x, y, z }
    }

    /// The zero vector.
    pub fn zero() -> (r: Vec3F)
        ensures
            r@ == (0int, 0int, 0int),
    {
        Vec3F { x: 0, y: 0, z: 0 }
    }

    /// Componentwise sum.
    pub fn add(self, o: Vec3F) -> (r: Vec3F)
        requires
            vb(self@, 0x2000_0000_0000_0000int),
            vb(o@, 0x2000_0000_0000_0000int),
        ensures
            r@ == vadd(self@, o@),
    {
        Vec3F { x: self.x + o.x, y: self.y + o.y, z: self.z + o.z }
    }

    /// Componentwise difference.
    pub fn sub(self, o: Vec3F) -> (r: Vec3F)
        requires
            vb(self@, 0x2000_0000_0000_0000int),
            vb(o@, 0x2000_0000_0000_0000int),
        ensures
            r@ == vsub(self@, o@),
    {
        Vec3F { x: self.x - o.x, y: self.y - o.y, z: self.z - o.z }
    }

    /// Componentwise negation.
    pub fn neg(self) -> (r: Vec3F)
        requires
            vb(self@, 0x2000_0000_0000_0000int),
        ensures
            r@ == vneg(self@),
    {
        Vec3F { x: -self.x, y: -self.y, z: -self.z }
    }

    /// Fixed-point scaling of every component.
    pub fn smul(self, s: i64) -> (r: Vec3F)
        requires
            vb(self@, FX_ABS_MAX as int),
            -FX_ABS_MAX <= s <= FX_ABS_MAX,
        ensures
            r@ == vsmul(self@, s as int),
    {
        Vec3F { x: fx_mul(self.x, s), y: fx_mul(self.y, s), z: fx_mul(self.z, s) }
    }

    /// Fixed-point dot product.
    pub fn dot(self, o: Vec3F) -> (r: i64)
        requires
            vb(self@, VEC_OP_MAX as int),
            vb(o@, VEC_OP_MAX as int),
        ensures
            r == vdot(self@, o@),
    {
        proof {
            lemma_fxs_mul_le(self.x as int, o.x as int, VEC_OP_MAX as int, VEC_OP_MAX as int);
            lemma_fxs_mul_le(self.y as int, o.y as int, VEC_OP_MAX as int, VEC_OP_MAX as int);
            lemma_fxs_mul_le(self.z as int, o.z as int, VEC_OP_MAX as int, VEC_OP_MAX as int);
            assert (fxs_mul(VEC_OP_MAX as int, VEC_OP_MAX as int) == 0x1000_0000_0000_0000);
        }
        fx_mul(self.x, o.x) + fx_mul(self.y, o.y) + fx_mul(self.z, o.z)
    }

    /// Fixed-point cross product.
    pub fn cross(self, o: Vec3F) -> (r: Vec3F)
        requires
            vb(self@, VEC_OP_MAX as int),
            vb(o@, VEC_OP_MAX as int),
        ensures
            r@ == vcross(self@, o@),
    {
        proof {
            lemma_fxs_mul_le(self.y as int, o.z as int, VEC_OP_MAX as int, VEC_OP_MAX as int);
            lemma_fxs_mul_le(self.z as int, o.y as int, VEC_OP_MAX as int, VEC_OP_MAX as int);
            lemma_fxs_mul_le(self.z as int, o.x as int, VEC_OP_MAX as int, VEC_OP_MAX as int);
            lemma_fxs_mul_le(self.x as int, o.z as int, VEC_OP_MAX as int, VEC_OP_MAX as int);
            lemma_fxs_mul_le(self.x as int, o.y as int, VEC_OP_MAX as int, VEC_OP_MAX as int);
            lemma_fxs_mul_le(self.y as int, o.x as int, VEC_OP_MAX as int, VEC_OP_MAX as int);
            assert (fxs_mul(VEC_OP_MAX as int, VEC_OP_MAX as int) == 0x1000_0000_0000_0000);
        }
        Vec3F {
            x: fx_mul(self.y, o.z) - fx_mul(self.z, o.y),
            y: fx_mul(self.z, o.x) - fx_mul(self.x, o.z),
            z: fx_mul(self.x, o.y) - fx_mul(self.y, o.x),
        }
    }

    /// Euclidean length.
    pub fn norm(self) -> (r: i64)
        requires
            vb(self@, VEC_OP_MAX as int),
        ensures
            r == vnorm(self@),
            is_isqrt(vnorm2(self@), r as int),
            0 <= r < 0x80_0000_0000,
    {
        proof {
            assert (0 <= (self.x as int) * (self.x as int) <= 0x1000_0000_0000_0000_0000 && 0 <= (
            self.y as int) * (self.y as int) <= 0x1000_0000_0000_0000_0000 && 0 <= (self.z as int)
                * (self.z as int) <= 0x1000_0000_0000_0000_0000) by (nonlinear_arith)
                requires
                    -0x40_0000_0000 <= self.x <= 0x40_0000_0000,
                    -0x40_0000_0000 <= self.y <= 0x40_0000_0000,
                    -0x40_0000_0000 <= self.z <= 0x40_0000_0000,
            ;
        }
        let nx: i128 = (self.x as i128) * (self.x as i128);
        let ny: i128 = (self.y as i128) * (self.y as i128);
        let nz: i128 = (self.z as i128) * (self.z as i128);
        let n: u128 = (nx + ny + nz) as u128;
        let r: u64 = isqrt_u128(n);
        proof {
            assert ((r as int) < 0x80_0000_0000) by (nonlinear_arith)
                requires
                    is_isqrt(n as int, r as int),
                    n as int <= 0x3000_0000_0000_0000_0000,
            ;
        }
        r as i64
    }

    /// The vector scaled to unit length.
    pub fn normalize(self) -> (r: Vec3F)
        requires
            vb(self@, VEC_OP_MAX as int),
            vnorm2(self@) >= 1,
        ensures
            r@ == vnormalize(self@),
            vb(r@, (FX_ONE + 1) as int),
    {
        let m: i64 = self.norm();
        proof {
            assert (1 <= m) by (nonlinear_arith)
                requires
                    is_isqrt(vnorm2(self@), m as int),
                    vnorm2(self@) >= 1,
            ;
            assert (iabs(self.x as int) <= m && iabs(self.y as int) <= m && iabs(self.z as int)
                <= m) by (nonlinear_arith)
                requires
                    is_isqrt(vnorm2(self@), m as int),
                    0 <= m,
                    self@ == (self.x as int, self.y as int, self.z as int),
            ;
            lemma_div_frac_unit(self.x as int, m as int);
            lemma_div_frac_unit(self.y as int, m as int);
            lemma_div_frac_unit(self.z as int, m as int);
        }
        Vec3F { x: fx_div(self.x, m), y: fx_div(self.y, m), z: fx_div(self.z, m) }
    }

    /// Linear interpolation toward `o` by the factor `t`.
    pub fn lerp(self, o: Vec3F, t: i64) -> (r: Vec3F)
        requires
            vb(self@, VEC_OP_MAX as int),
            vb(o@, VEC_OP_MAX as int),
            0 <= t <= FX_ONE,
        ensures
            r@ == vlerp(self@, o@, t as int),
    {
        let dx: i64 = o.x - self.x;
        let dy: i64 = o.y - self.y;
        let dz: i64 = o.z - self.z;
        proof {
            lemma_fxs_mul_unit(dx as int, t as int);
            lemma_fxs_mul_unit(dy as int, t as int);
            lemma_fxs_mul_unit(dz as int, t as int);
        }
        Vec3F {
            x: self.x + fx_mul(dx, t),
            y: self.y + fx_mul(dy, t),
            z: self.z + fx_mul(dz, t),
        }
    }

    /// Rotation about the x axis.
    pub fn rot_x(self, ang: i64) -> (r: Vec3F)
        requires
            vb(self@, FX_ABS_MAX as int),
            -FX_ANGLE_MAX <= ang <= FX_ANGLE_MAX,
        ensures
            r@ == vrot_x(self@, ang as int),
            vb(r@, 2 * vmax_abs(self@) + 2),
    {
        let c: i64 = fx_cos(ang);
        let s: i64 = fx_sin(ang);
        proof {
            lemma_fxs_mul_unit(self.y as int, c as int);
            lemma_fxs_mul_unit(self.z as int, s as int);
            lemma_fxs_mul_unit(self.y as int, s as int);
            lemma_fxs_mul_unit(self.z as int, c as int);
        }
        Vec3F {
            x: self.x,
            y: fx_mul(self.y, c) - fx_mul(self.z, s),
            z: fx_mul(self.y, s) + fx_mul(self.z, c),
        }
    }

    /// Rotation about the y axis.
    pub fn rot_y(self, ang: i64) -> (r: Vec3F)
        requires
            vb(self@, FX_ABS_MAX as int),
            -FX_ANGLE_MAX <= ang <= FX_ANGLE_MAX,
        ensures
            r@ == vrot_y(self@, ang as int),
            vb(r@, 2 * vmax_abs(self@) + 2),
    {
        let c: i64 = fx_cos(ang);
        let s: i64 = fx_sin(ang);
        proof {
            lemma_fxs_mul_unit(self.x as int, c as int);
            lemma_fxs_mul_unit(self.z as int, s as int);
            lemma_fxs_mul_unit(self.x as int, s as int);
            lemma_fxs_mul_unit(self.z as int, c as int);
        }
        Vec3F {
            x: fx_mul(self.x, c) + fx_mul(self.z, s),
            y: self.y,
            z: fx_mul(self.z, c) - fx_mul(self.x, s),
        }
    }

    /// Rotation about the z axis.
    pub fn rot_z(self, ang: i64) -> (r: Vec3F)
        requires
            vb(self@, FX_ABS_MAX as int),
            -FX_ANGLE_MAX <= ang <= FX_ANGLE_MAX,
        ensures
            r@ == vrot_z(self@, ang as int),
            vb(r@, 2 * vmax_abs(self@) + 2),
    {
        let c: i64 = fx_cos(ang);
        let s: i64 = fx_sin(ang);
        proof {
            lemma_fxs_mul_unit(self.x as int, c as int);
            lemma_fxs_mul_unit(self.y as int, s as int);
            lemma_fxs_mul_unit(self.x as int, s as int);
            lemma_fxs_mul_unit(self.y as int, c as int);
        }
        Vec3F {
            x: fx_mul(self.x, c) - fx_mul(self.y, s),
            y: fx_mul(self.x, s) + fx_mul(self.y, c),
            z: self.z,
        }
    }

    /// Rodrigues' rotation about an arbitrary unit axis.
    pub fn rotate_axis(self, ang: i64, axis: Vec3F) -> (r: Vec3F)
        requires
            vb(self@, VEC_ROT_MAX as int),
            vb(axis@, (FX_ONE + 1) as int),
            -FX_ANGLE_MAX <= ang <= FX_ANGLE_MAX,
        ensures
            r@ == vrodrigues(self@, axis@, ang as int),
            vb(r@, 16 * vmax_abs(self@) + 0x100_0000),
    {
        proof {
            lemma_rodrigues_bounds(self@, axis@, ang as int);
        }
        let c: i64 = fx_cos(ang);
        let s: i64 = fx_sin(ang);
        let term1: Vec3F = self.smul(c);
        let crossed: Vec3F = axis.cross(self);
        let dotted: i64 = axis.dot(self);
        let term2: Vec3F = crossed.smul(s);
        let w: i64 = fx_mul(dotted, FX_ONE - c);
        let term3: Vec3F = axis.smul(w);
        term1.add(term2).add(term3)
    }
}

/// Bound for products with a near-unit factor: scaling a magnitude `b` by at
/// most `FX_ONE + 1` units adds at most a 2^-16 fraction.
pub proof fn lemma_unit_product_bound(b: int)
    requires
        0 <= b,
    ensures
        fxs_mul((FX_ONE + 1) as int, b) <= b + b / (FX_ONE as int) + 1,
        b / (FX_ONE as int) <= b,
{
    lemma_fundamental_div_mod(b, FX_ONE as int);
    lemma_mod_bound(b, FX_ONE as int);
    let q = b / (FX_ONE as int);
    assert ((FX_ONE + 1) * b == (q + b) * (FX_ONE as int) + (b % (FX_ONE as int)))
        by (nonlinear_arith)
        requires
            b == (FX_ONE as int) * q + (b % (FX_ONE as int)),
    ;
    lemma_fundamental_div_mod_converse(((FX_ONE + 1) as int) * b, FX_ONE as int, q + b, b % (
    FX_ONE as int));
    lemma_div_nonincreasing(b, FX_ONE as int);
    lemma_div_pos_is_pos(b, FX_ONE as int);
}

/// Bound for products with a factor of at most two units.
pub proof fn lemma_double_product_bound(b: int)
    requires
        0 <= b,
    ensures
        fxs_mul(b, 2 * (FX_ONE as int)) == 2 * b,
{
    lemma_div_by_multiple(2 * b, FX_ONE as int);
    assert (b * (2 * (FX_ONE as int)) == (2 * b) * (FX_ONE as int)) by (nonlinear_arith);
}

/// Division of a component by a length at least as large stays within one
/// unit.
proof fn lemma_div_frac_unit(x: int, m: int)
    requires
        1 <= m,
        iabs(x) <= m,
    ensures
        -(FX_ONE as int) - 1 <= fxs_div(x, m) <= FX_ONE,
{
    assert (-(m * (FX_ONE as int)) <= x * (FX_ONE as int) <= m * (FX_ONE as int))
        by (nonlinear_arith)
        requires
            1 <= m,
            iabs(x) <= m,
    ;
    lemma_div_is_ordered(x * (FX_ONE as int), m * (FX_ONE as int), m);
    lemma_div_is_ordered(-(m * (FX_ONE as int)), x * (FX_ONE as int), m);
    lemma_div_by_multiple(FX_ONE as int, m);
    assert (m * (FX_ONE as int) == (FX_ONE as int) * m) by (nonlinear_arith);
    lemma_div_neg(m * (FX_ONE as int), m);
}

/// A cross product of vectors with componentwise bounds `ba` and `bb` has
/// components within twice the fixed-point product of the bounds.
pub proof fn lemma_vcross_bounds(a: (int, int, int), b: (int, int, int), ba: int, bb: int)
    requires
        vb(a, ba),
        vb(b, bb),
        0 <= ba,
        0 <= bb,
    ensures
        vb(vcross(a, b), 2 * fxs_mul(ba, bb) + 2),
{
    lemma_fxs_mul_le(a.0, b.1, ba, bb);
    lemma_fxs_mul_le(a.0, b.2, ba, bb);
    lemma_fxs_mul_le(a.1, b.0, ba, bb);
    lemma_fxs_mul_le(a.1, b.2, ba, bb);
    lemma_fxs_mul_le(a.2, b.0, ba, bb);
    lemma_fxs_mul_le(a.2, b.1, ba, bb);
}

/// A cross product with a near-unit vector grows a componentwise bound by at
/// most a factor of two plus a rounding fringe.
pub proof fn lemma_vcross_near_unit(a: (int, int, int), k: (int, int, int), b: int)
    requires
        vb(a, b),
        vb(k, (FX_ONE + 1) as int),
        0 <= b,
    ensures
        vb(vcross(a, k), 2 * b + 2 * (b / (FX_ONE as int)) + 6),
        vb(vcross(k, a), 2 * b + 2 * (b / (FX_ONE as int)) + 6),
{
    lemma_fxs_mul_le(a.0, k.1, b, (FX_ONE + 1) as int);
    lemma_fxs_mul_le(a.0, k.2, b, (FX_ONE + 1) as int);
    lemma_fxs_mul_le(a.1, k.0, b, (FX_ONE + 1) as int);
    lemma_fxs_mul_le(a.1, k.2, b, (FX_ONE + 1) as int);
    lemma_fxs_mul_le(a.2, k.0, b, (FX_ONE + 1) as int);
    lemma_fxs_mul_le(a.2, k.1, b, (FX_ONE + 1) as int);
    lemma_fxs_mul_le(k.0, a.1, (FX_ONE + 1) as int, b);
    lemma_fxs_mul_le(k.0, a.2, (FX_ONE + 1) as int, b);
    lemma_fxs_mul_le(k.1, a.0, (FX_ONE + 1) as int, b);
    lemma_fxs_mul_le(k.1, a.2, (FX_ONE + 1) as int, b);
    lemma_fxs_mul_le(k.2, a.0, (FX_ONE + 1) as int, b);
    lemma_fxs_mul_le(k.2, a.1, (FX_ONE + 1) as int, b);
    lemma_unit_product_bound(b);
    assert (b * ((FX_ONE + 1) as int) == ((FX_ONE + 1) as int) * b) by (nonlinear_arith);
}

/// Componentwise bounds for every intermediate of Rodrigues' rotation of a
/// vector by a unit axis, in terms of the vector's largest component.
#[verifier::rlimit(60)]
pub proof fn lemma_rodrigues_bounds(v: (int, int, int), k: (int, int, int), ang: int)
    requires
        vb(v, VEC_ROT_MAX as int),
        vb(k, (FX_ONE + 1) as int),
    ensures
        vb(vsmul(v, fxs_cos(ang)), vmax_abs(v) + 1),
        vb(vcross(k, v), 2 * vmax_abs(v) + 0x10_0000),
        -(3 * vmax_abs(v) + 0x18_0000) <= vdot(k, v) <= 3 * vmax_abs(v) + 0x18_0000,
        -(6 * vmax_abs(v) + 0x30_0001) <= fxs_mul(vdot(k, v), (FX_ONE as int) - fxs_cos(ang))
            <= 6 * vmax_abs(v) + 0x30_0000,
        vb(vsmul(vcross(k, v), fxs_sin(ang)), 2 * vmax_abs(v) + 0x10_0001),
        vb(
            vsmul(k, fxs_mul(vdot(k, v), (FX_ONE as int) - fxs_cos(ang))),
            6 * vmax_abs(v) + 0x50_0000,
        ),
{
    let bm = vmax_abs(v);
    let c = fxs_cos(ang);
    let s = fxs_sin(ang);
    lemma_cos_bounds(ang);
    lemma_sin_bounds(ang);
    lemma_fxs_mul_unit(v.0, c);
    lemma_fxs_mul_unit(v.1, c);
    lemma_fxs_mul_unit(v.2, c);
    lemma_fxs_mul_le(k.0, v.0, (FX_ONE + 1) as int, bm);
    lemma_fxs_mul_le(k.1, v.1, (FX_ONE + 1) as int, bm);
    lemma_fxs_mul_le(k.2, v.2, (FX_ONE + 1) as int, bm);
    lemma_fxs_mul_le(k.0, v.1, (FX_ONE + 1) as int, bm);
    lemma_fxs_mul_le(k.0, v.2, (FX_ONE + 1) as int, bm);
    lemma_fxs_mul_le(k.1, v.0, (FX_ONE + 1) as int, bm);
    lemma_fxs_mul_le(k.1, v.2, (FX_ONE + 1) as int, bm);
    lemma_fxs_mul_le(k.2, v.0, (FX_ONE + 1) as int, bm);
    lemma_fxs_mul_le(k.2, v.1, (FX_ONE + 1) as int, bm);
    lemma_unit_product_bound(bm);
    lemma_div_is_ordered(bm, VEC_ROT_MAX as int, FX_ONE as int);
    assert ((VEC_ROT_MAX as int) / (FX_ONE as int) == 0x4_0000);
    let dt = vdot(k, v);
    assert (-(3 * bm + 0x18_0000) <= dt <= 3 * bm + 0x18_0000);
    let dbound: int = 3 * bm + 0x18_0000;
    lemma_fxs_mul_le(dt, (FX_ONE as int) - c, dbound, 2 * (FX_ONE as int));
    lemma_double_product_bound(dbound);
    let w = fxs_mul(dt, (FX_ONE as int) - c);
    let cr = vcross(k, v);
    lemma_fxs_mul_unit(cr.0, s);
    lemma_fxs_mul_unit(cr.1, s);
    lemma_fxs_mul_unit(cr.2, s);
    let wbound: int = 6 * bm + 0x30_0001;
    lemma_fxs_mul_le(k.0, w, (FX_ONE + 1) as int, wbound);
    lemma_fxs_mul_le(k.1, w, (FX_ONE + 1) as int, wbound);
    lemma_fxs_mul_le(k.2, w, (FX_ONE + 1) as int, wbound);
    lemma_unit_product_bound(wbound);
    lemma_div_is_ordered(wbound, 6 * (VEC_ROT_MAX as int) + 0x30_0001, FX_ONE as int);
    assert ((6 * (VEC_ROT_MAX as int) + 0x30_0001) / (FX_ONE as int) == 0x18_0030);
}

} // verus!

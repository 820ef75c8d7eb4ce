//! Four-component vectors and 4x4 fixed-point matrices, used for the
//! homogeneous transforms of the render path (model, view, projection,
//! viewport).
//!
//! A matrix views as its four rows; every operation's contract states the
//! resulting entries exactly in terms of the fixed-point scalar operations.

use vstd::prelude::*;
use crate::fixed::{fxs_mul, fxs_sin, fxs_cos, fx_mul, fx_sin, fx_cos, FX_ONE, FX_ANGLE_MAX, lemma_fxs_mul_le};
use crate::vec3::{
    Vec3F, vsub, vcross, vdot, vnorm2, vnormalize, vb, lemma_vcross_near_unit,
    lemma_unit_product_bound,
};

verus! {

/// A homogeneous fixed-point vector.
#[derive(Clone, Copy, PartialEq, Eq, Structural, Debug)]
pub struct Vec4F {
    pub x: i64,
    pub y: i64,
    pub z: i64,
    pub w: i64,
}

impl View for Vec4F {
    type V = (int, int, int, int);

    open spec fn view(&self) -> (int, int, int, int) {
        (self.x as int, self.y as int, self.z as int, self.w as int)
    }
}

/// Every component lies within `[-b, b]`.
pub open spec fn v4b(a: (int, int, int, int), b: int) -> bool {
    &&& -b <= a.0 <= b
    &&& -b <= a.1 <= b
    &&& -b <= a.2 <= b
    &&& -b <= a.3 <= b
}

/// Fixed-point dot product of homogeneous vectors.
pub open spec fn rdot(a: (int, int, int, int), b: (int, int, int, int)) -> int {
    fxs_mul(a.0, b.0) + fxs_mul(a.1, b.1) + fxs_mul(a.2, b.2) + fxs_mul(a.3, b.3)
}

/// A 4x4 fixed-point matrix, stored by rows.
#[derive(Clone, Copy, PartialEq, Eq, Structural, Debug)]
pub struct Mat4F {
    pub r0: Vec4F,
    pub r1: Vec4F,
    pub r2: Vec4F,
    pub r3: Vec4F,
}

/// The view of a matrix: its four rows.
pub type M4 = ((int, int, int, int), (int, int, int, int), (int, int, int, int), (int, int, int, int));

impl View for Mat4F {
    type V = M4;

    open spec fn view(&self) -> M4 {
        (self.r0@, self.r1@, self.r2@, self.r3@)
    }
}

/// Every entry lies within `[-b, b]`.
pub open spec fn m4b(m: M4, b: int) -> bool {
    v4b(m.0, b) && v4b(m.1, b) && v4b(m.2, b) && v4b(m.3, b)
}

/// The columns of a matrix.
pub open spec fn m4col0(m: M4) -> (int, int, int, int) {
    (m.0.0, m.1.0, m.2.0, m.3.0)
}

pub open spec fn m4col1(m: M4) -> (int, int, int, int) {
    (m.0.1, m.1.1, m.2.1, m.3.1)
}

pub open spec fn m4col2(m: M4) -> (int, int, int, int) {
    (m.0.2, m.1.2, m.2.2, m.3.2)
}

pub open spec fn m4col3(m: M4) -> (int, int, int, int) {
    (m.0.3, m.1.3, m.2.3, m.3.3)
}

/// Matrix times column vector.
pub open spec fn m4apply(m: M4, v: (int, int, int, int)) -> (int, int, int, int) {
    (rdot(m.0, v), rdot(m.1, v), rdot(m.2, v), rdot(m.3, v))
}

/// Matrix product.
pub open spec fn m4mul(a: M4, b: M4) -> M4 {
    (
        (rdot(a.0, m4col0(b)), rdot(a.0, m4col1(b)), rdot(a.0, m4col2(b)), rdot(a.0, m4col3(b))),
        (rdot(a.1, m4col0(b)), rdot(a.1, m4col1(b)), rdot(a.1, m4col2(b)), rdot(a.1, m4col3(b))),
        (rdot(a.2, m4col0(b)), rdot(a.2, m4col1(b)), rdot(a.2, m4col2(b)), rdot(a.2, m4col3(b))),
        (rdot(a.3, m4col0(b)), rdot(a.3, m4col1(b)), rdot(a.3, m4col2(b)), rdot(a.3, m4col3(b))),
    )
}

/// The identity matrix (ones on the diagonal, in fixed-point scale).
pub open spec fn m4identity() -> M4 {
    (
        (FX_ONE as int, 0int, 0int, 0int),
        (0int, FX_ONE as int, 0int, 0int),
        (0int, 0int, FX_ONE as int, 0int),
        (0int, 0int, 0int, FX_ONE as int),
    )
}

/// Rotation about the x axis by a fixed-point angle.
pub open spec fn m4rot_x(ang: int) -> M4 {
    let c = fxs_cos(ang);
    let s = fxs_sin(ang);
    (
        (FX_ONE as int, 0int, 0int, 0int),
        (0int, c, -s, 0int),
        (0int, s, c, 0int),
        (0int, 0int, 0int, FX_ONE as int),
    )
}

/// Rotation about the y axis by a fixed-point angle.
pub open spec fn m4rot_y(ang: int) -> M4 {
    let c = fxs_cos(ang);
    let s = fxs_sin(ang);
    (
        (c, 0int, s, 0int),
        (0int, FX_ONE as int, 0int, 0int),
        (-s, 0int, c, 0int),
        (0int, 0int, 0int, FX_ONE as int),
    )
}

/// Rotation about the z axis by a fixed-point angle.
pub open spec fn m4rot_z(ang: int) -> M4 {
    let c = fxs_cos(ang);
    let s = fxs_sin(ang);
    (
        (c, -s, 0int, 0int),
        (s, c, 0int, 0int),
        (0int, 0int, FX_ONE as int, 0int),
        (0int, 0int, 0int, FX_ONE as int),
    )
}

/// Uniform scaling.
pub open spec fn m4scaling(k: int) -> M4 {
    ((k, 0int, 0int, 0int), (0int, k, 0int, 0int), (0int, 0int, k, 0int), (0int, 0int, 0int, FX_ONE as int))
}

/// Translation by a 3-vector.
pub open spec fn m4translation(v: (int, int, int)) -> M4 {
    (
        (FX_ONE as int, 0int, 0int, v.0),
        (0int, FX_ONE as int, 0int, v.1),
        (0int, 0int, FX_ONE as int, v.2),
        (0int, 0int, 0int, FX_ONE as int),
    )
}

/// The right-handed look-at view matrix: forward toward the center, side
/// and up axes orthonormalized, translation aligning the eye with the
/// origin.
pub open spec fn look_at_spec(eye: (int, int, int), center: (int, int, int), up: (int, int, int)) -> M4 {
    let f = vnormalize(vsub(center, eye));
    let s = vnormalize(vcross(f, up));
    let u = vcross(s, f);
    (
        (s.0, s.1, s.2, -vdot(s, eye)),
        (u.0, u.1, u.2, -vdot(u, eye)),
        (-f.0, -f.1, -f.2, vdot(f, eye)),
        (0int, 0int, 0int, FX_ONE as int),
    )
}

/// Entry cap accepted by the matrix product and application.
pub const MAT_ENTRY_MAX: i64 = 0x4000_0000;

/// Result cap guaranteed by the matrix product and application.
pub const MAT_RESULT_MAX: i64 = 0x4000_0000_0004;

/// Fixed-point dot product of two bounded homogeneous vectors.
fn dot4(a: Vec4F, b: Vec4F) -> (r: i64)
    requires
        v4b(a@, MAT_ENTRY_MAX as int),
        v4b(b@, MAT_ENTRY_MAX as int),
    ensures
        r == rdot(a@, b@),
        -MAT_RESULT_MAX <= r <= MAT_RESULT_MAX,
{
    proof {
        lemma_fxs_mul_le(a.x as int, b.x as int, MAT_ENTRY_MAX as int, MAT_ENTRY_MAX as int);
        lemma_fxs_mul_le(a.y as int, b.y as int, MAT_ENTRY_MAX as int, MAT_ENTRY_MAX as int);
        lemma_fxs_mul_le(a.z as int, b.z as int, MAT_ENTRY_MAX as int, MAT_ENTRY_MAX as int);
        lemma_fxs_mul_le(a.w as int, b.w as int, MAT_ENTRY_MAX as int, MAT_ENTRY_MAX as int);
        assert (fxs_mul(MAT_ENTRY_MAX as int, MAT_ENTRY_MAX as int) == 0x1000_0000_0000);
    }
    fx_mul(a.x, b.x) + fx_mul(a.y, b.y) + fx_mul(a.z, b.z) + fx_mul(a.w, b.w)
}

impl Vec4F {
    /// Builds a homogeneous vector from its components.
    pub fn new(x: i64, y: i64, z: i64, w: i64) -> (r: Vec4F)
        ensures
            r@ == (x as int, y as int, z as int, w as int),
    {
        Vec4F { x, y, z, w }
    }

    /// Extends a 3-vector with a unit homogeneous coordinate.
    pub fn from_vec3(v: Vec3F) -> (r: Vec4F)
        ensures
            r@ == (v@.0, v@.1, v@.2, FX_ONE as int),
    {
        Vec4F { x: v.x, y: v.y, z: v.z, w: FX_ONE }
    }
}

impl Mat4F {
    /// Builds a matrix from its rows.
    pub fn from_rows(r0: Vec4F, r1: Vec4F, r2: Vec4F, r3: Vec4F) -> (m: Mat4F)
        ensures
            m@ == (r0@, r1@, r2@, r3@),
    {
        Mat4F { r0, r1, r2, r3 }
    }

    /// The identity matrix.
    pub fn identity() -> (m: Mat4F)
        ensures
            m@ == m4identity(),
    {
        Mat4F {
            r0: Vec4F { x: FX_ONE, y: 0, z: 0, w: 0 },
            r1: Vec4F { x: 0, y: FX_ONE, z: 0, w: 0 },
            r2: Vec4F { x: 0, y: 0, z: FX_ONE, w: 0 },
            r3: Vec4F { x: 0, y: 0, z: 0, w: FX_ONE },
        }
    }

    /// True exactly when every entry lies within `[-cap, cap]`.
    pub fn within(&self, cap: i64) -> (r: bool)
        requires
            0 <= cap,
        ensures
            r == m4b(self@, cap as int),
    {
        -cap <= self.r0.x && self.r0.x <= cap && -cap <= self.r0.y && self.r0.y <= cap
            && -cap <= self.r0.z && self.r0.z <= cap && -cap <= self.r0.w && self.r0.w <= cap
            && -cap <= self.r1.x && self.r1.x <= cap && -cap <= self.r1.y && self.r1.y <= cap
            && -cap <= self.r1.z && self.r1.z <= cap && -cap <= self.r1.w && self.r1.w <= cap
            && -cap <= self.r2.x && self.r2.x <= cap && -cap <= self.r2.y && self.r2.y <= cap
            && -cap <= self.r2.z && self.r2.z <= cap && -cap <= self.r2.w && self.r2.w <= cap
            && -cap <= self.r3.x && self.r3.x <= cap && -cap <= self.r3.y && self.r3.y <= cap
            && -cap <= self.r3.z && self.r3.z <= cap && -cap <= self.r3.w && self.r3.w <= cap
    }

    /// Applies the matrix to a homogeneous column vector.
    pub fn transform(&self, v: Vec4F) -> (r: Vec4F)
        requires
            m4b(self@, MAT_ENTRY_MAX as int),
            v4b(v@, MAT_ENTRY_MAX as int),
        ensures
            r@ == m4apply(self@, v@),
            v4b(r@, MAT_RESULT_MAX as int),
    {
        Vec4F {
            x: dot4(self.r0, v),
            y: dot4(self.r1, v),
            z: dot4(self.r2, v),
            w: dot4(self.r3, v),
        }
    }

    /// Matrix product `self * o`.
    pub fn mul(&self, o: &Mat4F) -> (r: Mat4F)
        requires
            m4b(self@, MAT_ENTRY_MAX as int),
            m4b(o@, MAT_ENTRY_MAX as int),
        ensures
            r@ == m4mul(self@, o@),
            m4b(r@, MAT_RESULT_MAX as int),
    {
        let c0: Vec4F = Vec4F { x: o.r0.x, y: o.r1.x, z: o.r2.x, w: o.r3.x };
        let c1: Vec4F = Vec4F { x: o.r0.y, y: o.r1.y, z: o.r2.y, w: o.r3.y };
        let c2: Vec4F = Vec4F { x: o.r0.z, y: o.r1.z, z: o.r2.z, w: o.r3.z };
        let c3: Vec4F = Vec4F { x: o.r0.w, y: o.r1.w, z: o.r2.w, w: o.r3.w };
        Mat4F {
            r0: Vec4F {
                x: dot4(self.r0, c0),
                y: dot4(self.r0, c1),
                z: dot4(self.r0, c2),
                w: dot4(self.r0, c3),
            },
            r1: Vec4F {
                x: dot4(self.r1, c0),
                y: dot4(self.r1, c1),
                z: dot4(self.r1, c2),
                w: dot4(self.r1, c3),
            },
            r2: Vec4F {
                x: dot4(self.r2, c0),
                y: dot4(self.r2, c1),
                z: dot4(self.r2, c2),
                w: dot4(self.r2, c3),
            },
            r3: Vec4F {
                x: dot4(self.r3, c0),
                y: dot4(self.r3, c1),
                z: dot4(self.r3, c2),
                w: dot4(self.r3, c3),
            },
        }
    }

    /// Rotation about the x axis.
    pub fn rotation_x(ang: i64) -> (m: Mat4F)
        requires
            -FX_ANGLE_MAX <= ang <= FX_ANGLE_MAX,
        ensures
            m@ == m4rot_x(ang as int),
            m4b(m@, FX_ONE as int),
    {
        let c: i64 = fx_cos(ang);
        let s: i64 = fx_sin(ang);
        Mat4F {
            r0: Vec4F { x: FX_ONE, y: 0, z: 0, w: 0 },
            r1: Vec4F { x: 0, y: c, z: -s, w: 0 },
            r2: Vec4F { x: 0, y: s, z: c, w: 0 },
            r3: Vec4F { x: 0, y: 0, z: 0, w: FX_ONE },
        }
    }

    /// Rotation about the y axis.
    pub fn rotation_y(ang: i64) -> (m: Mat4F)
        requires
            -FX_ANGLE_MAX <= ang <= FX_ANGLE_MAX,
        ensures
            m@ == m4rot_y(ang as int),
            m4b(m@, FX_ONE as int),
    {
        let c: i64 = fx_cos(ang);
        let s: i64 = fx_sin(ang);
        Mat4F {
            r0: Vec4F { x: c, y: 0, z: s, w: 0 },
            r1: Vec4F { x: 0, y: FX_ONE, z: 0, w: 0 },
            r2: Vec4F { x: -s, y: 0, z: c, w: 0 },
            r3: Vec4F { x: 0, y: 0, z: 0, w: FX_ONE },
        }
    }

    /// Rotation about the z axis.
    pub fn rotation_z(ang: i64) -> (m: Mat4F)
        requires
            -FX_ANGLE_MAX <= ang <= FX_ANGLE_MAX,
        ensures
            m@ == m4rot_z(ang as int),
            m4b(m@, FX_ONE as int),
    {
        let c: i64 = fx_cos(ang);
        let s: i64 = fx_sin(ang);
        Mat4F {
            r0: Vec4F { x: c, y: -s, z: 0, w: 0 },
            r1: Vec4F { x: s, y: c, z: 0, w: 0 },
            r2: Vec4F { x: 0, y: 0, z: FX_ONE, w: 0 },
            r3: Vec4F { x: 0, y: 0, z: 0, w: FX_ONE },
        }
    }

    /// Uniform scaling.
    pub fn scaling(k: i64) -> (m: Mat4F)
        ensures
            m@ == m4scaling(k as int),
    {
        Mat4F {
            r0: Vec4F { x: k, y: 0, z: 0, w: 0 },
            r1: Vec4F { x: 0, y: k, z: 0, w: 0 },
            r2: Vec4F { x: 0, y: 0, z: k, w: 0 },
            r3: Vec4F { x: 0, y: 0, z: 0, w: FX_ONE },
        }
    }

    /// Translation by a 3-vector.
    pub fn translation(v: Vec3F) -> (m: Mat4F)
        ensures
            m@ == m4translation(v@),
    {
        Mat4F {
            r0: Vec4F { x: FX_ONE, y: 0, z: 0, w: v.x },
            r1: Vec4F { x: 0, y: FX_ONE, z: 0, w: v.y },
            r2: Vec4F { x: 0, y: 0, z: FX_ONE, w: v.z },
            r3: Vec4F { x: 0, y: 0, z: 0, w: FX_ONE },
        }
    }

    /// The right-handed look-at view matrix.
    pub fn look_at(eye: Vec3F, center: Vec3F, up: Vec3F) -> (m: Mat4F)
        requires
            vb(eye@, 0x100_0000),
            vb(center@, 0x100_0000),
            vb(up@, 0x100_0000),
            vnorm2(vsub(center@, eye@)) >= 1,
            vnorm2(vcross(vnormalize(vsub(center@, eye@)), up@)) >= 1,
        ensures
            m@ == look_at_spec(eye@, center@, up@),
            m4b(m@, 0x2000_0000),
    {
        let f: Vec3F = center.sub(eye).normalize();
        proof {
            lemma_vcross_near_unit(up@, f@, 0x100_0000);
        }
        let s: Vec3F = f.cross(up).normalize();
        proof {
            lemma_vcross_near_unit(s@, f@, (FX_ONE + 1) as int);
        }
        let u: Vec3F = s.cross(f);
        let ds: i64 = s.dot(eye);
        let du: i64 = u.dot(eye);
        let df: i64 = f.dot(eye);
        proof {
            lemma_fxs_mul_le(s.x as int, eye.x as int, (FX_ONE + 1) as int, 0x100_0000);
            lemma_fxs_mul_le(s.y as int, eye.y as int, (FX_ONE + 1) as int, 0x100_0000);
            lemma_fxs_mul_le(s.z as int, eye.z as int, (FX_ONE + 1) as int, 0x100_0000);
            lemma_fxs_mul_le(u.x as int, eye.x as int, 0x4_0000, 0x100_0000);
            lemma_fxs_mul_le(u.y as int, eye.y as int, 0x4_0000, 0x100_0000);
            lemma_fxs_mul_le(u.z as int, eye.z as int, 0x4_0000, 0x100_0000);
            lemma_fxs_mul_le(f.x as int, eye.x as int, (FX_ONE + 1) as int, 0x100_0000);
            lemma_fxs_mul_le(f.y as int, eye.y as int, (FX_ONE + 1) as int, 0x100_0000);
            lemma_fxs_mul_le(f.z as int, eye.z as int, (FX_ONE + 1) as int, 0x100_0000);
            lemma_unit_product_bound(0x100_0000);
            assert (fxs_mul(0x4_0000, 0x100_0000) == 0x400_0000);
        }
        Mat4F {
            r0: Vec4F { x: s.x, y: s.y, z: s.z, w: -ds },
            r1: Vec4F { x: u.x, y: u.y, z: u.z, w: -du },
            r2: Vec4F { x: -f.x, y: -f.y, z: -f.z, w: df },
            r3: Vec4F { x: 0, y: 0, z: 0, w: FX_ONE },
        }
    }
}

/// A dot product of bounded homogeneous vectors is bounded by four times
/// the fixed-point product of the bounds, plus a rounding fringe.
pub proof fn lemma_rdot_le(a: (int, int, int, int), b: (int, int, int, int), ba: int, bb: int)
    requires
        v4b(a, ba),
        v4b(b, bb),
        0 <= ba,
        0 <= bb,
    ensures
        -(4 * fxs_mul(ba, bb) + 4) <= rdot(a, b) <= 4 * fxs_mul(ba, bb) + 4,
        0 <= fxs_mul(ba, bb),
{
    lemma_fxs_mul_le(a.0, b.0, ba, bb);
    lemma_fxs_mul_le(a.1, b.1, ba, bb);
    lemma_fxs_mul_le(a.2, b.2, ba, bb);
    lemma_fxs_mul_le(a.3, b.3, ba, bb);
}

/// Entries of a matrix product of bounded matrices are bounded by four
/// times the fixed-point product of the bounds, plus a rounding fringe.
pub proof fn lemma_m4mul_le(a: M4, b: M4, ba: int, bb: int)
    requires
        m4b(a, ba),
        m4b(b, bb),
        0 <= ba,
        0 <= bb,
    ensures
        m4b(m4mul(a, b), 4 * fxs_mul(ba, bb) + 4),
{
    lemma_rdot_le(a.0, m4col0(b), ba, bb);
    lemma_rdot_le(a.0, m4col1(b), ba, bb);
    lemma_rdot_le(a.0, m4col2(b), ba, bb);
    lemma_rdot_le(a.0, m4col3(b), ba, bb);
    lemma_rdot_le(a.1, m4col0(b), ba, bb);
    lemma_rdot_le(a.1, m4col1(b), ba, bb);
    lemma_rdot_le(a.1, m4col2(b), ba, bb);
    lemma_rdot_le(a.1, m4col3(b), ba, bb);
    lemma_rdot_le(a.2, m4col0(b), ba, bb);
    lemma_rdot_le(a.2, m4col1(b), ba, bb);
    lemma_rdot_le(a.2, m4col2(b), ba, bb);
    lemma_rdot_le(a.2, m4col3(b), ba, bb);
    lemma_rdot_le(a.3, m4col0(b), ba, bb);
    lemma_rdot_le(a.3, m4col1(b), ba, bb);
    lemma_rdot_le(a.3, m4col2(b), ba, bb);
    lemma_rdot_le(a.3, m4col3(b), ba, bb);
}

} // verus!

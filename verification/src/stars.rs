//! The procedural star field.
//!
//! Generated once: positions drawn in spherical coordinates (angles and
//! radius each uniform, so density leans toward the center — a cosmetic
//! choice), pale near-white colors, brightness in the upper half of the
//! unit range.  Every frame the stars are projected through the current
//! view, projection and viewport transforms and drawn as single
//! depth-tested pixels.

use vstd::prelude::*;
use vstd::arithmetic::div_mod::*;
use crate::fixed::{
    FX_ONE, FX_PI, FX_TWO_PI, fxs_mul, fxs_div, fx_mul, fx_div, fx_cos, fx_sin, floor_div_i128,
    isqrt_u128, is_isqrt, lemma_fxs_mul_le,
};
use crate::vec3::{Vec3F, vb, vsub, vcross, vnorm2, vnormalize, lemma_unit_product_bound};
use crate::mat4::{Mat4F, Vec4F, M4, m4b, m4mul, m4apply, look_at_spec};
use crate::color::{Color, pack_rgb};
use crate::star::Star;
use crate::framebuffer::{Framebuffer, plot_spec};
use crate::camera::Camera;

verus! {

/// Relies on `rand::random_range` over `0..n`: a draw from a non-empty
/// integer range lies in that range; nothing more is assumed of it.
#[verifier::external_body]
fn random_below(n: i64) -> (r: i64)
    requires
        1 <= n,
    ensures
        0 <= r < n,
{
    rand::random_range(0..n)
}

/// Largest star-field radius accepted.
pub const STAR_RADIUS_MAX: i64 = 0x1000_0000;

/// The ball a generated star provably lies in: the given radius plus a
/// small rounding fringe (one part in 16384 of the radius, from the two
/// fixed-point products per coordinate, plus a constant).
pub open spec fn star_sphere_bound(radius: int) -> int {
    radius + radius / 16384 + 8
}

/// What a freshly generated star satisfies, whatever the random draws:
/// brightness in the upper half of the unit range, pale near-white color
/// channels, and a position inside the sphere of the given radius — its
/// squared Euclidean length is at most the square of the radius plus the
/// rounding fringe (each coordinate is also bounded on its own).
pub open spec fn star_generated(s: Star, radius: int) -> bool {
    &&& 32768 <= s.brightness < FX_ONE
    &&& 200 <= s.color.r
    &&& 200 <= s.color.g
    &&& 200 <= s.color.b
    &&& vb(s.position@, radius + radius / (FX_ONE as int) + 2)
    &&& vnorm2(s.position@) <= star_sphere_bound(radius) * star_sphere_bound(radius)
}

/// The Pythagorean partner of a trigonometric component: the magnitude is
/// the integer square root of what remains of one squared unit, so the
/// pair's squares provably sum to at most one squared unit — which is what
/// keeps a spherical sample inside its ball; the sign is taken from the
/// library sine or cosine of the same angle.
fn complement_component(a: i64, sign_src: i64) -> (r: i64)
    requires
        -FX_ONE <= a <= FX_ONE,
    ensures
        (a as int) * (a as int) + (r as int) * (r as int) <= (FX_ONE as int) * (FX_ONE as int),
        -FX_ONE <= r <= FX_ONE,
        sign_src >= 0 ==> r >= 0,
        sign_src < 0 ==> r <= 0,
{
    proof {
        assert (0 <= (a as int) * (a as int) <= (FX_ONE as int) * (FX_ONE as int))
            by (nonlinear_arith)
            requires
                -FX_ONE <= a <= FX_ONE,
        ;
    }
    let rest: u128 = ((FX_ONE as i128) * (FX_ONE as i128) - (a as i128) * (a as i128)) as u128;
    let m: u64 = isqrt_u128(rest);
    proof {
        assert (m <= FX_ONE) by (nonlinear_arith)
            requires
                is_isqrt(rest as int, m as int),
                rest as int <= (FX_ONE as int) * (FX_ONE as int),
                0 <= m,
                FX_ONE == 65536,
        ;
    }
    let mag: i64 = m as i64;
    proof {
        assert (rest as int == (FX_ONE as int) * (FX_ONE as int) - (a as int) * (a as int));
        assert ((-(mag as int)) * (-(mag as int)) == (mag as int) * (mag as int))
            by (nonlinear_arith);
    }
    if sign_src < 0 {
        -mag
    } else {
        mag
    }
}

/// A spherical sample stays in its ball: when each angle's two components
/// have squares summing to at most one squared unit and the drawn radius
/// is strictly below `radius`, the assembled point's squared Euclidean
/// length is at most the square of `star_sphere_bound(radius)`.
#[verifier::rlimit(100)]
proof fn lemma_sphere_sample_bound(ct: int, st: int, sp: int, cp: int, r: int, radius: int)
    requires
        ct * ct + st * st <= (FX_ONE as int) * (FX_ONE as int),
        sp * sp + cp * cp <= (FX_ONE as int) * (FX_ONE as int),
        0 <= r < radius,
        1 <= radius,
    ensures
        ({
            let x = fxs_mul(r, fxs_mul(ct, sp));
            let y = fxs_mul(r, fxs_mul(st, sp));
            let z = fxs_mul(r, cp);
            x * x + y * y + z * z <= star_sphere_bound(radius) * star_sphere_bound(radius)
        }),
{
    let s1 = FX_ONE as int;
    let m1 = fxs_mul(ct, sp);
    let m2 = fxs_mul(st, sp);
    let x = fxs_mul(r, m1);
    let y = fxs_mul(r, m2);
    let z = fxs_mul(r, cp);
    let f = radius / 16384;
    let b = star_sphere_bound(radius);
    lemma_fundamental_div_mod(ct * sp, s1);
    lemma_mod_bound(ct * sp, s1);
    lemma_fundamental_div_mod(st * sp, s1);
    lemma_mod_bound(st * sp, s1);
    lemma_fundamental_div_mod(r * m1, s1);
    lemma_mod_bound(r * m1, s1);
    lemma_fundamental_div_mod(r * m2, s1);
    lemma_mod_bound(r * m2, s1);
    lemma_fundamental_div_mod(r * cp, s1);
    lemma_mod_bound(r * cp, s1);
    lemma_fundamental_div_mod(radius, 16384);
    lemma_mod_bound(radius, 16384);
    lemma_div_pos_is_pos(radius, 16384);
    assert (-s1 <= ct <= s1 && -s1 <= st <= s1 && -s1 <= sp <= s1 && -s1 <= cp <= s1
        && ct * ct <= s1 * s1 && st * st <= s1 * s1 && sp * sp <= s1 * s1 && cp * cp <= s1 * s1)
        by (nonlinear_arith)
        requires
            ct * ct + st * st <= s1 * s1,
            sp * sp + cp * cp <= s1 * s1,
            s1 == 65536,
    ;
    assert (0 <= sp * sp && 0 <= r * r) by (nonlinear_arith);
    assert (-(s1 * s1) <= ct * sp <= s1 * s1 && -(s1 * s1) <= st * sp <= s1 * s1)
        by (nonlinear_arith)
        requires
            -s1 <= ct <= s1,
            -s1 <= st <= s1,
            -s1 <= sp <= s1,
            0 < s1,
    ;
    // squared floor quotients of the two horizontal products
    assert (s1 * s1 * (m1 * m1) <= (ct * ct) * (sp * sp) + 2 * (s1 * s1 * s1) + s1 * s1
        && -(s1 + 1) <= m1 <= s1 + 1) by (nonlinear_arith)
        requires
            ct * sp == s1 * m1 + (ct * sp) % s1,
            0 <= (ct * sp) % s1 < s1,
            -(s1 * s1) <= ct * sp <= s1 * s1,
            0 < s1,
    ;
    assert (s1 * s1 * (m2 * m2) <= (st * st) * (sp * sp) + 2 * (s1 * s1 * s1) + s1 * s1
        && -(s1 + 1) <= m2 <= s1 + 1) by (nonlinear_arith)
        requires
            st * sp == s1 * m2 + (st * sp) % s1,
            0 <= (st * sp) % s1 < s1,
            -(s1 * s1) <= st * sp <= s1 * s1,
            0 < s1,
    ;
    assert ((ct * ct) * (sp * sp) + (st * st) * (sp * sp) <= (s1 * s1) * (sp * sp))
        by (nonlinear_arith)
        requires
            ct * ct + st * st <= s1 * s1,
            0 <= sp * sp,
    ;
    assert (m1 * m1 + m2 * m2 <= sp * sp + 4 * s1 + 2) by (nonlinear_arith)
        requires
            s1 * s1 * (m1 * m1) + s1 * s1 * (m2 * m2) <= (s1 * s1) * (sp * sp) + 4 * (s1 * s1
                * s1) + 2 * (s1 * s1),
            0 < s1,
    ;
    // squared floor quotients of the three coordinates
    assert (s1 * s1 * (x * x) <= (r * r) * (m1 * m1) + 2 * (r * (s1 + 1)) * s1 + s1 * s1)
        by (nonlinear_arith)
        requires
            r * m1 == s1 * x + (r * m1) % s1,
            0 <= (r * m1) % s1 < s1,
            -(s1 + 1) <= m1 <= s1 + 1,
            0 <= r,
            0 < s1,
    ;
    assert (s1 * s1 * (y * y) <= (r * r) * (m2 * m2) + 2 * (r * (s1 + 1)) * s1 + s1 * s1)
        by (nonlinear_arith)
        requires
            r * m2 == s1 * y + (r * m2) % s1,
            0 <= (r * m2) % s1 < s1,
            -(s1 + 1) <= m2 <= s1 + 1,
            0 <= r,
            0 < s1,
    ;
    assert (s1 * s1 * (z * z) <= (r * r) * (cp * cp) + 2 * (r * s1) * s1 + s1 * s1)
        by (nonlinear_arith)
        requires
            r * cp == s1 * z + (r * cp) % s1,
            0 <= (r * cp) % s1 < s1,
            -s1 <= cp <= s1,
            0 <= r,
            0 < s1,
    ;
    // assemble: the squared length against the squared radius
    assert (m1 * m1 + m2 * m2 + cp * cp <= s1 * s1 + 4 * s1 + 2);
    assert ((r * r) * (m1 * m1) + (r * r) * (m2 * m2) + (r * r) * (cp * cp) <= (r * r) * (s1 * s1
        + 4 * s1 + 2)) by (nonlinear_arith)
        requires
            m1 * m1 + m2 * m2 + cp * cp <= s1 * s1 + 4 * s1 + 2,
            0 <= r,
    ;
    let total = x * x + y * y + z * z;
    assert (s1 * s1 * total <= (r * r) * (s1 * s1 + 4 * s1 + 2) + 6 * r * (s1 * s1) + 4 * (r * s1)
        + 3 * (s1 * s1)) by (nonlinear_arith)
        requires
            s1 * s1 * (x * x) <= (r * r) * (m1 * m1) + 2 * (r * (s1 + 1)) * s1 + s1 * s1,
            s1 * s1 * (y * y) <= (r * r) * (m2 * m2) + 2 * (r * (s1 + 1)) * s1 + s1 * s1,
            s1 * s1 * (z * z) <= (r * r) * (cp * cp) + 2 * (r * s1) * s1 + s1 * s1,
            (r * r) * (m1 * m1) + (r * r) * (m2 * m2) + (r * r) * (cp * cp) <= (r * r) * (s1 * s1
                + 4 * s1 + 2),
            total == x * x + y * y + z * z,
            0 <= r,
            s1 == 65536,
    ;
    // bound the radius draw by the given radius and fold in the fringe
    assert (s1 * s1 * total <= (s1 * s1) * (radius * radius) + 4 * (s1 * s1) * radius + 5 * s1 * (
    radius * radius) + 4 * (s1 * radius) + 4 * (s1 * s1)) by (nonlinear_arith)
        requires
            s1 * s1 * total <= (r * r) * (s1 * s1 + 4 * s1 + 2) + 6 * r * (s1 * s1) + 4 * (r * s1)
                + 3 * (s1 * s1),
            0 <= r,
            r <= radius - 1,
            1 <= radius,
            s1 == 65536,
    ;
    assert (s1 * f >= 4 * radius - s1 + 4 && 0 <= f) by (nonlinear_arith)
        requires
            radius == 16384 * f + radius % 16384,
            0 <= radius % 16384 < 16384,
            0 <= f,
            s1 == 65536,
    ;
    assert (2 * ((s1 * s1) * (radius * f)) >= 8 * (s1 * (radius * radius)) - 2 * ((s1 * s1)
        * radius) + 8 * (s1 * radius)) by (nonlinear_arith)
        requires
            s1 * f >= 4 * radius - s1 + 4,
            0 <= radius,
            0 < s1,
    ;
    assert (s1 * s1 * (b * b) >= (s1 * s1) * (radius * radius) + 2 * ((s1 * s1) * (radius * f))
        + 16 * ((s1 * s1) * radius) + 64 * (s1 * s1)) by (nonlinear_arith)
        requires
            b == radius + f + 8,
            0 <= f,
            0 <= radius,
            0 < s1,
    ;
    assert (s1 * s1 * total <= s1 * s1 * (b * b)) by (nonlinear_arith)
        requires
            s1 * s1 * total <= (s1 * s1) * (radius * radius) + 4 * (s1 * s1) * radius + 5 * s1 * (
            radius * radius) + 4 * (s1 * radius) + 4 * (s1 * s1),
            s1 * s1 * (b * b) >= (s1 * s1) * (radius * radius) + 2 * ((s1 * s1) * (radius * f))
                + 16 * ((s1 * s1) * radius) + 64 * (s1 * s1),
            2 * ((s1 * s1) * (radius * f)) >= 8 * (s1 * (radius * radius)) - 2 * ((s1 * s1)
                * radius) + 8 * (s1 * radius),
            0 <= radius,
            s1 == 65536,
    ;
    assert (total <= b * b) by (nonlinear_arith)
        requires
            s1 * s1 * total <= s1 * s1 * (b * b),
            s1 == 65536,
    ;
}


/// A star's pixel value: its color with every channel attenuated by its
/// brightness.
pub open spec fn star_pixel_spec(s: Star) -> int {
    pack_rgb(
        fxs_mul(s.color.r as int, s.brightness as int),
        fxs_mul(s.color.g as int, s.brightness as int),
        fxs_mul(s.color.b as int, s.brightness as int),
    )
}

/// Where a star lands on the screen: the view-projection transform, a
/// perspective divide for a strictly positive `w` (a star behind the eye
/// projects nowhere), and the viewport map rounded to the nearest pixel;
/// coordinates outside the fixed range project nowhere.
pub open spec fn star_screen_spec(vp: M4, viewport: M4, p: (int, int, int)) -> Option<
    (int, int, int),
> {
    let clip = m4apply(vp, (p.0, p.1, p.2, FX_ONE as int));
    if clip.3 <= 0 {
        None
    } else {
        let nx = fxs_div(clip.0, clip.3);
        let ny = fxs_div(clip.1, clip.3);
        let nz = fxs_div(clip.2, clip.3);
        if -0x4000_0000 <= nx <= 0x4000_0000 && -0x4000_0000 <= ny <= 0x4000_0000
            && -0x4000_0000 <= nz <= 0x4000_0000 {
            let sc = m4apply(viewport, (nx, ny, nz, FX_ONE as int));
            Some(((sc.0 + 32768) / 65536, (sc.1 + 32768) / 65536, nz))
        } else {
            None
        }
    }
}

/// The effect of one star on the color/depth arrays: a star that projects
/// onto the screen plots one depth-tested pixel of its brightness-scaled
/// color; any other star changes nothing.
pub open spec fn star_step_spec(
    state: (Seq<u32>, Seq<i64>),
    width: int,
    height: int,
    vp: M4,
    viewport: M4,
    s: Star,
) -> (Seq<u32>, Seq<i64>) {
    match star_screen_spec(vp, viewport, s.position@) {
        Some(q) => plot_spec(state.0, state.1, width, height, q.0, q.1, q.2, star_pixel_spec(s)),
        None => state,
    }
}

/// The whole effect of drawing the first `n` stars, in order: the fold of
/// the depth-tested writes over the projected stars.
pub open spec fn star_fold_spec(
    buf: Seq<u32>,
    zbuf: Seq<i64>,
    width: int,
    height: int,
    vp: M4,
    viewport: M4,
    stars: Seq<Star>,
    n: nat,
) -> (Seq<u32>, Seq<i64>)
    decreases n,
{
    if n == 0 {
        (buf, zbuf)
    } else {
        star_step_spec(
            star_fold_spec(buf, zbuf, width, height, vp, viewport, stars, (n - 1) as nat),
            width,
            height,
            vp,
            viewport,
            stars[n - 1],
        )
    }
}

/// Each star touches at most its own projected pixel: any index at which
/// the fold of the first `n` stars differs from the initial arrays is the
/// screen index of some drawn star, so at most `n` pixels change.
pub proof fn lemma_star_fold_footprint(
    buf: Seq<u32>,
    zbuf: Seq<i64>,
    width: int,
    height: int,
    vp: M4,
    viewport: M4,
    stars: Seq<Star>,
    n: nat,
    i: int,
)
    requires
        buf.len() == width * height,
        zbuf.len() == width * height,
        0 <= i < width * height,
        ({
            let folded = star_fold_spec(buf, zbuf, width, height, vp, viewport, stars, n);
            folded.0[i] != buf[i] || folded.1[i] != zbuf[i]
        }),
    ensures
        exists|k: int|
            0 <= k < n && match #[trigger] star_screen_spec(vp, viewport, stars[k].position@) {
                Some(q) => q.1 * width + q.0 == i,
                None => false,
            },
    decreases n,
{
    if n > 0 {
        let prev = star_fold_spec(buf, zbuf, width, height, vp, viewport, stars, (n - 1) as nat);
        if prev.0[i] != buf[i] || prev.1[i] != zbuf[i] {
            lemma_star_fold_footprint(
                buf,
                zbuf,
                width,
                height,
                vp,
                viewport,
                stars,
                (n - 1) as nat,
                i,
            );
            let kk = choose|k: int|
                0 <= k < (n - 1) as nat && match #[trigger] star_screen_spec(
                    vp,
                    viewport,
                    stars[k].position@,
                ) {
                    Some(q) => q.1 * width + q.0 == i,
                    None => false,
                };
            assert (0 <= kk < n && match star_screen_spec(vp, viewport, stars[kk].position@) {
                Some(q) => q.1 * width + q.0 == i,
                None => false,
            });
        } else {
            lemma_star_fold_len(buf, zbuf, width, height, vp, viewport, stars, (n - 1) as nat);
            match star_screen_spec(vp, viewport, stars[n - 1].position@) {
                Some(q) => {
                    if 0 <= q.0 < width && 0 <= q.1 < height && q.2 < prev.1[q.1 * width + q.0] {
                        assert (0 <= q.1 * width + q.0 < width * height) by (nonlinear_arith)
                            requires
                                0 <= q.0 < width,
                                0 <= q.1 < height,
                        ;
                        assert (q.1 * width + q.0 == i);
                        assert (0 <= n - 1 < n && match star_screen_spec(
                            vp,
                            viewport,
                            stars[n - 1].position@,
                        ) {
                            Some(qq) => qq.1 * width + qq.0 == i,
                            None => false,
                        });
                    }
                },
                None => {},
            }
        }
    }
}

/// The fold never changes the arrays' lengths.
pub proof fn lemma_star_fold_len(
    buf: Seq<u32>,
    zbuf: Seq<i64>,
    width: int,
    height: int,
    vp: M4,
    viewport: M4,
    stars: Seq<Star>,
    n: nat,
)
    requires
        buf.len() == width * height,
        zbuf.len() == width * height,
    ensures
        ({
            let folded = star_fold_spec(buf, zbuf, width, height, vp, viewport, stars, n);
            folded.0.len() == buf.len() && folded.1.len() == zbuf.len()
        }),
    decreases n,
{
    if n > 0 {
        lemma_star_fold_len(buf, zbuf, width, height, vp, viewport, stars, (n - 1) as nat);
        let prev = star_fold_spec(buf, zbuf, width, height, vp, viewport, stars, (n - 1) as nat);
        match star_screen_spec(vp, viewport, stars[n - 1].position@) {
            Some(q) => {
                if 0 <= q.0 < width && 0 <= q.1 < height {
                    assert (0 <= q.1 * width + q.0 < width * height) by (nonlinear_arith)
                        requires
                            0 <= q.0 < width,
                            0 <= q.1 < height,
                    ;
                }
            },
            None => {},
        }
    }
}

/// A fixed set of background stars, generated once.
pub struct StarField {
    pub stars: Vec<Star>,
}

impl StarField {
    /// Every star is within the sphere and has a unit-range brightness.
    pub open spec fn wf(self) -> bool {
        forall|i: int| 0 <= i < self.stars@.len() ==> (#[trigger] self.stars@[i]).wf()
    }

    /// Draws `num_stars` random stars inside a sphere of the given radius:
    /// uniform angles and radius, brightness in the upper half of the unit
    /// range, and near-white colors.
    pub fn new(num_stars: usize, radius: i64) -> (sf: StarField)
        requires
            num_stars == 0 || 1 <= radius,
            radius <= STAR_RADIUS_MAX,
        ensures
            sf.wf(),
            sf.stars@.len() == num_stars,
            forall|i: int|
                0 <= i < num_stars ==> star_generated(#[trigger] sf.stars@[i], radius as int),
    {
        let mut stars: Vec<Star> = Vec::new();
        let mut k: usize = 0;
        while k < num_stars
            invariant
                k <= num_stars,
                stars@.len() == k,
                num_stars == 0 || 1 <= radius,
                radius <= STAR_RADIUS_MAX,
                forall|i: int| 0 <= i < k ==> (#[trigger] stars@[i]).wf(),
                forall|i: int| 0 <= i < k ==> star_generated(#[trigger] stars@[i], radius as int),
            decreases num_stars - k,
        {
            let theta: i64 = random_below(FX_TWO_PI);
            let phi: i64 = random_below(FX_PI);
            let r: i64 = random_below(radius);
            // each angle's second component is the Pythagorean partner of
            // the first, so the sample provably stays inside the sphere
            let ct: i64 = fx_cos(theta);
            let st: i64 = complement_component(ct, fx_sin(theta));
            let sp: i64 = fx_sin(phi);
            let cp: i64 = complement_component(sp, fx_cos(phi));
            proof {
                lemma_fxs_mul_le(ct as int, sp as int, FX_ONE as int, FX_ONE as int);
                lemma_fxs_mul_le(st as int, sp as int, FX_ONE as int, FX_ONE as int);
                assert (fxs_mul(FX_ONE as int, FX_ONE as int) == FX_ONE);
            }
            let ctsp: i64 = fx_mul(ct, sp);
            let stsp: i64 = fx_mul(st, sp);
            proof {
                lemma_fxs_mul_le(r as int, ctsp as int, radius as int, (FX_ONE + 1) as int);
                lemma_fxs_mul_le(r as int, stsp as int, radius as int, (FX_ONE + 1) as int);
                lemma_fxs_mul_le(r as int, cp as int, radius as int, (FX_ONE + 1) as int);
                lemma_unit_product_bound(radius as int);
                assert (radius as int * ((FX_ONE + 1) as int) == ((FX_ONE + 1) as int) * (
                radius as int)) by (nonlinear_arith);
            }
            let x: i64 = fx_mul(r, ctsp);
            let y: i64 = fx_mul(r, stsp);
            let z: i64 = fx_mul(r, cp);
            proof {
                lemma_sphere_sample_bound(
                    ct as int,
                    st as int,
                    sp as int,
                    cp as int,
                    r as int,
                    radius as int,
                );
            }
            let brightness: i64 = 32768 + random_below(32768);
            let color: Color = Color::new(
                (200 + random_below(56)) as u8,
                (200 + random_below(56)) as u8,
                (200 + random_below(56)) as u8,
            );
            let star: Star = Star::new(Vec3F::new(x, y, z), brightness, color);
            stars.push(star);
            k = k + 1;
        }
        StarField { stars }
    }

    /// Projects every star through view, projection and viewport and draws
    /// it as one depth-tested pixel of its brightness-scaled color.  Stars
    /// behind the eye, or whose transformed coordinates leave the fixed
    /// range, are discarded.  Drawing never raises a stored depth, only
    /// overwrites a pixel by something strictly nearer, and an empty field
    /// leaves the framebuffer untouched.
    pub fn render(
        &self,
        framebuffer: &mut Framebuffer,
        camera: &Camera,
        projection_matrix: &Mat4F,
        viewport_matrix: &Mat4F,
    )
        requires
            self.wf(),
            old(framebuffer).wf(),
            old(framebuffer).width <= 0x7FFF_FFFF,
            old(framebuffer).height <= 0x7FFF_FFFF,
            camera.in_range(0x100_0000),
            vnorm2(vsub(camera.center@, camera.eye@)) >= 1,
            vnorm2(vcross(vnormalize(vsub(camera.center@, camera.eye@)), camera.up@)) >= 1,
            m4b(projection_matrix@, 0x4000_0000),
            m4b(viewport_matrix@, 0x4000_0000),
        ensures
            final(framebuffer).wf(),
            final(framebuffer).width == old(framebuffer).width,
            final(framebuffer).height == old(framebuffer).height,
            final(framebuffer).background_color == old(framebuffer).background_color,
            final(framebuffer).current_color == old(framebuffer).current_color,
            final(framebuffer).emissive_buffer@ == old(framebuffer).emissive_buffer@,
            final(framebuffer).buffer@.len() == old(framebuffer).buffer@.len(),
            final(framebuffer).zbuffer@.len() == old(framebuffer).zbuffer@.len(),
            forall|i: int|
                0 <= i < old(framebuffer).zbuffer@.len() ==> final(framebuffer).zbuffer@[i] <= old(
                    framebuffer,
                ).zbuffer@[i],
            forall|i: int|
                0 <= i < old(framebuffer).buffer@.len() && final(framebuffer).buffer@[i] != old(
                    framebuffer,
                ).buffer@[i] ==> final(framebuffer).zbuffer@[i] < old(framebuffer).zbuffer@[i],
            self.stars@.len() == 0 ==> final(framebuffer).buffer@ == old(framebuffer).buffer@
                && final(framebuffer).zbuffer@ == old(framebuffer).zbuffer@,
            ({
                let vp = m4mul(
                    projection_matrix@,
                    look_at_spec(camera.eye@, camera.center@, camera.up@),
                );
                let folded = star_fold_spec(
                    old(framebuffer).buffer@,
                    old(framebuffer).zbuffer@,
                    old(framebuffer).width as int,
                    old(framebuffer).height as int,
                    vp,
                    viewport_matrix@,
                    self.stars@,
                    self.stars@.len(),
                );
                if m4b(vp, 0x4000_0000) {
                    final(framebuffer).buffer@ == folded.0 && final(framebuffer).zbuffer@
                        == folded.1
                } else {
                    final(framebuffer).buffer@ == old(framebuffer).buffer@
                        && final(framebuffer).zbuffer@ == old(framebuffer).zbuffer@
                }
            }),
    {
        let n: usize = self.stars.len();
        let mut k: usize = 0;
        while k < n
            invariant
                k <= n,
                n == self.stars@.len(),
                self.wf(),
                framebuffer.wf(),
                framebuffer.width == old(framebuffer).width,
                framebuffer.height == old(framebuffer).height,
                framebuffer.width <= 0x7FFF_FFFF,
                framebuffer.height <= 0x7FFF_FFFF,
                framebuffer.background_color == old(framebuffer).background_color,
                framebuffer.current_color == old(framebuffer).current_color,
                framebuffer.emissive_buffer@ == old(framebuffer).emissive_buffer@,
                framebuffer.buffer@.len() == old(framebuffer).buffer@.len(),
                framebuffer.zbuffer@.len() == old(framebuffer).zbuffer@.len(),
                camera.in_range(0x100_0000),
                vnorm2(vsub(camera.center@, camera.eye@)) >= 1,
                vnorm2(vcross(vnormalize(vsub(camera.center@, camera.eye@)), camera.up@)) >= 1,
                m4b(projection_matrix@, 0x4000_0000),
                m4b(viewport_matrix@, 0x4000_0000),
                forall|i: int|
                    0 <= i < old(framebuffer).zbuffer@.len() ==> framebuffer.zbuffer@[i] <= old(
                        framebuffer,
                    ).zbuffer@[i],
                forall|i: int|
                    0 <= i < old(framebuffer).buffer@.len() && framebuffer.buffer@[i] != old(
                        framebuffer,
                    ).buffer@[i] ==> framebuffer.zbuffer@[i] < old(framebuffer).zbuffer@[i],
                k == 0 ==> framebuffer.buffer@ == old(framebuffer).buffer@
                    && framebuffer.zbuffer@ == old(framebuffer).zbuffer@,
                m4b(
                    m4mul(
                        projection_matrix@,
                        look_at_spec(camera.eye@, camera.center@, camera.up@),
                    ),
                    0x4000_0000,
                ) ==> (framebuffer.buffer@, framebuffer.zbuffer@) == star_fold_spec(
                    old(framebuffer).buffer@,
                    old(framebuffer).zbuffer@,
                    old(framebuffer).width as int,
                    old(framebuffer).height as int,
                    m4mul(
                        projection_matrix@,
                        look_at_spec(camera.eye@, camera.center@, camera.up@),
                    ),
                    viewport_matrix@,
                    self.stars@,
                    k as nat,
                ),
                !m4b(
                    m4mul(
                        projection_matrix@,
                        look_at_spec(camera.eye@, camera.center@, camera.up@),
                    ),
                    0x4000_0000,
                ) ==> framebuffer.buffer@ == old(framebuffer).buffer@ && framebuffer.zbuffer@
                    == old(framebuffer).zbuffer@,
            decreases n - k,
        {
            let star: &Star = &self.stars[k];
            let view_matrix: Mat4F = Mat4F::look_at(camera.eye, camera.center, camera.up);
            let view_projection: Mat4F = projection_matrix.mul(&view_matrix);
            if view_projection.within(0x4000_0000) {
                let position_vec4: Vec4F = Vec4F::from_vec3(star.position);
                let clip_space: Vec4F = view_projection.transform(position_vec4);
                if clip_space.w > 0 {
                    let ndx: i64 = fx_div(clip_space.x, clip_space.w);
                    let ndy: i64 = fx_div(clip_space.y, clip_space.w);
                    let ndz: i64 = fx_div(clip_space.z, clip_space.w);
                    if -0x4000_0000 <= ndx && ndx <= 0x4000_0000 && -0x4000_0000 <= ndy && ndy
                        <= 0x4000_0000 && -0x4000_0000 <= ndz && ndz <= 0x4000_0000 {
                        let screen: Vec4F = viewport_matrix.transform(
                            Vec4F::new(ndx, ndy, ndz, FX_ONE),
                        );
                        let px: i128 = floor_div_i128(screen.x as i128 + 32768, 65536);
                        let py: i128 = floor_div_i128(screen.y as i128 + 32768, 65536);
                        if 0 <= px && px < framebuffer.width as i128 && 0 <= py && py
                            < framebuffer.height as i128 {
                            proof {
                                assert (0 <= (py as int) * (framebuffer.width as int) + (
                                px as int) && (py as int) * (framebuffer.width as int) + (
                                px as int) < (framebuffer.width as int) * (
                                framebuffer.height as int)) by (nonlinear_arith)
                                    requires
                                        0 <= px && px < framebuffer.width as int,
                                        0 <= py && py < framebuffer.height as int,
                                ;
                            }
                            let color: Color = star.color.scaled(star.brightness);
                            framebuffer.set_pixel(px as i32, py as i32, color, ndz);
                        }
                    }
                }
            }
            proof {
                let vpv = m4mul(
                    projection_matrix@,
                    look_at_spec(camera.eye@, camera.center@, camera.up@),
                );
                if m4b(vpv, 0x4000_0000) {
                    assert (star_fold_spec(
                        old(framebuffer).buffer@,
                        old(framebuffer).zbuffer@,
                        old(framebuffer).width as int,
                        old(framebuffer).height as int,
                        vpv,
                        viewport_matrix@,
                        self.stars@,
                        (k + 1) as nat,
                    ) == star_step_spec(
                        star_fold_spec(
                            old(framebuffer).buffer@,
                            old(framebuffer).zbuffer@,
                            old(framebuffer).width as int,
                            old(framebuffer).height as int,
                            vpv,
                            viewport_matrix@,
                            self.stars@,
                            k as nat,
                        ),
                        old(framebuffer).width as int,
                        old(framebuffer).height as int,
                        vpv,
                        viewport_matrix@,
                        self.stars@[k as int],
                    ));
                }
            }
            k = k + 1;
        }
    }
}

} // verus!

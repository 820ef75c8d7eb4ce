//! Frame-driver helpers: the model/view/projection/viewport matrix
//! builders, the orbital-path sampler and the path point renderer.

use vstd::prelude::*;
use vstd::arithmetic::div_mod::*;
use crate::fixed::{
    FX_ONE, FX_TWO_PI, fxs_mul, fxs_div, fxs_cos, fxs_sin, fx_mul, fx_div, fx_cos, fx_sin,
    floor_div_i128, lemma_fxs_mul_le, lemma_div_frac_le, lemma_div_bounds,
};
use crate::vec3::{Vec3F, vb, vsub, vcross, vnorm2, vnormalize};
use crate::mat4::{
    Mat4F, Vec4F, M4, m4b, m4mul, m4apply, m4rot_x, m4rot_y, m4rot_z, m4scaling, m4translation,
    look_at_spec, m4identity, lemma_m4mul_le,
};
use crate::color::Color;
use crate::orbital::OrbitalElements;
use crate::framebuffer::{Framebuffer, plot_spec};

verus! {

/// One degree, in fixed-point radians.
pub const FX_DEGREE: i64 = 1144;

/// Half of the vertical field of view (22.5 degrees), in fixed-point
/// radians.
pub const FOV_HALF: i64 = 25736;

/// Near clipping distance (a tenth of a unit).
pub const PERSPECTIVE_NEAR: i64 = 6554;

/// Far clipping distance (a thousand units).
pub const PERSPECTIVE_FAR: i64 = 65536000;

/// Componentwise cap accepted for model translations.
pub const MODEL_POS_MAX: i64 = 0x20_0000;

/// The model matrix: translation times euler rotation (z, then y, then x)
/// times uniform scaling.
pub open spec fn model_matrix_spec(translation: (int, int, int), scale: int, rotation: (int, int, int)) -> M4 {
    m4mul(
        m4mul(
            m4translation(translation),
            m4mul(m4mul(m4rot_z(rotation.2), m4rot_y(rotation.1)), m4rot_x(rotation.0)),
        ),
        m4scaling(scale),
    )
}

/// The perspective matrix for a 45-degree vertical field of view and the
/// fixed near and far planes.
pub open spec fn perspective_spec(width: int, height: int) -> M4 {
    let c = fxs_cos(FOV_HALF as int);
    let s = fxs_sin(FOV_HALF as int);
    if s >= 0x4000 && c >= 0 {
        let aspect = fxs_div(width, height);
        let f = fxs_div(c, s);
        let fpn = (PERSPECTIVE_FAR + PERSPECTIVE_NEAR) as int;
        let fmn = (PERSPECTIVE_FAR - PERSPECTIVE_NEAR) as int;
        (
            (fxs_div(f, aspect), 0int, 0int, 0int),
            (0int, f, 0int, 0int),
            (0int, 0int, -fxs_div(fpn, fmn), -fxs_div(
                2 * fxs_mul(PERSPECTIVE_FAR as int, PERSPECTIVE_NEAR as int),
                fmn,
            )),
            (0int, 0int, -(FX_ONE as int), 0int),
        )
    } else {
        m4identity()
    }
}

/// The euler rotation matrix for angles given in fixed-point degrees.
pub open spec fn rotation_matrix_spec(pitch: int, yaw: int, roll: int) -> M4 {
    m4mul(
        m4mul(
            m4rot_z(fxs_mul(roll, FX_DEGREE as int)),
            m4rot_y(fxs_mul(yaw, FX_DEGREE as int)),
        ),
        m4rot_x(fxs_mul(pitch, FX_DEGREE as int)),
    )
}

/// The viewport matrix mapping normalized device coordinates onto a screen
/// of the given fixed-point extent, with the y axis flipped.
pub open spec fn viewport_spec(width: int, height: int) -> M4 {
    (
        (width / 2, 0int, 0int, width / 2),
        (0int, -(height / 2), 0int, height / 2),
        (0int, 0int, FX_ONE as int, 0int),
        (0int, 0int, 0int, FX_ONE as int),
    )
}

/// Perspective divide of one clip coordinate by a nonzero `w`; negating
/// both operands makes the divisor positive without changing the real
/// quotient.
pub open spec fn persp_div(x: int, w: int) -> int {
    if w > 0 {
        fxs_div(x, w)
    } else {
        fxs_div(-x, -w)
    }
}

/// Builds the model matrix from a body's resolved position, uniform scale
/// and static rotation.
pub fn create_model_matrix(translation: Vec3F, scale: i64, rotation: Vec3F) -> (m: Mat4F)
    requires
        vb(translation@, MODEL_POS_MAX as int),
        0 <= scale <= FX_ONE,
        vb(rotation@, 0x1000_0000_0000),
    ensures
        m@ == model_matrix_spec(translation@, scale as int, rotation@),
        m4b(m@, 0x4000_0000),
{
    let scale_matrix: Mat4F = Mat4F::scaling(scale);
    let rotation_x: Mat4F = Mat4F::rotation_x(rotation.x);
    let rotation_y: Mat4F = Mat4F::rotation_y(rotation.y);
    let rotation_z: Mat4F = Mat4F::rotation_z(rotation.z);
    proof {
        lemma_m4mul_le(rotation_z@, rotation_y@, FX_ONE as int, FX_ONE as int);
        assert (fxs_mul(FX_ONE as int, FX_ONE as int) == FX_ONE);
    }
    let rot_zy: Mat4F = rotation_z.mul(&rotation_y);
    proof {
        lemma_m4mul_le(rot_zy@, rotation_x@, 4 * (FX_ONE as int) + 4, FX_ONE as int);
        assert (fxs_mul(4 * (FX_ONE as int) + 4, FX_ONE as int) == 4 * (FX_ONE as int) + 4);
    }
    let rotation_matrix: Mat4F = rot_zy.mul(&rotation_x);
    let translation_matrix: Mat4F = Mat4F::translation(translation);
    proof {
        lemma_m4mul_le(
            translation_matrix@,
            rotation_matrix@,
            MODEL_POS_MAX as int,
            16 * (FX_ONE as int) + 20,
        );
        assert (fxs_mul(MODEL_POS_MAX as int, 16 * (FX_ONE as int) + 20) == 0x200_0280);
    }
    let tr: Mat4F = translation_matrix.mul(&rotation_matrix);
    proof {
        lemma_m4mul_le(tr@, scale_matrix@, 0x800_0A04, FX_ONE as int);
        assert (fxs_mul(0x800_0A04, FX_ONE as int) == 0x800_0A04);
    }
    tr.mul(&scale_matrix)
}

/// Builds the view matrix from the camera's eye, center and up.
pub fn create_view_matrix(eye: Vec3F, center: Vec3F, up: Vec3F) -> (m: Mat4F)
    requires
        vb(eye@, 0x100_0000),
        vb(center@, 0x100_0000),
        vb(up@, 0x100_0000),
        vnorm2(vsub(center@, eye@)) >= 1,
        vnorm2(vcross(vnormalize(vsub(center@, eye@)), up@)) >= 1,
    ensures
        m@ == look_at_spec(eye@, center@, up@),
        m4b(m@, 0x2000_0000),
{
    Mat4F::look_at(eye, center, up)
}

/// Builds the perspective matrix for a window of the given fixed-point
/// extent (landscape or square).
pub fn create_perspective_matrix(window_width: i64, window_height: i64) -> (m: Mat4F)
    requires
        1 <= window_height <= window_width <= 0x4000_0000,
    ensures
        m@ == perspective_spec(window_width as int, window_height as int),
        m4b(m@, 0x4000_0000),
{
    let c: i64 = fx_cos(FOV_HALF);
    let s: i64 = fx_sin(FOV_HALF);
    if s >= 0x4000 && c >= 0 {
        proof {
            lemma_div_bounds((c as int) * (FX_ONE as int), s as int, 0x4_0000);
            assert (-0x4_0000 * (s as int) <= (c as int) * (FX_ONE as int) && (c as int) * (
            FX_ONE as int) <= 0x4_0000 * (s as int)) by (nonlinear_arith)
                requires
                    0x4000 <= s,
                    0 <= c <= FX_ONE,
                    FX_ONE == 65536,
            ;
            lemma_div_pos_is_pos((c as int) * (FX_ONE as int), s as int);
            assert (0 <= (c as int) * (FX_ONE as int)) by (nonlinear_arith)
                requires
                    0 <= c,
            ;
        }
        let f: i64 = fx_div(c, s);
        let aspect: i64 = fx_div(window_width, window_height);
        proof {
            assert ((window_height as int) * (FX_ONE as int) * (window_height as int) <= (
            window_width as int) * (FX_ONE as int) * (window_height as int)) by (nonlinear_arith)
                requires
                    1 <= window_height <= window_width,
            ;
            lemma_div_frac_le(
                (window_height as int) * (FX_ONE as int),
                window_height as int,
                (window_width as int) * (FX_ONE as int),
                window_height as int,
            );
            assert ((window_height as int) * (FX_ONE as int) == (FX_ONE as int) * (
            window_height as int)) by (nonlinear_arith);
            lemma_div_by_multiple(FX_ONE as int, window_height as int);
            assert ((f as int) * (FX_ONE as int) * (FX_ONE as int) <= (f as int) * (
            FX_ONE as int) * (aspect as int)) by (nonlinear_arith)
                requires
                    FX_ONE <= aspect,
                    0 <= f,
            ;
            lemma_div_frac_le(
                (f as int) * (FX_ONE as int),
                aspect as int,
                (f as int) * (FX_ONE as int),
                FX_ONE as int,
            );
            lemma_div_by_multiple(f as int, FX_ONE as int);
            assert (0 <= (f as int) * (FX_ONE as int)) by (nonlinear_arith)
                requires
                    0 <= f,
            ;
            lemma_div_pos_is_pos((f as int) * (FX_ONE as int), aspect as int);
        }
        let m00: i64 = fx_div(f, aspect);
        let fpn: i64 = PERSPECTIVE_FAR + PERSPECTIVE_NEAR;
        let fmn: i64 = PERSPECTIVE_FAR - PERSPECTIVE_NEAR;
        proof {
            lemma_div_bounds((fpn as int) * (FX_ONE as int), fmn as int, 0x2_0000);
            assert (-0x2_0000 * (fmn as int) <= (fpn as int) * (FX_ONE as int) && (fpn as int) * (
            FX_ONE as int) <= 0x2_0000 * (fmn as int)) by (nonlinear_arith)
                requires
                    fpn == 65542554,
                    fmn == 65529446,
                    FX_ONE == 65536,
            ;
            lemma_div_bounds((PERSPECTIVE_FAR as int) * (PERSPECTIVE_NEAR as int), FX_ONE as int, 0x70_0000);
            assert (-0x70_0000 * (FX_ONE as int) <= (PERSPECTIVE_FAR as int) * (
            PERSPECTIVE_NEAR as int) && (PERSPECTIVE_FAR as int) * (PERSPECTIVE_NEAR as int)
                <= 0x70_0000 * (FX_ONE as int)) by (nonlinear_arith)
                requires
                    PERSPECTIVE_FAR == 65536000,
                    PERSPECTIVE_NEAR == 6554,
                    FX_ONE == 65536,
            ;
        }
        let m22: i64 = fx_div(fpn, fmn);
        let fn2: i64 = 2 * fx_mul(PERSPECTIVE_FAR, PERSPECTIVE_NEAR);
        proof {
            lemma_div_bounds((fn2 as int) * (FX_ONE as int), fmn as int, 0x2_0000);
            assert (-0x2_0000 * (fmn as int) <= (fn2 as int) * (FX_ONE as int) && (fn2 as int) * (
            FX_ONE as int) <= 0x2_0000 * (fmn as int)) by (nonlinear_arith)
                requires
                    -0xE0_0000 <= fn2 <= 0xE0_0000,
                    fmn == 65529446,
                    FX_ONE == 65536,
            ;
        }
        let m23: i64 = fx_div(fn2, fmn);
        Mat4F::from_rows(
            Vec4F::new(m00, 0, 0, 0),
            Vec4F::new(0, f, 0, 0),
            Vec4F::new(0, 0, -m22, -m23),
            Vec4F::new(0, 0, -FX_ONE, 0),
        )
    } else {
        Mat4F::identity()
    }
}

/// Builds a rotation matrix from euler angles given in fixed-point
/// degrees.
pub fn create_rotation_matrix(pitch: i64, yaw: i64, roll: i64) -> (m: Mat4F)
    requires
        -0x80_0000_0000 <= pitch <= 0x80_0000_0000,
        -0x80_0000_0000 <= yaw <= 0x80_0000_0000,
        -0x80_0000_0000 <= roll <= 0x80_0000_0000,
    ensures
        m@ == rotation_matrix_spec(pitch as int, yaw as int, roll as int),
        m4b(m@, 0x40_0000),
{
    proof {
        lemma_fxs_mul_le(pitch as int, FX_DEGREE as int, 0x80_0000_0000, FX_DEGREE as int);
        lemma_fxs_mul_le(yaw as int, FX_DEGREE as int, 0x80_0000_0000, FX_DEGREE as int);
        lemma_fxs_mul_le(roll as int, FX_DEGREE as int, 0x80_0000_0000, FX_DEGREE as int);
        lemma_div_pos_is_pos(0x80_0000_0000 * (FX_DEGREE as int), FX_ONE as int);
        lemma_div_nonincreasing(0x80_0000_0000 * (FX_DEGREE as int), FX_ONE as int);
    }
    let rotation_x: Mat4F = Mat4F::rotation_x(fx_mul(pitch, FX_DEGREE));
    let rotation_y: Mat4F = Mat4F::rotation_y(fx_mul(yaw, FX_DEGREE));
    let rotation_z: Mat4F = Mat4F::rotation_z(fx_mul(roll, FX_DEGREE));
    proof {
        lemma_m4mul_le(rotation_z@, rotation_y@, FX_ONE as int, FX_ONE as int);
        assert (fxs_mul(FX_ONE as int, FX_ONE as int) == FX_ONE);
    }
    let rot_zy: Mat4F = rotation_z.mul(&rotation_y);
    proof {
        lemma_m4mul_le(rot_zy@, rotation_x@, 4 * (FX_ONE as int) + 4, FX_ONE as int);
        assert (fxs_mul(4 * (FX_ONE as int) + 4, FX_ONE as int) == 4 * (FX_ONE as int) + 4);
    }
    rot_zy.mul(&rotation_x)
}

/// Builds the viewport matrix for a screen of the given fixed-point
/// extent.
pub fn create_viewport_matrix(width: i64, height: i64) -> (m: Mat4F)
    requires
        0 <= width <= 0x4000_0000,
        0 <= height <= 0x4000_0000,
    ensures
        m@ == viewport_spec(width as int, height as int),
        m4b(m@, 0x4000_0000),
{
    let half_w: i64 = floor_div_i128(width as i128, 2) as i64;
    let half_h: i64 = floor_div_i128(height as i128, 2) as i64;
    proof {
        lemma_div_pos_is_pos(width as int, 2);
        lemma_div_pos_is_pos(height as int, 2);
        lemma_div_nonincreasing(width as int, 2);
        lemma_div_nonincreasing(height as int, 2);
    }
    Mat4F::from_rows(
        Vec4F::new(half_w, 0, 0, half_w),
        Vec4F::new(0, -half_h, 0, half_h),
        Vec4F::new(0, 0, FX_ONE, 0),
        Vec4F::new(0, 0, 0, FX_ONE),
    )
}

/// Samples 360 equally spaced true anomalies around the full circle and
/// materializes the closed orbital track as a polyline of points.
pub fn generate_orbital_path(orbital_elements: &OrbitalElements) -> (path: Vec<Vec3F>)
    requires
        orbital_elements.wf(),
    ensures
        path@.len() == 360,
        forall|i: int|
            0 <= i < 360 ==> (#[trigger] path@[i])@ == orbital_elements.position_at_anomaly_spec(
                ((FX_TWO_PI as int) * i) / 360,
            ),
{
    let mut path: Vec<Vec3F> = Vec::new();
    let mut i: usize = 0;
    while i < 360
        invariant
            i <= 360,
            path@.len() == i,
            orbital_elements.wf(),
            forall|j: int|
                0 <= j < i ==> (#[trigger] path@[j])@
                    == orbital_elements.position_at_anomaly_spec(((FX_TWO_PI as int) * j) / 360),
        decreases 360 - i,
    {
        let true_anomaly: i64 = floor_div_i128(
            (FX_TWO_PI as i128) * (i as i128),
            360,
        ) as i64;
        proof {
            lemma_div_pos_is_pos((FX_TWO_PI as int) * (i as int), 360);
            lemma_div_nonincreasing((FX_TWO_PI as int) * (i as int), 360);
            assert (0 <= (FX_TWO_PI as int) * (i as int) <= 0x1000_0000) by (nonlinear_arith)
                requires
                    0 <= i < 360,
                    FX_TWO_PI == 411774,
            ;
        }
        let position: Vec3F = orbital_elements.position_at_anomaly(true_anomaly);
        path.push(position);
        i = i + 1;
    }
    path
}

/// Where a world point lands on the screen: view-projection, perspective
/// divide by a nonzero `w` and the viewport map, rounded to the nearest
/// pixel; a point whose `w` vanishes or whose normalized coordinates leave
/// the fixed range projects nowhere.
pub open spec fn screen_point_spec(vp: M4, viewport: M4, p: (int, int, int)) -> Option<
    (int, int, int),
> {
    let clip = m4apply(vp, (p.0, p.1, p.2, FX_ONE as int));
    if clip.3 == 0 {
        None
    } else {
        let nx = persp_div(clip.0, clip.3);
        let ny = persp_div(clip.1, clip.3);
        let nz = persp_div(clip.2, clip.3);
        if -0x4000_0000 <= nx <= 0x4000_0000 && -0x4000_0000 <= ny <= 0x4000_0000
            && -0x4000_0000 <= nz <= 0x4000_0000 {
            let sc = m4apply(viewport, (nx, ny, nz, FX_ONE as int));
            Some(((sc.0 + 32768) / 65536, (sc.1 + 32768) / 65536, nz))
        } else {
            None
        }
    }
}

/// Projects a world point to a pixel position and its depth.
pub fn project_point(view_projection: &Mat4F, viewport: &Mat4F, p: Vec3F) -> (r: Option<
    (i64, i64, i64),
>)
    requires
        m4b(view_projection@, 0x4000_0000),
        m4b(viewport@, 0x4000_0000),
        vb(p@, 0x4000_0000),
    ensures
        ({
            match screen_point_spec(view_projection@, viewport@, p@) {
                Some(q) => r matches Some(e) && e.0 == q.0 && e.1 == q.1 && e.2 == q.2,
                None => r is None,
            }
        }),
{
    let world_pos: Vec4F = Vec4F::from_vec3(p);
    let clip_space: Vec4F = view_projection.transform(world_pos);
    if clip_space.w == 0 {
        return None;
    }
    let ndx: i64 = persp_div_exec(clip_space.x, clip_space.w);
    let ndy: i64 = persp_div_exec(clip_space.y, clip_space.w);
    let ndz: i64 = persp_div_exec(clip_space.z, clip_space.w);
    if -0x4000_0000 <= ndx && ndx <= 0x4000_0000 && -0x4000_0000 <= ndy && ndy <= 0x4000_0000
        && -0x4000_0000 <= ndz && ndz <= 0x4000_0000 {
        let screen: Vec4F = viewport.transform(Vec4F::new(ndx, ndy, ndz, FX_ONE));
        let px: i64 = floor_div_i128(screen.x as i128 + 32768, 65536) as i64;
        let py: i64 = floor_div_i128(screen.y as i128 + 32768, 65536) as i64;
        proof {
            lemma_div_bounds(screen.x as int + 32768, 65536, 0x4000_0000_0005);
            lemma_div_bounds(screen.y as int + 32768, 65536, 0x4000_0000_0005);
        }
        Some((px, py, ndz))
    } else {
        None
    }
}

/// The effect of one path point on the color/depth arrays: a point within
/// the fixed coordinate range that projects onto the screen plots one
/// white depth-tested pixel; any other point changes nothing.
pub open spec fn path_step_spec(
    state: (Seq<u32>, Seq<i64>),
    width: int,
    height: int,
    vp: M4,
    viewport: M4,
    p: (int, int, int),
) -> (Seq<u32>, Seq<i64>) {
    if vb(p, 0x4000_0000) {
        match screen_point_spec(vp, viewport, p) {
            Some(q) => plot_spec(state.0, state.1, width, height, q.0, q.1, q.2, 0xFFFFFF),
            None => state,
        }
    } else {
        state
    }
}

/// The whole effect of drawing the first `n` path points, in order: the
/// fold of the depth-tested white-pixel writes over the projected points.
pub open spec fn path_fold_spec(
    buf: Seq<u32>,
    zbuf: Seq<i64>,
    width: int,
    height: int,
    vp: M4,
    viewport: M4,
    path: Seq<Vec3F>,
    n: nat,
) -> (Seq<u32>, Seq<i64>)
    decreases n,
{
    if n == 0 {
        (buf, zbuf)
    } else {
        path_step_spec(
            path_fold_spec(buf, zbuf, width, height, vp, viewport, path, (n - 1) as nat),
            width,
            height,
            vp,
            viewport,
            path[n - 1]@,
        )
    }
}

/// Each path point touches at most its own projected pixel: any index at
/// which the fold of the first `n` points differs from the initial arrays
/// is the screen index of some drawn point, so at most `n` pixels change.
pub proof fn lemma_path_fold_footprint(
    buf: Seq<u32>,
    zbuf: Seq<i64>,
    width: int,
    height: int,
    vp: M4,
    viewport: M4,
    path: Seq<Vec3F>,
    n: nat,
    i: int,
)
    requires
        buf.len() == width * height,
        zbuf.len() == width * height,
        0 <= i < width * height,
        ({
            let folded = path_fold_spec(buf, zbuf, width, height, vp, viewport, path, n);
            folded.0[i] != buf[i] || folded.1[i] != zbuf[i]
        }),
    ensures
        exists|k: int|
            0 <= k < n && match #[trigger] screen_point_spec(vp, viewport, path[k]@) {
                Some(q) => q.1 * width + q.0 == i,
                None => false,
            },
    decreases n,
{
    if n > 0 {
        let prev = path_fold_spec(buf, zbuf, width, height, vp, viewport, path, (n - 1) as nat);
        if prev.0[i] != buf[i] || prev.1[i] != zbuf[i] {
            lemma_path_fold_footprint(
                buf,
                zbuf,
                width,
                height,
                vp,
                viewport,
                path,
                (n - 1) as nat,
                i,
            );
            let kk = choose|k: int|
                0 <= k < (n - 1) as nat && match #[trigger] screen_point_spec(
                    vp,
                    viewport,
                    path[k]@,
                ) {
                    Some(q) => q.1 * width + q.0 == i,
                    None => false,
                };
            assert (0 <= kk < n && match screen_point_spec(vp, viewport, path[kk]@) {
                Some(q) => q.1 * width + q.0 == i,
                None => false,
            });
        } else {
            lemma_path_fold_len(buf, zbuf, width, height, vp, viewport, path, (n - 1) as nat);
            if vb(path[n - 1]@, 0x4000_0000) {
                match screen_point_spec(vp, viewport, path[n - 1]@) {
                    Some(q) => {
                        if 0 <= q.0 < width && 0 <= q.1 < height && q.2 < prev.1[q.1 * width
                            + q.0] {
                            assert (0 <= q.1 * width + q.0 < width * height) by (nonlinear_arith)
                                requires
                                    0 <= q.0 < width,
                                    0 <= q.1 < height,
                            ;
                            assert (q.1 * width + q.0 == i);
                            assert (0 <= n - 1 < n && match screen_point_spec(
                                vp,
                                viewport,
                                path[n - 1]@,
                            ) {
                                Some(qq) => qq.1 * width + qq.0 == i,
                                None => false,
                            });
                        }
                    },
                    None => {},
                }
            }
        }
    }
}

/// The fold never changes the arrays' lengths.
pub proof fn lemma_path_fold_len(
    buf: Seq<u32>,
    zbuf: Seq<i64>,
    width: int,
    height: int,
    vp: M4,
    viewport: M4,
    path: Seq<Vec3F>,
    n: nat,
)
    requires
        buf.len() == width * height,
        zbuf.len() == width * height,
    ensures
        ({
            let folded = path_fold_spec(buf, zbuf, width, height, vp, viewport, path, n);
            folded.0.len() == buf.len() && folded.1.len() == zbuf.len()
        }),
    decreases n,
{
    if n > 0 {
        lemma_path_fold_len(buf, zbuf, width, height, vp, viewport, path, (n - 1) as nat);
        if vb(path[n - 1]@, 0x4000_0000) {
            match screen_point_spec(vp, viewport, path[n - 1]@) {
                Some(q) => {
                    if 0 <= q.0 < width && 0 <= q.1 < height {
                        assert (0 <= q.1 * width + q.0 < width * height) by (nonlinear_arith)
                            requires
                                0 <= q.0 < width,
                                0 <= q.1 < height,
                        ;
                    }
                },
                None => {},
            }
        }
    }
}

/// Projects every path point through the view, projection and viewport
/// transforms and draws it as one white depth-tested pixel.  Points behind
/// a degenerate transform or outside the fixed range are discarded.
/// Drawing never raises a stored depth and only overwrites a pixel by
/// something strictly nearer; an empty path leaves the framebuffer
/// untouched.
pub fn render_orbital_points(
    framebuffer: &mut Framebuffer,
    path: &Vec<Vec3F>,
    view_matrix: &Mat4F,
    projection_matrix: &Mat4F,
    viewport_matrix: &Mat4F,
)
    requires
        old(framebuffer).wf(),
        old(framebuffer).width <= 0x7FFF_FFFF,
        old(framebuffer).height <= 0x7FFF_FFFF,
        m4b(view_matrix@, 0x4000_0000),
        m4b(projection_matrix@, 0x4000_0000),
        m4b(viewport_matrix@, 0x4000_0000),
    ensures
        final(framebuffer).wf(),
        final(framebuffer).width == old(framebuffer).width,
        final(framebuffer).height == old(framebuffer).height,
        final(framebuffer).background_color == old(framebuffer).background_color,
        final(framebuffer).current_color == old(framebuffer).current_color,
        final(framebuffer).emissive_buffer@ == old(framebuffer).emissive_buffer@,
        final(framebuffer).buffer@.len() == old(framebuffer).buffer@.len(),
        final(framebuffer).zbuffer@.len() == old(framebuffer).zbuffer@.len(),
        forall|i: int|
            0 <= i < old(framebuffer).zbuffer@.len() ==> final(framebuffer).zbuffer@[i]
                <= old(framebuffer).zbuffer@[i],
        forall|i: int|
            0 <= i < old(framebuffer).buffer@.len() && final(framebuffer).buffer@[i]
                != old(framebuffer).buffer@[i] ==> final(framebuffer).zbuffer@[i]
                < old(framebuffer).zbuffer@[i],
        path@.len() == 0 ==> final(framebuffer).buffer@ == old(framebuffer).buffer@
            && final(framebuffer).zbuffer@ == old(framebuffer).zbuffer@,
        ({
            let vp = m4mul(projection_matrix@, view_matrix@);
            let folded = path_fold_spec(
                old(framebuffer).buffer@,
                old(framebuffer).zbuffer@,
                old(framebuffer).width as int,
                old(framebuffer).height as int,
                vp,
                viewport_matrix@,
                path@,
                path@.len(),
            );
            if m4b(vp, 0x4000_0000) {
                final(framebuffer).buffer@ == folded.0 && final(framebuffer).zbuffer@ == folded.1
            } else {
                final(framebuffer).buffer@ == old(framebuffer).buffer@
                    && final(framebuffer).zbuffer@ == old(framebuffer).zbuffer@
            }
        }),
{
    let color: Color = Color::new(255, 255, 255);
    let view_projection: Mat4F = projection_matrix.mul(&view_matrix);
    let usable: bool = view_projection.within(0x4000_0000);
    let n: usize = path.len();
    let mut k: usize = 0;
    while k < n
        invariant
            k <= n,
            n == path@.len(),
            framebuffer.wf(),
            framebuffer.width == old(framebuffer).width,
            framebuffer.height == old(framebuffer).height,
            framebuffer.width <= 0x7FFF_FFFF,
            framebuffer.height <= 0x7FFF_FFFF,
            framebuffer.background_color == old(framebuffer).background_color,
            framebuffer.current_color == old(framebuffer).current_color,
            framebuffer.emissive_buffer@ == old(framebuffer).emissive_buffer@,
            framebuffer.buffer@.len() == old(framebuffer).buffer@.len(),
            framebuffer.zbuffer@.len() == old(framebuffer).zbuffer@.len(),
            m4b(viewport_matrix@, 0x4000_0000),
            view_projection@ == m4mul(projection_matrix@, view_matrix@),
            usable == m4b(view_projection@, 0x4000_0000),
            color == (Color { r: 255u8, g: 255u8, b: 255u8 }),
            forall|i: int|
                0 <= i < old(framebuffer).zbuffer@.len() ==> framebuffer.zbuffer@[i] <= old(
                    framebuffer,
                ).zbuffer@[i],
            forall|i: int|
                0 <= i < old(framebuffer).buffer@.len() && framebuffer.buffer@[i] != old(
                    framebuffer,
                ).buffer@[i] ==> framebuffer.zbuffer@[i] < old(framebuffer).zbuffer@[i],
            k == 0 ==> framebuffer.buffer@ == old(framebuffer).buffer@ && framebuffer.zbuffer@
                == old(framebuffer).zbuffer@,
            usable ==> (framebuffer.buffer@, framebuffer.zbuffer@) == path_fold_spec(
                old(framebuffer).buffer@,
                old(framebuffer).zbuffer@,
                old(framebuffer).width as int,
                old(framebuffer).height as int,
                view_projection@,
                viewport_matrix@,
                path@,
                k as nat,
            ),
            !usable ==> framebuffer.buffer@ == old(framebuffer).buffer@ && framebuffer.zbuffer@
                == old(framebuffer).zbuffer@,
        decreases n - k,
    {
        let point: &Vec3F = &path[k];
        if usable && -0x4000_0000 <= point.x && point.x <= 0x4000_0000 && -0x4000_0000 <= point.y
            && point.y <= 0x4000_0000 && -0x4000_0000 <= point.z && point.z <= 0x4000_0000 {
            match project_point(&view_projection, viewport_matrix, *point) {
                Some((px, py, ndz)) => {
                    if 0 <= px && px < framebuffer.width as i64 && 0 <= py && py
                        < framebuffer.height as i64 {
                        proof {
                            assert (0 <= (py as int) * (framebuffer.width as int) + (px as int)
                                && (py as int) * (framebuffer.width as int) + (px as int) < (
                            framebuffer.width as int) * (framebuffer.height as int))
                                by (nonlinear_arith)
                                requires
                                    0 <= px && px < framebuffer.width as int,
                                    0 <= py && py < framebuffer.height as int,
                            ;
                        }
                        framebuffer.set_pixel(px as i32, py as i32, color, ndz);
                    }
                },
                None => {},
            }
        }
        proof {
            if usable {
                assert (path_fold_spec(
                    old(framebuffer).buffer@,
                    old(framebuffer).zbuffer@,
                    old(framebuffer).width as int,
                    old(framebuffer).height as int,
                    view_projection@,
                    viewport_matrix@,
                    path@,
                    (k + 1) as nat,
                ) == path_step_spec(
                    path_fold_spec(
                        old(framebuffer).buffer@,
                        old(framebuffer).zbuffer@,
                        old(framebuffer).width as int,
                        old(framebuffer).height as int,
                        view_projection@,
                        viewport_matrix@,
                        path@,
                        k as nat,
                    ),
                    old(framebuffer).width as int,
                    old(framebuffer).height as int,
                    view_projection@,
                    viewport_matrix@,
                    path@[k as int]@,
                ));
            }
        }
        k = k + 1;
    }
}

/// Perspective divide by a nonzero clip `w`.
fn persp_div_exec(x: i64, w: i64) -> (r: i64)
    requires
        w != 0,
        -0x4000_0000_0005 <= x <= 0x4000_0000_0005,
        -0x4000_0000_0005 <= w <= 0x4000_0000_0005,
    ensures
        r == persp_div(x as int, w as int),
{
    if w > 0 {
        fx_div(x, w)
    } else {
        fx_div(-x, -w)
    }
}

} // verus!

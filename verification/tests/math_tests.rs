use solarsim::fixed::{
    fx_cos, fx_div, fx_mul, fx_sin, fx_wrap_two_pi, isqrt_u128, FX_HALF_PI, FX_ONE, FX_PI,
    FX_TWO_PI,
};
use solarsim::mat4::{Mat4F, Vec4F};
use solarsim::render::{
    create_model_matrix, create_perspective_matrix, create_viewport_matrix, generate_orbital_path,
    project_point, render_orbital_points,
};
use solarsim::orbital::OrbitalElements;
use solarsim::framebuffer::{Framebuffer, DEPTH_FAR};
use solarsim::vec3::Vec3F;

#[test]
fn fixed_point_products_and_quotients() {
    assert_eq!(fx_mul(3 * FX_ONE, 2 * FX_ONE), 6 * FX_ONE);
    assert_eq!(fx_mul(-3 * FX_ONE, 2 * FX_ONE), -6 * FX_ONE);
    assert_eq!(fx_mul(FX_ONE / 2, FX_ONE / 2), FX_ONE / 4);
    assert_eq!(fx_div(6 * FX_ONE, 2 * FX_ONE), 3 * FX_ONE);
    assert_eq!(fx_div(-6 * FX_ONE, 2 * FX_ONE), -3 * FX_ONE);
    assert_eq!(fx_div(FX_ONE, 3), (FX_ONE as i128 * 65536 / 3) as i64);
}

#[test]
fn sine_and_cosine_behave() {
    assert_eq!(fx_sin(0), 0);
    assert_eq!(fx_sin(FX_TWO_PI), 0);
    // the quarter-turn sine is within a fraction of one unit
    let s = fx_sin(FX_HALF_PI);
    assert!(s > FX_ONE - 200 && s <= FX_ONE, "sin(pi/2) = {}", s);
    let c = fx_cos(0);
    assert!(c > FX_ONE - 200 && c <= FX_ONE, "cos(0) = {}", c);
    // sine is exactly periodic by construction
    for &x in &[-1_000_000i64, -3, 0, 7, 123_456, 9_999_999] {
        assert_eq!(fx_sin(x), fx_sin(x + FX_TWO_PI));
        assert!(fx_sin(x) >= -FX_ONE && fx_sin(x) <= FX_ONE);
    }
    // the half-circle sine is small and nonnegative by symmetry of the
    // half-wave approximation
    assert_eq!(fx_sin(FX_PI), 0);
}

#[test]
fn wrapping_is_the_euclidean_remainder() {
    assert_eq!(fx_wrap_two_pi(0), 0);
    assert_eq!(fx_wrap_two_pi(FX_TWO_PI), 0);
    assert_eq!(fx_wrap_two_pi(FX_TWO_PI + 5), 5);
    assert_eq!(fx_wrap_two_pi(-1), FX_TWO_PI - 1);
    assert_eq!(fx_wrap_two_pi(-FX_TWO_PI - 3), FX_TWO_PI - 3);
}

#[test]
fn integer_square_roots_are_exact() {
    assert_eq!(isqrt_u128(0), 0);
    assert_eq!(isqrt_u128(1), 1);
    assert_eq!(isqrt_u128(2), 1);
    assert_eq!(isqrt_u128(4), 2);
    assert_eq!(isqrt_u128(99), 9);
    assert_eq!(isqrt_u128(100), 10);
    assert_eq!(isqrt_u128(1 << 62), 1 << 31);
}

#[test]
fn vector_algebra_basics() {
    let a = Vec3F::new(FX_ONE, 0, 0);
    let b = Vec3F::new(0, FX_ONE, 0);
    let c = a.cross(b);
    assert_eq!((c.x, c.y, c.z), (0, 0, FX_ONE));
    assert_eq!(a.dot(b), 0);
    assert_eq!(a.dot(a), FX_ONE);
    let s = a.add(b).sub(b);
    assert_eq!((s.x, s.y, s.z), (a.x, a.y, a.z));
    let n = Vec3F::new(3 * FX_ONE, 4 * FX_ONE, 0).norm();
    assert_eq!(n, 5 * FX_ONE);
    let u = Vec3F::new(0, 0, 7 * FX_ONE).normalize();
    assert_eq!((u.x, u.y, u.z), (0, 0, FX_ONE));
}

#[test]
fn identity_transform_is_exact() {
    let m = Mat4F::identity();
    let v = Vec4F::new(123, -456, 789, FX_ONE);
    let r = m.transform(v);
    assert_eq!((r.x, r.y, r.z, r.w), (123, -456, 789, FX_ONE));
}

#[test]
fn perspective_and_viewport_shapes() {
    let p = create_perspective_matrix(800 * FX_ONE, 600 * FX_ONE);
    assert!(p.r1.y > 2 * FX_ONE && p.r1.y < 3 * FX_ONE);  // cot(22.5 deg) is about 2.41
    assert!(p.r0.x < p.r1.y);  // divided by the aspect ratio
    assert_eq!(p.r3.z, -FX_ONE);
    assert_eq!(p.r3.w, 0);
    let vp = create_viewport_matrix(800 * FX_ONE, 600 * FX_ONE);
    assert_eq!(vp.r0.x, 400 * FX_ONE);
    assert_eq!(vp.r0.w, 400 * FX_ONE);
    assert_eq!(vp.r1.y, -300 * FX_ONE);
    assert_eq!(vp.r1.w, 300 * FX_ONE);
}

#[test]
fn model_matrix_translates_points() {
    let m = create_model_matrix(Vec3F::new(FX_ONE, 2 * FX_ONE, 0), FX_ONE, Vec3F::new(0, 0, 0));
    let r = m.transform(Vec4F::new(0, 0, 0, FX_ONE));
    // the origin lands on the translation, up to trigonometric rounding
    assert!((r.x - FX_ONE).abs() < 16);
    assert!((r.y - 2 * FX_ONE).abs() < 16);
    assert!(r.z.abs() < 16);
}

#[test]
fn point_ahead_of_camera_projects_to_screen_center() {
    let view = Mat4F::look_at(
        Vec3F::new(0, 0, 10 * FX_ONE),
        Vec3F::new(0, 0, 0),
        Vec3F::new(0, FX_ONE, 0),
    );
    let projection = create_perspective_matrix(800 * FX_ONE, 600 * FX_ONE);
    let viewport = create_viewport_matrix(64 * FX_ONE, 64 * FX_ONE);
    let vp = projection.mul(&view);
    let r = project_point(&vp, &viewport, Vec3F::new(0, 0, 0));
    let (px, py, ndz) = r.expect("the origin is in front of the camera");
    assert_eq!((px, py), (32, 32));
    assert!(ndz > 0 && ndz <= FX_ONE);
}

#[test]
fn visible_path_point_paints_its_pixel() {
    let mut fb = Framebuffer::new(64, 64);
    fb.clear();
    let view = Mat4F::look_at(
        Vec3F::new(0, 0, 10 * FX_ONE),
        Vec3F::new(0, 0, 0),
        Vec3F::new(0, FX_ONE, 0),
    );
    let projection = create_perspective_matrix(800 * FX_ONE, 600 * FX_ONE);
    let viewport = create_viewport_matrix(64 * FX_ONE, 64 * FX_ONE);
    let path = vec![Vec3F::new(0, 0, 0)];
    render_orbital_points(&mut fb, &path, &view, &projection, &viewport);
    // the origin projects to the screen center and must be drawn there
    let idx = 32 * 64 + 32;
    assert_eq!(fb.buffer[idx], 0xFFFFFF);
    assert!(fb.zbuffer[idx] < DEPTH_FAR);
}

#[test]
fn orbital_path_closes_and_draws_depth_tested() {
    let elements = OrbitalElements::new(327680, 6554, 5720, 0, 0, 0, 1966080);
    let path = generate_orbital_path(&elements);
    assert_eq!(path.len(), 360);
    let mut fb = Framebuffer::new(64, 64);
    fb.clear();
    let depths = fb.zbuffer.clone();
    let view = Mat4F::look_at(
        Vec3F::new(0, 0, 10 * FX_ONE),
        Vec3F::new(0, 0, 0),
        Vec3F::new(0, FX_ONE, 0),
    );
    let projection = create_perspective_matrix(800 * FX_ONE, 600 * FX_ONE);
    let viewport = create_viewport_matrix(64 * FX_ONE, 64 * FX_ONE);
    render_orbital_points(&mut fb, &path, &view, &projection, &viewport);
    for i in 0..fb.zbuffer.len() {
        assert!(fb.zbuffer[i] <= depths[i]);
    }
    // an empty path draws nothing
    let colors = fb.buffer.clone();
    render_orbital_points(&mut fb, &Vec::new(), &view, &projection, &viewport);
    assert_eq!(fb.buffer, colors);
}

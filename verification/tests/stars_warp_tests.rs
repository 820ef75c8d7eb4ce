use solarsim::camera::Camera;
use solarsim::fixed::FX_ONE;
use solarsim::framebuffer::Framebuffer;
use solarsim::render::{create_perspective_matrix, create_viewport_matrix};
use solarsim::stars::StarField;
use solarsim::vec3::Vec3F;
use solarsim::warp::WarpEffect;

fn standard_camera() -> Camera {
    Camera::new(Vec3F::new(0, 0, 10 * FX_ONE), Vec3F::new(0, 0, 0), Vec3F::new(0, FX_ONE, 0))
}

#[test]
fn empty_star_field_leaves_framebuffer_untouched() {
    let field = StarField::new(0, 100 * FX_ONE);
    assert_eq!(field.stars.len(), 0);
    let mut fb = Framebuffer::new(20, 20);
    fb.set_background_color(0x000020);
    fb.clear();
    let colors = fb.buffer.clone();
    let depths = fb.zbuffer.clone();
    let emissive = fb.emissive_buffer.clone();
    let camera = standard_camera();
    let projection = create_perspective_matrix(800 * FX_ONE, 600 * FX_ONE);
    let viewport = create_viewport_matrix(20 * FX_ONE, 20 * FX_ONE);
    field.render(&mut fb, &camera, &projection, &viewport);
    assert_eq!(fb.buffer, colors);
    assert_eq!(fb.zbuffer, depths);
    assert_eq!(fb.emissive_buffer, emissive);
}

#[test]
fn star_field_generation_respects_ranges() {
    let field = StarField::new(500, 100 * FX_ONE);
    assert_eq!(field.stars.len(), 500);
    for star in &field.stars {
        assert!(star.brightness >= FX_ONE / 2);
        assert!(star.brightness < FX_ONE);
        assert!(star.color.r >= 200);
        assert!(star.color.g >= 200);
        assert!(star.color.b >= 200);
        let n2 = (star.position.x as i128) * (star.position.x as i128)
            + (star.position.y as i128) * (star.position.y as i128)
            + (star.position.z as i128) * (star.position.z as i128);
        // inside the sphere, up to the proved rounding fringe
        let radius = 100i128 * FX_ONE as i128;
        let bound = radius + radius / 16384 + 8;
        assert!(n2 <= bound * bound);
    }
}

#[test]
fn star_rendering_only_lowers_depths() {
    let field = StarField::new(300, 50 * FX_ONE);
    let mut fb = Framebuffer::new(64, 64);
    fb.clear();
    let depths = fb.zbuffer.clone();
    let camera = standard_camera();
    let projection = create_perspective_matrix(800 * FX_ONE, 600 * FX_ONE);
    let viewport = create_viewport_matrix(64 * FX_ONE, 64 * FX_ONE);
    field.render(&mut fb, &camera, &projection, &viewport);
    for i in 0..fb.zbuffer.len() {
        assert!(fb.zbuffer[i] <= depths[i]);
        if fb.buffer[i] != 0 {
            assert!(fb.zbuffer[i] < depths[i]);
        }
    }
    // emissive light is never written by the star pass
    assert!(fb.emissive_buffer.iter().all(|&e| e == 0));
}

#[test]
fn warp_brightens_and_completes() {
    let mut warp = WarpEffect::new();
    assert!(!warp.is_finished());
    let camera = standard_camera();
    let mut fb = Framebuffer::new(1, 1);
    fb.buffer[0] = 0x0A0A0A;  // (10, 10, 10)
    // one step of the full duration: progress saturates at one, so the
    // factor is three
    warp.render(&mut fb, &camera, 2 * FX_ONE);
    assert_eq!(fb.buffer[0], 0x1E1E1E);
    assert!(warp.is_finished());
    // once complete, nothing changes any more
    warp.render(&mut fb, &camera, FX_ONE);
    assert_eq!(fb.buffer[0], 0x1E1E1E);
}

#[test]
fn warp_saturates_bright_pixels() {
    let mut warp = WarpEffect::new();
    let camera = standard_camera();
    let mut fb = Framebuffer::new(1, 1);
    fb.buffer[0] = 0xFF4000;
    warp.render(&mut fb, &camera, 2 * FX_ONE);
    // 255 clamps, 64 triples to 192, 0 stays
    assert_eq!(fb.buffer[0], 0xFFC000);
}

#[test]
fn warp_half_progress_uses_double_factor() {
    let mut warp = WarpEffect::new();
    let camera = standard_camera();
    let mut fb = Framebuffer::new(1, 1);
    fb.buffer[0] = 0x000010;
    warp.render(&mut fb, &camera, FX_ONE);  // half the duration: factor two
    assert_eq!(fb.buffer[0], 0x000020);
    assert!(!warp.is_finished());
}

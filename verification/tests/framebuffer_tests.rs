use solarsim::color::Color;
use solarsim::fixed::FX_ONE;
use solarsim::framebuffer::{blend_add, post_process, Framebuffer, DEPTH_FAR};

#[test]
fn nearer_write_wins_farther_write_loses() {
    let mut fb = Framebuffer::new(4, 4);
    let red = Color::new(255, 0, 0);
    let green = Color::new(0, 255, 0);
    let blue = Color::new(0, 0, 255);
    fb.set_pixel(1, 2, red, 100);
    let idx = 2 * 4 + 1;
    assert_eq!(fb.buffer[idx], 0xFF0000);
    assert_eq!(fb.zbuffer[idx], 100);
    // a farther write leaves the nearer color in place
    fb.set_pixel(1, 2, green, 200);
    assert_eq!(fb.buffer[idx], 0xFF0000);
    assert_eq!(fb.zbuffer[idx], 100);
    // a strictly nearer write overwrites
    fb.set_pixel(1, 2, blue, 99);
    assert_eq!(fb.buffer[idx], 0x0000FF);
    assert_eq!(fb.zbuffer[idx], 99);
    // an equal depth is not nearer
    fb.set_pixel(1, 2, green, 99);
    assert_eq!(fb.buffer[idx], 0x0000FF);
}

#[test]
fn out_of_bounds_writes_are_ignored() {
    let mut fb = Framebuffer::new(4, 4);
    let snapshot = fb.buffer.clone();
    fb.set_pixel(-1, 0, Color::new(255, 255, 255), 1);
    fb.set_pixel(0, -3, Color::new(255, 255, 255), 1);
    fb.set_pixel(4, 0, Color::new(255, 255, 255), 1);
    fb.set_pixel(0, 4, Color::new(255, 255, 255), 1);
    fb.point(4, 1, 1, true);
    fb.point(1, 4, 1, false);
    assert_eq!(fb.buffer, snapshot);
}

#[test]
fn point_writes_paint_color_and_emissive() {
    let mut fb = Framebuffer::new(3, 3);
    fb.set_current_color(0x123456);
    fb.point(2, 1, 50, true);
    let idx = 1 * 3 + 2;
    assert_eq!(fb.buffer[idx], 0x123456);
    assert_eq!(fb.emissive_buffer[idx], 0x123456);
    assert_eq!(fb.zbuffer[idx], 50);
    fb.set_current_color(0x654321);
    fb.point(0, 0, 70, false);
    assert_eq!(fb.buffer[0], 0x654321);
    assert_eq!(fb.emissive_buffer[0], 0);
}

#[test]
fn clear_resets_depth_so_any_write_succeeds() {
    let mut fb = Framebuffer::new(2, 2);
    fb.set_background_color(0x101010);
    fb.set_pixel(0, 0, Color::new(9, 9, 9), -5000);
    fb.clear();
    for i in 0..4 {
        assert_eq!(fb.buffer[i], 0x101010);
        assert_eq!(fb.zbuffer[i], DEPTH_FAR);
        assert_eq!(fb.emissive_buffer[i], 0);
    }
    // after the clear, a write at any finite depth lands
    fb.set_pixel(0, 0, Color::new(1, 2, 3), i64::MAX - 1);
    assert_eq!(fb.buffer[0], 0x010203);
}

#[test]
fn post_process_saturates_per_channel() {
    let mut fb = Framebuffer::new(1, 1);
    fb.buffer[0] = 0xFAFAFA;  // (250, 250, 250)
    fb.emissive_buffer[0] = 0x0A0A0A;  // (10, 10, 10)
    post_process(&mut fb);
    assert_eq!(fb.buffer[0], 0xFFFFFF);
}

#[test]
fn post_process_is_identity_without_emissive_light() {
    let mut fb = Framebuffer::new(2, 2);
    fb.buffer[0] = 0x102030;
    fb.buffer[1] = 0xFFFFFF;
    fb.buffer[2] = 0x000000;
    fb.buffer[3] = 0xABCDEF;
    let snapshot = fb.buffer.clone();
    post_process(&mut fb);
    assert_eq!(fb.buffer, snapshot);
    // a second pass still changes nothing
    post_process(&mut fb);
    assert_eq!(fb.buffer, snapshot);
}

#[test]
fn blend_add_is_channelwise_saturating() {
    assert_eq!(blend_add(0xFAFAFA, 0x0A0A0A), 0xFFFFFF);
    assert_eq!(blend_add(0x102030, 0), 0x102030);
    assert_eq!(blend_add(0, 0x405060), 0x405060);
    assert_eq!(blend_add(0x00FF00, 0x000100), 0x00FF00);
    assert_eq!(blend_add(0x010203, 0x010101), 0x020304);
}

#[test]
fn overlay_dims_toward_black() {
    let mut fb = Framebuffer::new(1, 1);
    fb.buffer[0] = 0x80FF40;
    fb.apply_overlay(0);
    assert_eq!(fb.buffer[0], 0x80FF40);
    fb.apply_overlay(FX_ONE);
    assert_eq!(fb.buffer[0], 0x000000);
    let mut fb2 = Framebuffer::new(1, 1);
    fb2.buffer[0] = 0x0000FF;
    fb2.apply_overlay(FX_ONE / 2);
    // 255 scaled by exactly one half, rounded down
    assert_eq!(fb2.buffer[0], 0x00007F);
}

#[test]
fn color_packs_to_hex() {
    assert_eq!(Color::new(0x12, 0x34, 0x56).to_hex(), 0x123456);
    assert_eq!(Color::black().to_hex(), 0);
    let dim = Color::new(200, 100, 50).scaled(FX_ONE / 2);
    assert_eq!((dim.r, dim.g, dim.b), (100, 50, 25));
    let full = Color::new(200, 100, 50).scaled(FX_ONE);
    assert_eq!((full.r, full.g, full.b), (200, 100, 50));
}

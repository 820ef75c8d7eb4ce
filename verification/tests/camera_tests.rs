use solarsim::camera::Camera;
use solarsim::fixed::FX_ONE;
use solarsim::vec3::Vec3F;

fn standard_camera() -> Camera {
    let mut c = Camera::new(
        Vec3F::new(0, 0, 10 * FX_ONE),
        Vec3F::new(0, 0, 0),
        Vec3F::new(0, FX_ONE, 0),
    );
    // a fresh camera reports its initial change once
    assert!(c.check_if_changed());
    c
}

#[test]
fn change_flag_is_one_shot_per_mutation() {
    let mut c = standard_camera();
    assert!(!c.check_if_changed());

    c.orbit(100, 50);
    assert!(c.check_if_changed());
    assert!(!c.check_if_changed());

    c.zoom(FX_ONE);
    assert!(c.check_if_changed());
    assert!(!c.check_if_changed());

    c.follow(Vec3F::new(FX_ONE, 0, 0));
    assert!(c.check_if_changed());
    assert!(!c.check_if_changed());

    c.interpolate_to(Vec3F::new(0, 0, 5 * FX_ONE), Vec3F::new(0, 0, 0), FX_ONE / 2);
    assert!(c.check_if_changed());
    assert!(!c.check_if_changed());

    // clearing the follow target moves nothing and raises no change
    c.stop_following();
    assert!(!c.check_if_changed());
}

#[test]
fn follow_snaps_view_onto_target() {
    let mut c = standard_camera();
    let target = Vec3F::new(3 * FX_ONE, 2 * FX_ONE, FX_ONE);
    c.follow(target);
    assert_eq!((c.center.x, c.center.y, c.center.z), (target.x, target.y, target.z));
    assert_eq!((c.eye.x, c.eye.y, c.eye.z), (target.x, target.y, target.z + 10 * FX_ONE));
    assert!(c.target.is_some());
    c.stop_following();
    assert!(c.target.is_none());
    // the camera did not move when following stopped
    assert_eq!((c.center.x, c.center.y, c.center.z), (target.x, target.y, target.z));
}

#[test]
fn zoom_moves_eye_along_view_direction() {
    let mut c = standard_camera();
    // view direction is exactly -z, so zooming by one unit moves the eye
    // one unit nearer
    c.zoom(FX_ONE);
    assert_eq!((c.eye.x, c.eye.y, c.eye.z), (0, 0, 9 * FX_ONE));
    assert_eq!((c.center.x, c.center.y, c.center.z), (0, 0, 0));
    c.zoom(-2 * FX_ONE);
    assert_eq!((c.eye.x, c.eye.y, c.eye.z), (0, 0, 11 * FX_ONE));
}

#[test]
fn interpolate_reaches_target_at_unit_factor() {
    let mut c = standard_camera();
    let te = Vec3F::new(FX_ONE, FX_ONE, FX_ONE);
    let tc = Vec3F::new(0, FX_ONE, 0);
    c.interpolate_to(te, tc, FX_ONE);
    assert_eq!((c.eye.x, c.eye.y, c.eye.z), (te.x, te.y, te.z));
    assert_eq!((c.center.x, c.center.y, c.center.z), (tc.x, tc.y, tc.z));
    // a zero factor is the identity
    let before = (c.eye.x, c.eye.y, c.eye.z);
    c.interpolate_to(Vec3F::new(5 * FX_ONE, 0, 0), tc, 0);
    assert_eq!((c.eye.x, c.eye.y, c.eye.z), before);
}

#[test]
fn orbit_keeps_center_and_roughly_keeps_radius() {
    let mut c = standard_camera();
    c.orbit(3277, 0);  // about 0.05 radians sideways
    assert_eq!((c.center.x, c.center.y, c.center.z), (0, 0, 0));
    let n2 = (c.eye.x as i128) * (c.eye.x as i128) + (c.eye.y as i128) * (c.eye.y as i128) + (
    c.eye.z as i128) * (c.eye.z as i128);
    let r = 10i128 * FX_ONE as i128;
    // the orbit radius stays within a percent of ten units
    assert!(n2 > (r * 99 / 100) * (r * 99 / 100));
    assert!(n2 < (r * 101 / 100) * (r * 101 / 100));
}

#[test]
fn basis_change_returns_unit_vector() {
    let c = standard_camera();
    let v = c.basis_change(&Vec3F::new(FX_ONE, 0, 0));
    let n2 = (v.x as i128) * (v.x as i128) + (v.y as i128) * (v.y as i128) + (v.z as i128) * (
    v.z as i128);
    let one = FX_ONE as i128;
    assert!(n2 > (one * 98 / 100) * (one * 98 / 100));
    assert!(n2 < (one * 102 / 100) * (one * 102 / 100));
}

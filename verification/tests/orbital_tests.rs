use solarsim::fixed::{FX_ONE, FX_TWO_PI};
use solarsim::orbital::{BodyManager, CelestialBodyEnum, CelestialType, OrbitalElements};
use solarsim::vec3::Vec3F;

fn planet_elements() -> OrbitalElements {
    // semi-major axis 5, eccentricity 0.1, inclination 5 degrees, period 30
    OrbitalElements::new(327680, 6554, 5720, 0, 0, 0, 1966080)
}

fn norm2(v: Vec3F) -> i128 {
    (v.x as i128) * (v.x as i128) + (v.y as i128) * (v.y as i128) + (v.z as i128) * (v.z as i128)
}

fn manager() -> BodyManager {
    BodyManager::new(0, 1, 2, 3, 4, 5, 6, 7, 8, 10, 11, 12, 13, 14)
}

#[test]
fn orbit_stays_between_periapsis_and_apoapsis() {
    let elements = planet_elements();
    // periapsis a(1-e) = 294912.? and apoapsis a(1+e) in fixed units
    let lo: i128 = (327680i128 * (65536 - 6554)) / 65536;
    let hi: i128 = (327680i128 * (65536 + 6554)) / 65536;
    // allow ten percent slack for the approximate trigonometry in the
    // three spatial rotations; the conic radius itself is proved exact
    let lo2 = (lo * 9 / 10) * (lo * 9 / 10);
    let hi2 = (hi * 11 / 10) * (hi * 11 / 10);
    let mut i: i64 = 0;
    while i < 360 {
        let nu = (FX_TWO_PI * i) / 360;
        let p = elements.position_at_anomaly(nu);
        let n2 = norm2(p);
        assert!(n2 >= lo2, "anomaly {} radius too small: {}", i, n2);
        assert!(n2 <= hi2, "anomaly {} radius too large: {}", i, n2);
        i += 30;
    }
    let mut t: i64 = 0;
    while t < 1966080 {
        let p = elements.position_at(t);
        let n2 = norm2(p);
        assert!(n2 >= lo2 && n2 <= hi2, "time {} radius out of range: {}", t, n2);
        t += 196608;
    }
}

#[test]
fn eccentric_comet_stays_bounded() {
    // semi-major axis 12, eccentricity 0.7: periapsis 3.6, apoapsis 20.4
    let comet = OrbitalElements::new(786432, 45875, 34315, 0, 0, 0, 6553600);
    let lo: i128 = (786432i128 * (65536 - 45875)) / 65536;
    let hi: i128 = (786432i128 * (65536 + 45875)) / 65536;
    let lo2 = (lo * 9 / 10) * (lo * 9 / 10);
    let hi2 = (hi * 11 / 10) * (hi * 11 / 10);
    let mut t: i64 = 0;
    while t < 6553600 {
        let n2 = norm2(comet.position_at(t));
        assert!(n2 >= lo2 && n2 <= hi2, "time {} radius out of range: {}", t, n2);
        t += 409600;
    }
}

#[test]
fn position_is_exactly_periodic() {
    let elements = planet_elements();
    let period = 1966080i64;
    for &t in &[0i64, 1, 500_000, 1_234_567, 1966079] {
        let a = elements.position_at(t);
        let b = elements.position_at(t + period);
        assert_eq!((a.x, a.y, a.z), (b.x, b.y, b.z));
    }
}

#[test]
fn stationary_body_sits_at_origin() {
    let star = OrbitalElements::new(0, 0, 0, 0, 0, 0, 0);
    let p = star.position_at(123456);
    assert_eq!((p.x, p.y, p.z), (0, 0, 0));
}

#[test]
fn moon_position_composes_with_parent() {
    let m = manager();
    let moon = m.all_bodies[7].clone();
    assert!(moon.is_moon);
    let planet = m.all_bodies[1].clone();
    for &t in &[0i64, 77777, 458752] {
        let resolved = m.get_body_position(&moon, t);
        let own = moon.orbital_elements.position_at(t);
        let parent = planet.orbital_elements.position_at(t);
        assert_eq!(resolved.x, own.x + parent.x);
        assert_eq!(resolved.y, own.y + parent.y);
        assert_eq!(resolved.z, own.z + parent.z);
    }
}

#[test]
fn non_moon_position_is_its_own_offset() {
    let m = manager();
    let planet = m.all_bodies[1].clone();
    let resolved = m.get_body_position(&planet, 99999);
    let own = planet.orbital_elements.position_at(99999);
    assert_eq!((resolved.x, resolved.y, resolved.z), (own.x, own.y, own.z));
}

#[test]
fn select_ignores_out_of_range_index() {
    let mut m = manager();
    assert_eq!(m.current_index, 0);
    m.select(5);
    assert_eq!(m.current_index, 5);
    m.select(9);
    assert_eq!(m.current_index, 5);
    m.select(usize::MAX);
    assert_eq!(m.current_index, 5);
    m.select(8);
    assert_eq!(m.current_index, 8);
}

#[test]
fn next_wraps_around() {
    let mut m = manager();
    for expected in [1usize, 2, 3, 4, 5, 6, 7, 8, 0, 1] {
        m.next();
        assert_eq!(m.current_index, expected);
    }
}

#[test]
fn zoom_clamps_at_floor_and_grows_out() {
    let mut m = manager();
    assert_eq!(m.zoom_level, 3276800);
    m.zoom_out();
    assert_eq!(m.zoom_level, 3276800 * 11 / 10);
    let mut i = 0;
    while i < 100 {
        m.zoom_in();
        i += 1;
    }
    assert_eq!(m.zoom_level, 655360);
    m.zoom_in();
    assert_eq!(m.zoom_level, 655360);
}

#[test]
fn body_lookup_by_name() {
    let m = manager();
    let planet = m.get_body_by_name("Planet");
    assert!(planet.is_some());
    assert_eq!(planet.unwrap().name, "Planet");
    assert_eq!(planet.unwrap().mesh, 1);
    assert!(m.get_body_by_name("Nebula").is_none());
    assert_eq!(m.get_body_by_name("Moon").unwrap().orbiting_body_name, "Planet");
}

#[test]
fn scene_table_matches_design() {
    let m = manager();
    assert_eq!(m.all_bodies.len(), 9);
    let names: Vec<&str> = m.all_bodies.iter().map(|b| b.name.as_str()).collect();
    assert_eq!(
        names,
        vec!["Star", "Planet", "GasGiant", "Ringed", "Rings", "Planet2", "Mars", "Moon", "Comet"],
    );
    assert_eq!(m.all_bodies[0].orbital_elements.orbital_period, 0);
    assert_eq!(m.all_bodies[8].orbital_elements.eccentricity, 45875);
    assert_eq!(m.all_bodies[4].ring_outer_radius, 4 * FX_ONE);
    assert!(!m.all_bodies[1].is_moon);
    assert!(m.all_bodies[7].is_moon);
}

#[test]
fn body_enum_maps_to_shading_variant() {
    assert_eq!(CelestialBodyEnum::Star.to_celestial_type(), CelestialType::Star);
    assert_eq!(CelestialBodyEnum::Rings.to_celestial_type(), CelestialType::Rings);
    assert_eq!(CelestialBodyEnum::Moon.to_celestial_type(), CelestialType::Moon);
    assert_eq!(CelestialBodyEnum::Comet.to_celestial_type(), CelestialType::Comet);
}

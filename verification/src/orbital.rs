//! Keplerian orbital mechanics.
//!
//! An orbit is fixed by seven elements; the position at a simulation time is
//! obtained by advancing the mean anomaly linearly, solving Kepler's
//! equation with exactly five Newton steps, converting to the true anomaly,
//! evaluating the conic radius and rotating the orbital-plane point into
//! space.  Every step is an exact function of the fixed-point inputs, so the
//! position is periodic in the orbital period *exactly*, and the conic
//! radius provably stays between periapsis and apoapsis.

use vstd::prelude::*;
use vstd::arithmetic::div_mod::*;
use crate::fixed::{
    FX_ONE, FX_PI, FX_TWO_PI, FX_ANGLE_MAX, fxs_mul, fxs_div, fxs_sin, fxs_cos, fx_mul, fx_div,
    fx_sin, fx_cos, fx_wrap_two_pi, floor_div_i128, iabs, lemma_fxs_mul_le, lemma_fxs_mul_unit,
    lemma_sin_bounds, lemma_cos_bounds, lemma_div_frac_le, lemma_div_bounds,
};
use crate::vec3::{Vec3F, vadd, vsub, vrot_x, vrot_y, vrot_z, vb};
use crate::color::Color;
use crate::mat4::{Mat4F, m4rot_x};

verus! {

/// Largest semi-major axis accepted (in fixed-point length units).
pub const ORBIT_A_MAX: i64 = 0x200_0000;

/// Largest eccentricity accepted: nine tenths of a unit, so the Newton
/// denominator `1 - e cos E` keeps a positive floor.
pub const ECC_MAX: i64 = 58982;

/// Largest magnitude accepted for the angular elements.
pub const ORBIT_ANGLE_MAX: i64 = 0x100_0000_0000;

/// Largest simulation time and orbital period accepted.
pub const ORBIT_TIME_MAX: i64 = 0x100_0000_0000;

/// The six Keplerian elements plus the orbital period, in fixed-point
/// units; a zero period encodes a body standing at the origin.
#[derive(Clone, Copy, PartialEq, Eq, Structural, Debug)]
pub struct OrbitalElements {
    pub semi_major_axis: i64,
    pub eccentricity: i64,
    pub inclination: i64,
    pub longitude_of_ascending_node: i64,
    pub argument_of_periapsis: i64,
    pub mean_anomaly: i64,
    pub orbital_period: i64,
}

/// One Newton step for Kepler's equation `E - e sin E = M`.
pub open spec fn kepler_step(ecc: int, m: int, e: int) -> int {
    e - fxs_div(e - fxs_mul(ecc, fxs_sin(e)) - m, (FX_ONE as int) - fxs_mul(ecc, fxs_cos(e)))
}

/// `n` Newton steps seeded at the mean anomaly.
pub open spec fn kepler_iter(ecc: int, m: int, n: nat) -> int
    decreases n,
{
    if n == 0 {
        m
    } else {
        kepler_step(ecc, m, kepler_iter(ecc, m, (n - 1) as nat))
    }
}

/// The eccentric anomaly: exactly five Newton steps.
pub open spec fn ecc_anomaly_spec(ecc: int, m: int) -> int {
    kepler_iter(ecc, m, 5)
}

/// The true anomaly under the small-eccentricity simplification
/// `2 atan(tan(E/2))`: in exact arithmetic that expression reduces the
/// eccentric anomaly to its principal value in `(-pi, pi]`, which is what
/// is computed here.
pub open spec fn true_anomaly_spec(e: int) -> int {
    let w = e % (FX_TWO_PI as int);
    if w > FX_PI {
        w - (FX_TWO_PI as int)
    } else {
        w
    }
}

/// The conic radius `a (1 - e^2) / (1 + e cos nu)`, evaluated as a single
/// rounded-down quotient of exact integer products.
pub open spec fn conic_radius_spec(a: int, ecc: int, nu: int) -> int {
    (a * ((FX_ONE as int) * (FX_ONE as int) - ecc * ecc)) / ((FX_ONE as int) * (FX_ONE as int)
        + ecc * fxs_cos(nu))
}

/// The orbital-plane point at a true anomaly: `(r cos nu, r sin nu, 0)`.
pub open spec fn planar_spec(a: int, ecc: int, nu: int) -> (int, int, int) {
    let r = conic_radius_spec(a, ecc, nu);
    (fxs_mul(r, fxs_cos(nu)), fxs_mul(r, fxs_sin(nu)), 0int)
}

impl OrbitalElements {
    /// All elements within the accepted ranges.
    pub open spec fn wf(self) -> bool {
        &&& 0 <= self.semi_major_axis <= ORBIT_A_MAX
        &&& 0 <= self.eccentricity <= ECC_MAX
        &&& -ORBIT_ANGLE_MAX <= self.inclination <= ORBIT_ANGLE_MAX
        &&& -ORBIT_ANGLE_MAX <= self.longitude_of_ascending_node <= ORBIT_ANGLE_MAX
        &&& -ORBIT_ANGLE_MAX <= self.argument_of_periapsis <= ORBIT_ANGLE_MAX
        &&& -ORBIT_ANGLE_MAX <= self.mean_anomaly <= ORBIT_ANGLE_MAX
        &&& 0 <= self.orbital_period <= ORBIT_TIME_MAX
    }

    /// The wrapped mean anomaly at a simulation time.
    pub open spec fn mean_anomaly_at(self, time: int) -> int {
        (self.mean_anomaly + ((FX_TWO_PI as int) * time) / (self.orbital_period as int)) % (
        FX_TWO_PI as int)
    }

    /// The position at a simulation time: mean anomaly, Kepler solve, true
    /// anomaly, conic radius, then the three element rotations applied as
    /// ascending node, inclination, argument of periapsis.
    #[verifier::opaque]
    pub open spec fn position_at_spec(self, time: int) -> (int, int, int) {
        if self.orbital_period == 0 {
            (0int, 0int, 0int)
        } else {
            let m = self.mean_anomaly_at(time);
            let nu = true_anomaly_spec(ecc_anomaly_spec(self.eccentricity as int, m));
            vrot_z(
                vrot_x(
                    vrot_y(
                        planar_spec(self.semi_major_axis as int, self.eccentricity as int, nu),
                        self.longitude_of_ascending_node as int,
                    ),
                    self.inclination as int,
                ),
                self.argument_of_periapsis as int,
            )
        }
    }

    /// The path-sampling position at a caller-supplied true anomaly; the
    /// same conic point, with the three rotations composed in the opposite
    /// order (argument of periapsis first, ascending node last), as the
    /// static path visualization defines it.
    #[verifier::opaque]
    pub open spec fn position_at_anomaly_spec(self, nu: int) -> (int, int, int) {
        vrot_y(
            vrot_x(
                vrot_z(
                    planar_spec(self.semi_major_axis as int, self.eccentricity as int, nu),
                    self.argument_of_periapsis as int,
                ),
                self.inclination as int,
            ),
            self.longitude_of_ascending_node as int,
        )
    }

    /// Bundles the seven elements.
    pub fn new(
        semi_major_axis: i64,
        eccentricity: i64,
        inclination: i64,
        longitude_of_ascending_node: i64,
        argument_of_periapsis: i64,
        mean_anomaly: i64,
        orbital_period: i64,
    ) -> (r: OrbitalElements)
        requires
            0 <= semi_major_axis <= ORBIT_A_MAX,
            0 <= eccentricity <= ECC_MAX,
            -ORBIT_ANGLE_MAX <= inclination <= ORBIT_ANGLE_MAX,
            -ORBIT_ANGLE_MAX <= longitude_of_ascending_node <= ORBIT_ANGLE_MAX,
            -ORBIT_ANGLE_MAX <= argument_of_periapsis <= ORBIT_ANGLE_MAX,
            -ORBIT_ANGLE_MAX <= mean_anomaly <= ORBIT_ANGLE_MAX,
            0 <= orbital_period <= ORBIT_TIME_MAX,
        ensures
            r == (OrbitalElements {
                semi_major_axis,
                eccentricity,
                inclination,
                longitude_of_ascending_node,
                argument_of_periapsis,
                mean_anomaly,
                orbital_period,
            }),
            r.wf(),
    {
        OrbitalElements {
            semi_major_axis,
            eccentricity,
            inclination,
            longitude_of_ascending_node,
            argument_of_periapsis,
            mean_anomaly,
            orbital_period,
        }
    }

    /// Solves Kepler's equation by five Newton steps seeded at the wrapped
    /// mean anomaly.
    fn eccentric_anomaly(&self, m: i64) -> (e: i64)
        requires
            0 <= self.eccentricity <= ECC_MAX,
            0 <= m < FX_TWO_PI,
        ensures
            e == ecc_anomaly_spec(self.eccentricity as int, m as int),
            -0x100_0000_0000 <= e <= 0x100_0000_0000,
    {
        let ecc: i64 = self.eccentricity;
        let e1: i64 = kepler_step_exec(ecc, m, m);
        let e2: i64 = kepler_step_exec(ecc, m, e1);
        let e3: i64 = kepler_step_exec(ecc, m, e2);
        let e4: i64 = kepler_step_exec(ecc, m, e3);
        let e5: i64 = kepler_step_exec(ecc, m, e4);
        proof {
            reveal_with_fuel(kepler_iter, 6);
        }
        e5
    }

    /// Reduces an eccentric anomaly to the principal interval `(-pi, pi]`
    /// (the simplified small-eccentricity true-anomaly conversion).
    fn true_anomaly(&self, e: i64) -> (nu: i64)
        ensures
            nu == true_anomaly_spec(e as int),
            -FX_PI <= nu <= FX_PI,
    {
        let w: i64 = fx_wrap_two_pi(e);
        if w > FX_PI {
            w - FX_TWO_PI
        } else {
            w
        }
    }

    /// The position along the orbit at a simulation time; a body with a
    /// zero period stands at the origin.
    pub fn position_at(&self, time: i64) -> (r: Vec3F)
        requires
            self.wf(),
            0 <= time <= ORBIT_TIME_MAX,
        ensures
            r@ == self.position_at_spec(time as int),
            vb(r@, 0x8000_0000),
    {
        proof {
            reveal(OrbitalElements::position_at_spec);
        }
        if self.orbital_period == 0 {
            return Vec3F::zero();
        }
        proof {
            assert (0 <= (FX_TWO_PI as int) * (time as int) <= 0x100_0000_0000_0000_0000)
                by (nonlinear_arith)
                requires
                    0 <= time <= ORBIT_TIME_MAX,
                    FX_TWO_PI == 411774,
                    ORBIT_TIME_MAX == 0x100_0000_0000,
            ;
        }
        let tp: i128 = (FX_TWO_PI as i128) * (time as i128);
        let q: i128 = floor_div_i128(tp, self.orbital_period as i128);
        proof {
            lemma_div_pos_is_pos(tp as int, self.orbital_period as int);
            lemma_div_nonincreasing(tp as int, self.orbital_period as int);
        }
        let m_full: i64 = (self.mean_anomaly as i128 + q) as i64;
        let m: i64 = fx_wrap_two_pi(m_full);
        let e: i64 = self.eccentric_anomaly(m);
        let nu: i64 = self.true_anomaly(e);
        let planar: Vec3F = self.planar_point(nu);
        planar.rot_y(self.longitude_of_ascending_node).rot_x(self.inclination).rot_z(
            self.argument_of_periapsis,
        )
    }

    /// The position on the orbital track at a caller-supplied true anomaly,
    /// used to sample the closed path independently of time.
    pub fn position_at_anomaly(&self, true_anomaly: i64) -> (r: Vec3F)
        requires
            self.wf(),
            -FX_ANGLE_MAX <= true_anomaly <= FX_ANGLE_MAX,
        ensures
            r@ == self.position_at_anomaly_spec(true_anomaly as int),
            vb(r@, 0x8000_0000),
    {
        proof {
            reveal(OrbitalElements::position_at_anomaly_spec);
        }
        let planar: Vec3F = self.planar_point(true_anomaly);
        planar.rot_z(self.argument_of_periapsis).rot_x(self.inclination).rot_y(
            self.longitude_of_ascending_node,
        )
    }

    /// The orbital-plane point at a true anomaly.
    fn planar_point(&self, nu: i64) -> (r: Vec3F)
        requires
            0 <= self.semi_major_axis <= ORBIT_A_MAX,
            0 <= self.eccentricity <= ECC_MAX,
            -FX_ANGLE_MAX <= nu <= FX_ANGLE_MAX,
        ensures
            r@ == planar_spec(self.semi_major_axis as int, self.eccentricity as int, nu as int),
            vb(r@, 0x800_0001),
    {
        let rad: i64 = conic_radius(self.semi_major_axis, self.eccentricity, nu);
        let c: i64 = fx_cos(nu);
        let s: i64 = fx_sin(nu);
        proof {
            lemma_fxs_mul_unit(rad as int, c as int);
            lemma_fxs_mul_unit(rad as int, s as int);
        }
        Vec3F::new(fx_mul(rad, c), fx_mul(rad, s), 0)
    }
}

/// One executable Newton step; the result is exactly the specification's
/// step and grows at most elevenfold plus a fixed fringe.
fn kepler_step_exec(ecc: i64, m: i64, e: i64) -> (r: i64)
    requires
        0 <= ecc <= ECC_MAX,
        0 <= m < FX_TWO_PI,
        -0x100_0000_0000 <= e <= 0x100_0000_0000,
    ensures
        r == kepler_step(ecc as int, m as int, e as int),
        iabs(r as int) <= 11 * iabs(e as int) + 5_000_000,
{
    let s: i64 = fx_sin(e);
    let c: i64 = fx_cos(e);
    proof {
        lemma_fxs_mul_le(ecc as int, s as int, ECC_MAX as int, FX_ONE as int);
        lemma_fxs_mul_le(ecc as int, c as int, ECC_MAX as int, FX_ONE as int);
        assert (fxs_mul(ECC_MAX as int, FX_ONE as int) == ECC_MAX);
    }
    let es: i64 = fx_mul(ecc, s);
    let ec: i64 = fx_mul(ecc, c);
    let num: i64 = e - es - m;
    let den: i64 = FX_ONE - ec;
    let corr: i64 = fx_div(num, den);
    proof {
        let k: int = 10 * iabs(num as int) + 1;
        assert (-k * (den as int) <= (num as int) * (FX_ONE as int) && (num as int) * (
        FX_ONE as int) <= k * (den as int)) by (nonlinear_arith)
            requires
                6554 <= den,
                k == 10 * iabs(num as int) + 1,
                iabs(num as int) == if num < 0 {
                    -(num as int)
                } else {
                    num as int
                },
                FX_ONE == 65536,
        ;
        lemma_div_bounds((num as int) * (FX_ONE as int), den as int, k);
    }
    e - corr
}

/// The conic radius at a true anomaly.
fn conic_radius(a: i64, ecc: i64, nu: i64) -> (r: i64)
    requires
        0 <= a <= ORBIT_A_MAX,
        0 <= ecc <= ECC_MAX,
        -FX_ANGLE_MAX <= nu <= FX_ANGLE_MAX,
    ensures
        r == conic_radius_spec(a as int, ecc as int, nu as int),
        0 <= r <= 0x800_0000,
{
    let c: i64 = fx_cos(nu);
    proof {
        lemma_conic_radius_bounds(a as int, ecc as int, nu as int);
        lemma_conic_num_den_bounds(a as int, ecc as int, c as int);
        lemma_fxs_mul_le(a as int, (FX_ONE + ecc) as int, ORBIT_A_MAX as int, 2 * (FX_ONE as int));
        assert (fxs_mul(ORBIT_A_MAX as int, 2 * (FX_ONE as int)) == 0x400_0000);
    }
    let num: i128 = (a as i128) * ((FX_ONE as i128) * (FX_ONE as i128) - (ecc as i128) * (
    ecc as i128));
    let den: i128 = (FX_ONE as i128) * (FX_ONE as i128) + (ecc as i128) * (c as i128);
    (floor_div_i128(num, den)) as i64
}

/// The numerator and denominator of the conic radius are bounded and the
/// denominator is positive for any cosine value.
proof fn lemma_conic_num_den_bounds(a: int, ecc: int, c: int)
    requires
        0 <= a <= ORBIT_A_MAX,
        0 <= ecc <= ECC_MAX,
        -FX_ONE <= c <= FX_ONE,
    ensures
        0 <= a * ((FX_ONE as int) * (FX_ONE as int) - ecc * ecc) <= 0x200_0000_0000_0000,
        429_391_872 <= (FX_ONE as int) * (FX_ONE as int) + ecc * c <= 0x2_0000_0000,
        0 <= ecc * ecc <= 0x1_0000_0000,
        -0x1_0000_0000 <= ecc * c <= 0x1_0000_0000,
{
    assert (0 <= a * ((FX_ONE as int) * (FX_ONE as int) - ecc * ecc) <= 0x200_0000_0000_0000 && (
    FX_ONE as int) * (FX_ONE as int) + ecc * c >= 429_391_872 && (FX_ONE as int) * (FX_ONE as int)
        + ecc * c <= 0x2_0000_0000 && 0 <= ecc * ecc <= 0x1_0000_0000 && -0x1_0000_0000 <= ecc * c
        <= 0x1_0000_0000) by (nonlinear_arith)
        requires
            0 <= a <= ORBIT_A_MAX,
            0 <= ecc <= ECC_MAX,
            -FX_ONE <= c <= FX_ONE,
            ORBIT_A_MAX == 0x200_0000,
            ECC_MAX == 58982,
            FX_ONE == 65536,
    ;
}

/// Bounded orbits: at every true anomaly the conic radius lies between
/// the periapsis distance `a (1 - e)` and the apoapsis distance
/// `a (1 + e)`, for every eccentricity the elements admit.
pub proof fn lemma_conic_radius_bounds(a: int, ecc: int, nu: int)
    requires
        0 <= a <= ORBIT_A_MAX,
        0 <= ecc <= ECC_MAX,
    ensures
        fxs_mul(a, (FX_ONE as int) - ecc) <= conic_radius_spec(a, ecc, nu),
        conic_radius_spec(a, ecc, nu) <= fxs_mul(a, (FX_ONE as int) + ecc),
        0 <= fxs_mul(a, (FX_ONE as int) - ecc),
{
    let s1 = FX_ONE as int;
    let c = fxs_cos(nu);
    lemma_cos_bounds(nu);
    let num = a * (s1 * s1 - ecc * ecc);
    let den = s1 * s1 + ecc * c;
    lemma_conic_num_den_bounds(a, ecc, c);
    assert (num * s1 <= (a * (s1 + ecc)) * den && (a * (s1 - ecc)) * den <= num * s1)
        by (nonlinear_arith)
        requires
            0 <= a,
            0 <= ecc,
            -s1 <= c <= s1,
            s1 == 65536,
            ecc <= 58982,
            num == a * (s1 * s1 - ecc * ecc),
            den == s1 * s1 + ecc * c,
    ;
    lemma_div_frac_le(num, den, a * (s1 + ecc), s1);
    lemma_div_frac_le(a * (s1 - ecc), s1, num, den);
    lemma_div_pos_is_pos(a * (s1 - ecc), s1);
    assert (0 <= a * (s1 - ecc)) by (nonlinear_arith)
        requires
            0 <= a,
            ecc <= 58982,
            s1 == 65536,
    ;
}

/// Bounded orbits, componentwise: the orbital-plane point at any true
/// anomaly has coordinates no larger in magnitude than the apoapsis
/// distance `a (1 + e)` (one rounding step below), and no third component.
pub proof fn lemma_planar_bounded(a: int, ecc: int, nu: int)
    requires
        0 <= a <= ORBIT_A_MAX,
        0 <= ecc <= ECC_MAX,
    ensures
        ({
            let p = planar_spec(a, ecc, nu);
            let hi = fxs_mul(a, (FX_ONE as int) + ecc);
            &&& -hi - 1 <= p.0 <= hi
            &&& -hi - 1 <= p.1 <= hi
            &&& p.2 == 0
        }),
{
    lemma_conic_radius_bounds(a, ecc, nu);
    lemma_sin_bounds(nu);
    lemma_cos_bounds(nu);
    let r = conic_radius_spec(a, ecc, nu);
    lemma_fxs_mul_unit(r, fxs_cos(nu));
    lemma_fxs_mul_unit(r, fxs_sin(nu));
}

/// The orbit is exactly periodic: advancing the simulation time by the
/// orbital period leaves the computed position unchanged, bit for bit.
pub proof fn lemma_position_at_periodic(e: OrbitalElements, time: int)
    requires
        e.wf(),
        0 <= time,
        e.orbital_period > 0,
    ensures
        e.position_at_spec(time + e.orbital_period) == e.position_at_spec(time),
{
    reveal(OrbitalElements::position_at_spec);
    let tp = FX_TWO_PI as int;
    let t = time;
    let per = e.orbital_period as int;
    let a = tp * t;
    lemma_fundamental_div_mod(a, per);
    lemma_mod_bound(a, per);
    assert (tp * (t + per) == (a / per + tp) * per + a % per) by (nonlinear_arith)
        requires
            a == per * (a / per) + a % per,
            a == tp * t,
    ;
    lemma_fundamental_div_mod_converse(tp * (t + per), per, a / per + tp, a % per);
    assert ((tp * (t + per)) / per == a / per + tp);
    lemma_mod_add_multiples_vanish(e.mean_anomaly + a / per, tp);
    assert (e.mean_anomaly_at(t + per) == e.mean_anomaly_at(t));
}

/// The shading variant the rasterizer applies to a body.
#[derive(Clone, Copy, PartialEq, Eq, Structural, Debug)]
pub enum CelestialType {
    Star,
    Planet,
    GasGiant,
    Ringed,
    Rings,
    Planet2,
    Mars,
    Moon,
    Comet,
}

/// The bodies of the scene, in selection order.
#[derive(Clone, Copy, PartialEq, Eq, Structural, Debug)]
pub enum CelestialBodyEnum {
    Star,
    Planet,
    GasGiant,
    Ringed,
    Rings,
    Planet2,
    Mars,
    Moon,
    Comet,
}

/// The shading variant that belongs to each body.
pub open spec fn celestial_type_of(e: CelestialBodyEnum) -> CelestialType {
    match e {
        CelestialBodyEnum::Star => CelestialType::Star,
        CelestialBodyEnum::Planet => CelestialType::Planet,
        CelestialBodyEnum::GasGiant => CelestialType::GasGiant,
        CelestialBodyEnum::Ringed => CelestialType::Ringed,
        CelestialBodyEnum::Rings => CelestialType::Rings,
        CelestialBodyEnum::Planet2 => CelestialType::Planet2,
        CelestialBodyEnum::Mars => CelestialType::Mars,
        CelestialBodyEnum::Moon => CelestialType::Moon,
        CelestialBodyEnum::Comet => CelestialType::Comet,
    }
}

impl CelestialBodyEnum {
    /// Maps a body to its shading variant.
    pub fn to_celestial_type(&self) -> (t: CelestialType)
        ensures
            t == celestial_type_of(*self),
    {
        match self {
            CelestialBodyEnum::Star => CelestialType::Star,
            CelestialBodyEnum::Planet => CelestialType::Planet,
            CelestialBodyEnum::GasGiant => CelestialType::GasGiant,
            CelestialBodyEnum::Ringed => CelestialType::Ringed,
            CelestialBodyEnum::Rings => CelestialType::Rings,
            CelestialBodyEnum::Planet2 => CelestialType::Planet2,
            CelestialBodyEnum::Mars => CelestialType::Mars,
            CelestialBodyEnum::Moon => CelestialType::Moon,
            CelestialBodyEnum::Comet => CelestialType::Comet,
        }
    }
}

/// One body of the scene: identity, mesh and noise handles, shading
/// variant, orbital elements, material thresholds, optional ring
/// parameters, and the name of the body it orbits (empty: the origin).
#[derive(Clone)]
pub struct CelestialBody {
    pub name: String,
    pub mesh: u32,
    pub shader_type: CelestialType,
    pub orbital_elements: OrbitalElements,
    pub scale: i64,
    pub rotation: Vec3F,
    pub noise: u32,
    pub noise_scale: i64,
    pub ocean_threshold: i64,
    pub continent_threshold: i64,
    pub mountain_threshold: i64,
    pub snow_threshold: i64,
    pub ring_inner_radius: i64,
    pub ring_outer_radius: i64,
    pub ring_color: Color,
    pub ring_opacity: i64,
    pub ring_frequency: i64,
    pub ring_wave_speed: i64,
    pub ring_rotation_matrix: Mat4F,
    pub is_moon: bool,
    pub orbiting_body_name: String,
}

impl CelestialBody {
    /// Bundles a body's parameters.
    pub fn new(
        name: String,
        mesh: u32,
        shader_type: CelestialType,
        orbital_elements: OrbitalElements,
        scale: i64,
        rotation: Vec3F,
        noise: u32,
        noise_scale: i64,
        ocean_threshold: i64,
        continent_threshold: i64,
        mountain_threshold: i64,
        snow_threshold: i64,
        ring_inner_radius: i64,
        ring_outer_radius: i64,
        ring_color: Color,
        ring_opacity: i64,
        ring_frequency: i64,
        ring_wave_speed: i64,
        ring_rotation_matrix: Mat4F,
        is_moon: bool,
        orbiting_body_name: String,
    ) -> (b: CelestialBody)
        ensures
            b.name == name,
            b.mesh == mesh,
            b.shader_type == shader_type,
            b.orbital_elements == orbital_elements,
            b.scale == scale,
            b.rotation == rotation,
            b.noise == noise,
            b.noise_scale == noise_scale,
            b.ocean_threshold == ocean_threshold,
            b.continent_threshold == continent_threshold,
            b.mountain_threshold == mountain_threshold,
            b.snow_threshold == snow_threshold,
            b.ring_inner_radius == ring_inner_radius,
            b.ring_outer_radius == ring_outer_radius,
            b.ring_color == ring_color,
            b.ring_opacity == ring_opacity,
            b.ring_frequency == ring_frequency,
            b.ring_wave_speed == ring_wave_speed,
            b.ring_rotation_matrix == ring_rotation_matrix,
            b.is_moon == is_moon,
            b.orbiting_body_name == orbiting_body_name,
    {
        CelestialBody {
            name,
            mesh,
            shader_type,
            orbital_elements,
            scale,
            rotation,
            noise,
            noise_scale,
            ocean_threshold,
            continent_threshold,
            mountain_threshold,
            snow_threshold,
            ring_inner_radius,
            ring_outer_radius,
            ring_color,
            ring_opacity,
            ring_frequency,
            ring_wave_speed,
            ring_rotation_matrix,
            is_moon,
            orbiting_body_name,
        }
    }
}

/// The index of the first body carrying a name, scanning from `i`.
pub open spec fn find_body_from(bodies: Seq<CelestialBody>, name: Seq<char>, i: nat) -> Option<int>
    decreases bodies.len() - i,
{
    if i >= bodies.len() {
        None
    } else if bodies[i as int].name@ == name {
        Some(i as int)
    } else {
        find_body_from(bodies, name, i + 1)
    }
}

/// The index of the first body carrying a name.
pub open spec fn find_body(bodies: Seq<CelestialBody>, name: Seq<char>) -> Option<int> {
    find_body_from(bodies, name, 0)
}

/// A found index is in range and names the body it points at.
pub proof fn lemma_find_body_in_range(bodies: Seq<CelestialBody>, name: Seq<char>, j: nat)
    ensures
        find_body_from(bodies, name, j) matches Some(i) ==> j <= i < bodies.len()
            && bodies[i].name@ == name,
    decreases bodies.len() - j,
{
    if j < bodies.len() && bodies[j as int].name@ != name {
        lemma_find_body_in_range(bodies, name, j + 1);
    }
}

/// A body's resolved position: its own orbital offset, plus its parent's
/// resolved position when it is a moon and the parent resolves by name.
/// The fuel caps the walk up the hierarchy (a name cycle is a modeling
/// error; the walk then stops after visiting as many links as there are
/// bodies).
pub open spec fn resolved_position_spec(
    bodies: Seq<CelestialBody>,
    body: CelestialBody,
    time: int,
    fuel: nat,
) -> (int, int, int)
    decreases fuel,
{
    let own = body.orbital_elements.position_at_spec(time);
    if body.is_moon && fuel > 0 {
        match find_body(bodies, body.orbiting_body_name@) {
            Some(i) => vadd(own, resolved_position_spec(bodies, bodies[i], time, (fuel - 1) as nat)),
            None => own,
        }
    } else {
        own
    }
}

/// A moon's resolved position is exactly its own orbital offset plus its
/// parent's resolved position at the same time, whenever the parent
/// resolves and is itself not a moon.
pub proof fn lemma_moon_position(
    bodies: Seq<CelestialBody>,
    body: CelestialBody,
    i: int,
    time: int,
    fuel: nat,
)
    requires
        body.is_moon,
        1 <= fuel,
        find_body(bodies, body.orbiting_body_name@) == Some(i),
        !bodies[i].is_moon,
    ensures
        resolved_position_spec(bodies, body, time, fuel) == vadd(
            body.orbital_elements.position_at_spec(time),
            bodies[i].orbital_elements.position_at_spec(time),
        ),
        resolved_position_spec(bodies, bodies[i], time, fuel)
            == bodies[i].orbital_elements.position_at_spec(time),
{
    lemma_find_body_in_range(bodies, body.orbiting_body_name@, 0);
    reveal_with_fuel(resolved_position_spec, 3);
}

/// Lower zoom bound: the camera never zooms nearer than this level.
pub const ZOOM_FLOOR: i64 = 655360;

/// Where `zoom_in` puts the zoom level: a tenth closer, clamped at the
/// floor.
pub open spec fn zoom_in_spec(z: int) -> int {
    if (z * 10) / 11 < ZOOM_FLOOR {
        ZOOM_FLOOR as int
    } else {
        (z * 10) / 11
    }
}

/// Owns the scene's bodies in selection order, the selection cursor and
/// the zoom level.
pub struct BodyManager {
    pub all_bodies: Vec<CelestialBody>,
    pub current_index: usize,
    pub zoom_level: i64,
}

impl BodyManager {
    /// The cursor stays in range, the body count is modest, and every
    /// body's elements are within the accepted ranges.
    pub open spec fn wf(self) -> bool {
        &&& self.current_index < self.all_bodies@.len()
        &&& self.all_bodies@.len() <= 0x1000
        &&& forall|i: int|
            0 <= i < self.all_bodies@.len() ==> (#[trigger] self.all_bodies@[i]).orbital_elements.wf()
    }


    /// Builds the scene: the star at the origin and eight orbiting bodies
    /// with their meshes, noise handles, materials and orbital elements,
    /// in selection order; the moon orbits the planet by name.
    pub fn new(
        star_mesh: u32,
        planet_mesh: u32,
        gas_giant_mesh: u32,
        ringed_mesh: u32,
        rings_mesh: u32,
        planet2_mesh: u32,
        mars_mesh: u32,
        moon_mesh: u32,
        comet_mesh: u32,
        noise_star: u32,
        noise_planet: u32,
        noise_gas_giant: u32,
        noise_moon: u32,
        noise_comet: u32,
    ) -> (r: BodyManager)
        ensures
            r.wf(),
            r.all_bodies@.len() == 9,
            r.current_index == 0,
            r.zoom_level == 3276800,
            r.all_bodies@[0].name@ == "Star"@,
            r.all_bodies@[0].mesh == star_mesh,
            r.all_bodies@[0].shader_type == CelestialType::Star,
            r.all_bodies@[0].orbital_elements == (OrbitalElements { semi_major_axis: 0, eccentricity: 0, inclination: 0, longitude_of_ascending_node: 0, argument_of_periapsis: 0, mean_anomaly: 0, orbital_period: 0 }),
            r.all_bodies@[0].scale == 65536,
            r.all_bodies@[0].noise == noise_star,
            r.all_bodies@[0].noise_scale == 65536,
            r.all_bodies@[0].is_moon == false,
            r.all_bodies@[0].orbiting_body_name@ == ""@,
            r.all_bodies@[1].name@ == "Planet"@,
            r.all_bodies@[1].mesh == planet_mesh,
            r.all_bodies@[1].shader_type == CelestialType::Planet,
            r.all_bodies@[1].orbital_elements == (OrbitalElements { semi_major_axis: 327680, eccentricity: 6554, inclination: 5720, longitude_of_ascending_node: 0, argument_of_periapsis: 0, mean_anomaly: 0, orbital_period: 1966080 }),
            r.all_bodies@[1].scale == 19661,
            r.all_bodies@[1].noise == noise_planet,
            r.all_bodies@[1].noise_scale == 196608,
            r.all_bodies@[1].is_moon == false,
            r.all_bodies@[1].orbiting_body_name@ == ""@,
            r.all_bodies@[2].name@ == "GasGiant"@,
            r.all_bodies@[2].mesh == gas_giant_mesh,
            r.all_bodies@[2].shader_type == CelestialType::GasGiant,
            r.all_bodies@[2].orbital_elements == (OrbitalElements { semi_major_axis: 524288, eccentricity: 3277, inclination: 11440, longitude_of_ascending_node: 0, argument_of_periapsis: 0, mean_anomaly: 0, orbital_period: 4259840 }),
            r.all_bodies@[2].scale == 32768,
            r.all_bodies@[2].noise == noise_gas_giant,
            r.all_bodies@[2].noise_scale == 983040,
            r.all_bodies@[2].is_moon == false,
            r.all_bodies@[2].orbiting_body_name@ == ""@,
            r.all_bodies@[3].name@ == "Ringed"@,
            r.all_bodies@[3].mesh == ringed_mesh,
            r.all_bodies@[3].shader_type == CelestialType::Ringed,
            r.all_bodies@[3].orbital_elements == (OrbitalElements { semi_major_axis: 655360, eccentricity: 1311, inclination: 17157, longitude_of_ascending_node: 0, argument_of_periapsis: 0, mean_anomaly: 0, orbital_period: 2293760 }),
            r.all_bodies@[3].scale == 32768,
            r.all_bodies@[3].noise == noise_gas_giant,
            r.all_bodies@[3].noise_scale == 983040,
            r.all_bodies@[3].is_moon == false,
            r.all_bodies@[3].orbiting_body_name@ == ""@,
            r.all_bodies@[4].name@ == "Rings"@,
            r.all_bodies@[4].mesh == rings_mesh,
            r.all_bodies@[4].shader_type == CelestialType::Rings,
            r.all_bodies@[4].orbital_elements == (OrbitalElements { semi_major_axis: 655360, eccentricity: 1311, inclination: 17157, longitude_of_ascending_node: 0, argument_of_periapsis: 0, mean_anomaly: 0, orbital_period: 2293760 }),
            r.all_bodies@[4].scale == 26214,
            r.all_bodies@[4].noise == noise_gas_giant,
            r.all_bodies@[4].noise_scale == 0,
            r.all_bodies@[4].is_moon == false,
            r.all_bodies@[4].orbiting_body_name@ == ""@,
            r.all_bodies@[4].ring_inner_radius == 65536,
            r.all_bodies@[4].ring_outer_radius == 262144,
            r.all_bodies@[4].ring_color == (Color { r: 200u8, g: 200u8, b: 200u8 }),
            r.all_bodies@[4].ring_opacity == 45875,
            r.all_bodies@[4].ring_frequency == 983040,
            r.all_bodies@[4].ring_wave_speed == 32768,
            r.all_bodies@[4].ring_rotation_matrix@ == m4rot_x(51472),
            r.all_bodies@[5].name@ == "Planet2"@,
            r.all_bodies@[5].mesh == planet2_mesh,
            r.all_bodies@[5].shader_type == CelestialType::Planet2,
            r.all_bodies@[5].orbital_elements == (OrbitalElements { semi_major_axis: 393216, eccentricity: 3277, inclination: 8008, longitude_of_ascending_node: 0, argument_of_periapsis: 0, mean_anomaly: 0, orbital_period: 2621440 }),
            r.all_bodies@[5].scale == 19661,
            r.all_bodies@[5].noise == noise_planet,
            r.all_bodies@[5].noise_scale == 196608,
            r.all_bodies@[5].is_moon == false,
            r.all_bodies@[5].orbiting_body_name@ == ""@,
            r.all_bodies@[6].name@ == "Mars"@,
            r.all_bodies@[6].mesh == mars_mesh,
            r.all_bodies@[6].shader_type == CelestialType::Mars,
            r.all_bodies@[6].orbital_elements == (OrbitalElements { semi_major_axis: 262144, eccentricity: 5243, inclination: 3432, longitude_of_ascending_node: 0, argument_of_periapsis: 0, mean_anomaly: 0, orbital_period: 1310720 }),
            r.all_bodies@[6].scale == 13107,
            r.all_bodies@[6].noise == noise_planet,
            r.all_bodies@[6].noise_scale == 393216,
            r.all_bodies@[6].is_moon == false,
            r.all_bodies@[6].orbiting_body_name@ == ""@,
            r.all_bodies@[7].name@ == "Moon"@,
            r.all_bodies@[7].mesh == moon_mesh,
            r.all_bodies@[7].shader_type == CelestialType::Moon,
            r.all_bodies@[7].orbital_elements == (OrbitalElements { semi_major_axis: 45875, eccentricity: 655, inclination: 5720, longitude_of_ascending_node: 0, argument_of_periapsis: 0, mean_anomaly: 0, orbital_period: 458752 }),
            r.all_bodies@[7].scale == 3932,
            r.all_bodies@[7].noise == noise_moon,
            r.all_bodies@[7].noise_scale == 131072,
            r.all_bodies@[7].is_moon == true,
            r.all_bodies@[7].orbiting_body_name@ == "Planet"@,
            r.all_bodies@[8].name@ == "Comet"@,
            r.all_bodies@[8].mesh == comet_mesh,
            r.all_bodies@[8].shader_type == CelestialType::Comet,
            r.all_bodies@[8].orbital_elements == (OrbitalElements { semi_major_axis: 786432, eccentricity: 45875, inclination: 34315, longitude_of_ascending_node: 0, argument_of_periapsis: 0, mean_anomaly: 0, orbital_period: 6553600 }),
            r.all_bodies@[8].scale == 6554,
            r.all_bodies@[8].noise == noise_comet,
            r.all_bodies@[8].noise_scale == 458752,
            r.all_bodies@[8].is_moon == false,
            r.all_bodies@[8].orbiting_body_name@ == ""@,
    {
        let mut bodies: Vec<CelestialBody> = Vec::new();
        bodies.push(
            CelestialBody::new(
                "Star".to_owned(),
                star_mesh,
                CelestialType::Star,
                OrbitalElements::new(0, 0, 0, 0, 0, 0, 0),
                65536,
                Vec3F::new(0, 0, 0),
                noise_star,
                65536,
                -39322,
                42598,
                6554,
                0,
                0,
                0,
                Color::black(),
                0,
                0,
                0,
                Mat4F::identity(),
                false,
                "".to_owned(),
            ),
        );
        bodies.push(
            CelestialBody::new(
                "Planet".to_owned(),
                planet_mesh,
                CelestialType::Planet,
                OrbitalElements::new(327680, 6554, 5720, 0, 0, 0, 1966080),
                19661,
                Vec3F::new(0, 0, 0),
                noise_planet,
                196608,
                -2490,
                55706,
                13107,
                3277,
                0,
                0,
                Color::black(),
                0,
                0,
                0,
                Mat4F::identity(),
                false,
                "".to_owned(),
            ),
        );
        bodies.push(
            CelestialBody::new(
                "GasGiant".to_owned(),
                gas_giant_mesh,
                CelestialType::GasGiant,
                OrbitalElements::new(524288, 3277, 11440, 0, 0, 0, 4259840),
                32768,
                Vec3F::new(0, 0, 0),
                noise_gas_giant,
                983040,
                -39322,
                42598,
                6554,
                0,
                0,
                0,
                Color::black(),
                0,
                0,
                0,
                Mat4F::identity(),
                false,
                "".to_owned(),
            ),
        );
        bodies.push(
            CelestialBody::new(
                "Ringed".to_owned(),
                ringed_mesh,
                CelestialType::Ringed,
                OrbitalElements::new(655360, 1311, 17157, 0, 0, 0, 2293760),
                32768,
                Vec3F::new(0, 0, 0),
                noise_gas_giant,
                983040,
                -39322,
                42598,
                6554,
                0,
                0,
                0,
                Color::black(),
                0,
                0,
                0,
                Mat4F::identity(),
                false,
                "".to_owned(),
            ),
        );
        bodies.push(
            CelestialBody::new(
                "Rings".to_owned(),
                rings_mesh,
                CelestialType::Rings,
                OrbitalElements::new(655360, 1311, 17157, 0, 0, 0, 2293760),
                26214,
                Vec3F::new(2949120, 0, 1638400),
                noise_gas_giant,
                0,
                0,
                0,
                0,
                0,
                65536,
                262144,
                Color::new(200, 200, 200),
                45875,
                983040,
                32768,
                Mat4F::rotation_x(51472),
                false,
                "".to_owned(),
            ),
        );
        bodies.push(
            CelestialBody::new(
                "Planet2".to_owned(),
                planet2_mesh,
                CelestialType::Planet2,
                OrbitalElements::new(393216, 3277, 8008, 0, 0, 0, 2621440),
                19661,
                Vec3F::new(0, 0, 0),
                noise_planet,
                196608,
                -2490,
                55706,
                13107,
                3277,
                0,
                0,
                Color::black(),
                0,
                0,
                0,
                Mat4F::identity(),
                false,
                "".to_owned(),
            ),
        );
        bodies.push(
            CelestialBody::new(
                "Mars".to_owned(),
                mars_mesh,
                CelestialType::Mars,
                OrbitalElements::new(262144, 5243, 3432, 0, 0, 0, 1310720),
                13107,
                Vec3F::new(0, 0, 0),
                noise_planet,
                393216,
                -2490,
                55706,
                13107,
                3277,
                0,
                0,
                Color::black(),
                0,
                0,
                0,
                Mat4F::identity(),
                false,
                "".to_owned(),
            ),
        );
        bodies.push(
            CelestialBody::new(
                "Moon".to_owned(),
                moon_mesh,
                CelestialType::Moon,
                OrbitalElements::new(45875, 655, 5720, 0, 0, 0, 458752),
                3932,
                Vec3F::new(0, 0, 0),
                noise_moon,
                131072,
                -32768,
                39322,
                13107,
                0,
                0,
                0,
                Color::black(),
                0,
                0,
                0,
                Mat4F::identity(),
                true,
                "Planet".to_owned(),
            ),
        );
        bodies.push(
            CelestialBody::new(
                "Comet".to_owned(),
                comet_mesh,
                CelestialType::Comet,
                OrbitalElements::new(786432, 45875, 34315, 0, 0, 0, 6553600),
                6554,
                Vec3F::new(0, 0, 0),
                noise_comet,
                458752,
                -39322,
                42598,
                6554,
                0,
                0,
                0,
                Color::black(),
                0,
                0,
                0,
                Mat4F::identity(),
                false,
                "".to_owned(),
            ),
        );
        let r = BodyManager { all_bodies: bodies, current_index: 0, zoom_level: 3276800 };
        proof {
            assert forall|i: int| 0 <= i < r.all_bodies@.len() implies (#[trigger] r.all_bodies@[i]).orbital_elements.wf() by {
                if i == 0 {
                } else if i == 1 {
                } else if i == 2 {
                } else if i == 3 {
                } else if i == 4 {
                } else if i == 5 {
                } else if i == 6 {
                } else if i == 7 {
                } else {
                    assert (i == 8);
                }
            }
        }
        r
    }

    /// Resolves a body's position at a time, adding each parent's orbital
    /// offset up the `orbiting_body_name` chain.
    pub fn get_body_position(&self, body: &CelestialBody, time: i64) -> (r: Vec3F)
        requires
            self.wf(),
            body.orbital_elements.wf(),
            0 <= time <= ORBIT_TIME_MAX,
        ensures
            r@ == resolved_position_spec(
                self.all_bodies@,
                *body,
                time as int,
                self.all_bodies@.len(),
            ),
            vb(r@, 0x2_0000_0000_0000),
    {
        let ghost n: nat = self.all_bodies@.len();
        let mut position: Vec3F = body.orbital_elements.position_at(time);
        let mut fuel: usize = self.all_bodies.len();
        let mut current: &CelestialBody = body;
        while current.is_moon && fuel > 0
            invariant
                self.wf(),
                0 <= time <= ORBIT_TIME_MAX,
                current.orbital_elements.wf(),
                fuel <= n,
                n == self.all_bodies@.len(),
                n <= 0x1000,
                vb(position@, (1 + n - fuel) * 0x8000_0000),
                resolved_position_spec(self.all_bodies@, *body, time as int, n) == vadd(
                    vsub(position@, current.orbital_elements.position_at_spec(time as int)),
                    resolved_position_spec(self.all_bodies@, *current, time as int, fuel as nat),
                ),
            decreases fuel,
        {
            proof {
                lemma_find_body_in_range(self.all_bodies@, current.orbiting_body_name@, 0);
            }
            match self.get_body_by_name(current.orbiting_body_name.as_str()) {
                Some(parent) => {
                    let step: Vec3F = parent.orbital_elements.position_at(time);
                    position = position.add(step);
                    current = parent;
                    fuel = fuel - 1;
                },
                None => {
                    return position;
                },
            }
        }
        position
    }

    /// Finds a body by name: the first one in selection order, if any.
    pub fn get_body_by_name(&self, name: &str) -> (r: Option<&CelestialBody>)
        ensures
            find_body(self.all_bodies@, name@) matches Some(i) ==> r matches Some(b) && *b
                == self.all_bodies@[i],
            find_body(self.all_bodies@, name@) is None ==> r is None,
    {
        let key: String = name.to_owned();
        let n: usize = self.all_bodies.len();
        let mut i: usize = 0;
        while i < n
            invariant
                i <= n,
                n == self.all_bodies@.len(),
                key@ == name@,
                find_body(self.all_bodies@, name@) == find_body_from(
                    self.all_bodies@,
                    name@,
                    i as nat,
                ),
            decreases n - i,
        {
            if self.all_bodies[i].name == key {
                return Some(&self.all_bodies[i]);
            }
            i = i + 1;
        }
        None
    }

    /// Zooms a tenth closer, never below the configured floor.
    pub fn zoom_in(&mut self)
        ensures
            final(self).zoom_level == zoom_in_spec(old(self).zoom_level as int),
            final(self).all_bodies == old(self).all_bodies,
            final(self).current_index == old(self).current_index,
    {
        let scaled: i128 = (self.zoom_level as i128) * 10;
        let z: i64 = floor_div_i128(scaled, 11) as i64;
        proof {
            lemma_div_bounds(scaled as int, 11, iabs(self.zoom_level as int));
            assert (-(iabs(self.zoom_level as int)) * 11 <= scaled <= iabs(
                self.zoom_level as int,
            ) * 11) by (nonlinear_arith)
                requires
                    scaled == (self.zoom_level as int) * 10,
                    iabs(self.zoom_level as int) == if self.zoom_level < 0 {
                        -(self.zoom_level as int)
                    } else {
                        self.zoom_level as int
                    },
            ;
        }
        if z < ZOOM_FLOOR {
            self.zoom_level = ZOOM_FLOOR;
        } else {
            self.zoom_level = z;
        }
    }

    /// Zooms a tenth farther out; unbounded growth apart from the machine
    /// range.
    pub fn zoom_out(&mut self)
        requires
            -0x0800_0000_0000_0000 <= old(self).zoom_level <= 0x0800_0000_0000_0000,
        ensures
            final(self).zoom_level == ((old(self).zoom_level as int) * 11) / 10,
            final(self).all_bodies == old(self).all_bodies,
            final(self).current_index == old(self).current_index,
    {
        let scaled: i128 = (self.zoom_level as i128) * 11;
        proof {
            lemma_div_bounds(scaled as int, 10, 0x1000_0000_0000_0000int);
            assert (-0x1000_0000_0000_0000int * 10 <= scaled <= 0x1000_0000_0000_0000int * 10)
                by (nonlinear_arith)
                requires
                    scaled == (self.zoom_level as int) * 11,
                    -0x0800_0000_0000_0000 <= self.zoom_level <= 0x0800_0000_0000_0000,
            ;
        }
        self.zoom_level = floor_div_i128(scaled, 10) as i64;
    }

    /// Advances the selection cursor, wrapping past the last body.
    pub fn next(&mut self)
        requires
            old(self).all_bodies@.len() > 0,
            old(self).current_index < old(self).all_bodies@.len(),
        ensures
            final(self).current_index == (old(self).current_index + 1) % (
            old(self).all_bodies@.len() as int),
            final(self).all_bodies == old(self).all_bodies,
            final(self).zoom_level == old(self).zoom_level,
    {
        let n: usize = self.all_bodies.len();
        self.current_index = (self.current_index + 1) % n;
    }

    /// Moves the selection cursor to `index` when it is in range; an
    /// out-of-range index is silently ignored and changes nothing.
    pub fn select(&mut self, index: usize)
        ensures
            index < old(self).all_bodies@.len() ==> final(self).current_index == index,
            index >= old(self).all_bodies@.len() ==> final(self).current_index == old(
                self,
            ).current_index,
            final(self).all_bodies == old(self).all_bodies,
            final(self).zoom_level == old(self).zoom_level,
    {
        if index < self.all_bodies.len() {
            self.current_index = index;
        }
    }
}


} // verus!

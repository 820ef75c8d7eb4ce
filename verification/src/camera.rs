//! The camera state machine.
//!
//! The camera is either free (no target) or following a target position.
//! Every mutating operation raises the `has_changed` flag;
//! `check_if_changed` reads and clears it, so a downstream consumer sees
//! each change exactly once.

use vstd::prelude::*;
use crate::fixed::{fxs_mul, fx_mul, FX_ONE, FX_ABS_MAX, FX_ANGLE_MAX, lemma_fxs_mul_le};
use crate::vec3::{
    Vec3F, vadd, vsub, vsmul, vcross, vnorm2, vnorm, vnormalize, vlerp, vrodrigues, vb,
    lemma_vcross_near_unit, lemma_vcross_bounds, VEC_OP_MAX,
};

verus! {

/// Componentwise bound for camera positions and directions, small enough
/// that two chained axis rotations stay within the vector ops' caps.
pub const CAM_MAX: i64 = 0x1000_0000;

/// How the frame driver steers the camera.
pub enum CameraMode {
    /// Orbit, drag and zoom freely.
    Free,
    /// Locked onto one body.
    Fixed {
        /// Index of the followed body in the manager's order.
        target_index: usize,
        /// Rotation angle around the followed body.
        angle: i64,
    },
}

/// Eye/center/up state with a one-shot change flag and an optional follow
/// target.
pub struct Camera {
    pub eye: Vec3F,
    pub center: Vec3F,
    pub up: Vec3F,
    pub has_changed: bool,
    pub target: Option<Vec3F>,
}

impl Camera {
    /// Eye, center and up all within `[-b, b]` componentwise.
    pub open spec fn in_range(self, b: int) -> bool {
        &&& vb(self.eye@, b)
        &&& vb(self.center@, b)
        &&& vb(self.up@, b)
    }

    /// Where the orbit operation moves the eye.
    pub open spec fn orbit_eye_spec(self, dx: int, dy: int) -> (int, int, int) {
        let d = vsub(self.eye@, self.center@);
        let h = vnormalize(self.up@);
        let va = vnormalize(vcross(d, h));
        vadd(self.center@, vrodrigues(vrodrigues(d, h, dx), va, dy))
    }

    /// Where the orbit operation moves the up vector.
    pub open spec fn orbit_up_spec(self, dy: int) -> (int, int, int) {
        let d = vsub(self.eye@, self.center@);
        let h = vnormalize(self.up@);
        let va = vnormalize(vcross(d, h));
        vrodrigues(self.up@, va, dy)
    }

    /// The camera's basis applied to a vector, renormalized.
    pub open spec fn basis_change_spec(self, v: (int, int, int)) -> (int, int, int) {
        let fwd = vnormalize(vsub(self.center@, self.eye@));
        let right = vnormalize(vcross(fwd, self.up@));
        let upv = vnormalize(vcross(right, fwd));
        vnormalize(vadd(vadd(vsmul(right, v.0), vsmul(upv, v.1)), vsmul(fwd, -v.2)))
    }

    /// A fresh camera is marked changed and follows nothing.
    pub fn new(eye: Vec3F, center: Vec3F, up: Vec3F) -> (c: Camera)
        ensures
            c.eye == eye,
            c.center == center,
            c.up == up,
            c.has_changed == true,
            c.target is None,
    {
        Camera { eye, center, up, has_changed: true, target: None }
    }

    /// Starts following a position: records it as the target and snaps the
    /// view onto it.
    pub fn follow(&mut self, target_position: Vec3F)
        requires
            vb(target_position@, CAM_MAX as int),
        ensures
            final(self).target == Some(target_position),
            final(self).center == target_position,
            final(self).eye@ == vadd(target_position@, (0int, 0int, 10 * (FX_ONE as int))),
            final(self).up == old(self).up,
            final(self).has_changed == true,
    {
        self.target = Some(target_position);
        self.update_view();
        self.has_changed = true;
    }

    /// Stops following without moving the camera.
    pub fn stop_following(&mut self)
        ensures
            final(self).target is None,
            final(self).eye == old(self).eye,
            final(self).center == old(self).center,
            final(self).up == old(self).up,
            final(self).has_changed == old(self).has_changed,
    {
        self.target = None;
    }

    /// Snaps center and eye onto the followed target, if any; the eye sits
    /// ten units behind it along the z axis.
    pub fn update_view(&mut self)
        requires
            old(self).target matches Some(t) ==> vb(t@, CAM_MAX as int),
        ensures
            old(self).target is None ==> *final(self) == *old(self),
            old(self).target matches Some(t) ==> {
                &&& final(self).center == t
                &&& final(self).eye@ == vadd(t@, (0int, 0int, 10 * (FX_ONE as int)))
                &&& final(self).up == old(self).up
                &&& final(self).target == old(self).target
                &&& final(self).has_changed == true
            },
    {
        match self.target {
            Some(target_pos) => {
                self.center = target_pos;
                self.eye = target_pos.add(Vec3F::new(0, 0, 10 * FX_ONE));
                self.has_changed = true;
            },
            None => {},
        }
    }

    /// Expresses a vector in the camera's orthonormalized basis.
    pub fn basis_change(&self, vector: &Vec3F) -> (r: Vec3F)
        requires
            self.in_range(CAM_MAX as int),
            vb(vector@, CAM_MAX as int),
            vnorm2(vsub(self.center@, self.eye@)) >= 1,
            vnorm2(vcross(vnormalize(vsub(self.center@, self.eye@)), self.up@)) >= 1,
            vnorm2(
                vcross(
                    vnormalize(vcross(vnormalize(vsub(self.center@, self.eye@)), self.up@)),
                    vnormalize(vsub(self.center@, self.eye@)),
                ),
            ) >= 1,
            vnorm2(self.basis_change_arg(vector@)) >= 1,
        ensures
            r@ == self.basis_change_spec(vector@),
    {
        let forward: Vec3F = self.center.sub(self.eye).normalize();
        proof {
            lemma_vcross_near_unit(self.up@, forward@, CAM_MAX as int);
        }
        let right: Vec3F = forward.cross(self.up).normalize();
        proof {
            lemma_vcross_near_unit(right@, forward@, (FX_ONE + 1) as int);
        }
        let upv: Vec3F = right.cross(forward).normalize();
        proof {
            lemma_fxs_mul_le(right.x as int, vector.x as int, (FX_ONE + 1) as int, CAM_MAX as int);
            lemma_fxs_mul_le(right.y as int, vector.x as int, (FX_ONE + 1) as int, CAM_MAX as int);
            lemma_fxs_mul_le(right.z as int, vector.x as int, (FX_ONE + 1) as int, CAM_MAX as int);
            lemma_fxs_mul_le(upv.x as int, vector.y as int, (FX_ONE + 1) as int, CAM_MAX as int);
            lemma_fxs_mul_le(upv.y as int, vector.y as int, (FX_ONE + 1) as int, CAM_MAX as int);
            lemma_fxs_mul_le(upv.z as int, vector.y as int, (FX_ONE + 1) as int, CAM_MAX as int);
            lemma_fxs_mul_le(
                forward.x as int,
                -(vector.z as int),
                (FX_ONE + 1) as int,
                CAM_MAX as int,
            );
            lemma_fxs_mul_le(
                forward.y as int,
                -(vector.z as int),
                (FX_ONE + 1) as int,
                CAM_MAX as int,
            );
            lemma_fxs_mul_le(
                forward.z as int,
                -(vector.z as int),
                (FX_ONE + 1) as int,
                CAM_MAX as int,
            );
        }
        let rotated: Vec3F = right.smul(vector.x).add(upv.smul(vector.y)).add(
            forward.smul(-vector.z),
        );
        rotated.normalize()
    }

    /// The vector that `basis_change` normalizes at the end.
    pub open spec fn basis_change_arg(self, v: (int, int, int)) -> (int, int, int) {
        let fwd = vnormalize(vsub(self.center@, self.eye@));
        let right = vnormalize(vcross(fwd, self.up@));
        let upv = vnormalize(vcross(right, fwd));
        vadd(vadd(vsmul(right, v.0), vsmul(upv, v.1)), vsmul(fwd, -v.2))
    }

    /// Orbits the eye around the center: the eye-to-center direction is
    /// rotated about the normalized up vector by `delta_x`, then about the
    /// axis perpendicular to direction and up by `delta_y`; the up vector is
    /// rotated with it so successive orbits stay consistent.
    pub fn orbit(&mut self, delta_x: i64, delta_y: i64)
        requires
            old(self).in_range(CAM_MAX as int),
            vnorm2(old(self).up@) >= 1,
            vnorm2(vcross(vsub(old(self).eye@, old(self).center@), vnormalize(old(self).up@)))
                >= 1,
            -FX_ANGLE_MAX <= delta_x <= FX_ANGLE_MAX,
            -FX_ANGLE_MAX <= delta_y <= FX_ANGLE_MAX,
        ensures
            final(self).eye@ == old(self).orbit_eye_spec(delta_x as int, delta_y as int),
            final(self).up@ == old(self).orbit_up_spec(delta_y as int),
            final(self).center == old(self).center,
            final(self).target == old(self).target,
            final(self).has_changed == true,
    {
        let direction: Vec3F = self.eye.sub(self.center);
        let horizontal_axis: Vec3F = self.up.normalize();
        proof {
            lemma_vcross_near_unit(direction@, horizontal_axis@, 2 * (CAM_MAX as int));
        }
        let vertical_axis: Vec3F = direction.cross(horizontal_axis).normalize();
        let rotated_direction_horizontal: Vec3F = direction.rotate_axis(delta_x, horizontal_axis);
        let final_direction: Vec3F = rotated_direction_horizontal.rotate_axis(
            delta_y,
            vertical_axis,
        );
        self.eye = self.center.add(final_direction);
        self.up = self.up.rotate_axis(delta_y, vertical_axis);
        self.has_changed = true;
    }

    /// Moves the eye along the view direction by `delta` (positive zooms
    /// in); the center stays put.
    pub fn zoom(&mut self, delta: i64)
        requires
            old(self).in_range(CAM_MAX as int),
            vnorm2(vsub(old(self).center@, old(self).eye@)) >= 1,
            -FX_ABS_MAX <= delta <= FX_ABS_MAX,
        ensures
            final(self).eye@ == vadd(
                old(self).eye@,
                vsmul(vnormalize(vsub(old(self).center@, old(self).eye@)), delta as int),
            ),
            final(self).center == old(self).center,
            final(self).up == old(self).up,
            final(self).target == old(self).target,
            final(self).has_changed == true,
    {
        let direction: Vec3F = self.center.sub(self.eye).normalize();
        proof {
            lemma_fxs_mul_le(direction.x as int, delta as int, (FX_ONE + 1) as int, FX_ABS_MAX as int);
            lemma_fxs_mul_le(direction.y as int, delta as int, (FX_ONE + 1) as int, FX_ABS_MAX as int);
            lemma_fxs_mul_le(direction.z as int, delta as int, (FX_ONE + 1) as int, FX_ABS_MAX as int);
        }
        self.eye = self.eye.add(direction.smul(delta));
        self.has_changed = true;
    }

    /// Where `move_center` puts the center.
    pub open spec fn move_center_spec(self, direction: (int, int, int)) -> (int, int, int) {
        let rv = vsub(self.center@, self.eye@);
        let ax = fxs_mul(direction.0, 3277);
        let ay = fxs_mul(direction.1, 3277);
        let rotated = vrodrigues(rv, (0int, FX_ONE as int, 0int), ax);
        let right = vnormalize(vcross(rotated, self.up@));
        let fr = vrodrigues(rotated, right, ay);
        vadd(self.eye@, vsmul(vnormalize(fr), vnorm(rv)))
    }

    /// Swings the center around the eye: rotates the eye-to-center vector
    /// about the world's vertical axis and about the camera's right axis by
    /// angles proportional to the input, keeping the radius.
    #[verifier::rlimit(100)]
    pub fn move_center(&mut self, direction: Vec3F)
        requires
            old(self).in_range(CAM_MAX as int),
            vb(old(self).up@, 0x4_0000),
            vb(direction@, CAM_MAX as int),
            ({
                let rv = vsub(old(self).center@, old(self).eye@);
                let ax = fxs_mul(direction@.0, 3277);
                let rotated = vrodrigues(rv, (0int, FX_ONE as int, 0int), ax);
                let fr = vrodrigues(rotated, vnormalize(vcross(rotated, old(self).up@)), fxs_mul(direction@.1, 3277));
                vnorm2(vcross(rotated, old(self).up@)) >= 1 && vnorm2(fr) >= 1
            }),
        ensures
            final(self).center@ == old(self).move_center_spec(direction@),
            final(self).eye == old(self).eye,
            final(self).up == old(self).up,
            final(self).target == old(self).target,
            final(self).has_changed == true,
    {
        let radius_vector: Vec3F = self.center.sub(self.eye);
        let radius: i64 = radius_vector.norm();
        proof {
            lemma_fxs_mul_le(direction.x as int, 3277, CAM_MAX as int, 3277);
            lemma_fxs_mul_le(direction.y as int, 3277, CAM_MAX as int, 3277);
        }
        let angle_x: i64 = fx_mul(direction.x, 3277);
        let angle_y: i64 = fx_mul(direction.y, 3277);
        let rotated: Vec3F = radius_vector.rotate_axis(angle_x, Vec3F::new(0, FX_ONE, 0));
        proof {
            lemma_vcross_bounds(rotated@, self.up@, 0x4_0000_0000, 0x4_0000);
            assert (fxs_mul(0x4_0000_0000, 0x4_0000) == 0x10_0000_0000);
        }
        let right: Vec3F = rotated.cross(self.up).normalize();
        let final_rotated: Vec3F = rotated.rotate_axis(angle_y, right);
        let unit: Vec3F = final_rotated.normalize();
        proof {
            lemma_fxs_mul_le(unit.x as int, radius as int, (FX_ONE + 1) as int, FX_ABS_MAX as int);
            lemma_fxs_mul_le(unit.y as int, radius as int, (FX_ONE + 1) as int, FX_ABS_MAX as int);
            lemma_fxs_mul_le(unit.z as int, radius as int, (FX_ONE + 1) as int, FX_ABS_MAX as int);
        }
        self.center = self.eye.add(unit.smul(radius));
        self.has_changed = true;
    }

    /// One-shot change poll: reports whether the camera changed since the
    /// last poll and clears the flag, so a single change is seen exactly
    /// once.
    pub fn check_if_changed(&mut self) -> (changed: bool)
        ensures
            changed == old(self).has_changed,
            final(self).has_changed == false,
            final(self).eye == old(self).eye,
            final(self).center == old(self).center,
            final(self).up == old(self).up,
            final(self).target == old(self).target,
    {
        if self.has_changed {
            self.has_changed = false;
            true
        } else {
            false
        }
    }

    /// Moves eye and center a fraction `t` of the way toward the given
    /// targets (`t` is a fixed-point factor in `[0, FX_ONE]`).
    pub fn interpolate_to(&mut self, target_eye: Vec3F, target_center: Vec3F, t: i64)
        requires
            old(self).in_range(VEC_OP_MAX as int),
            vb(target_eye@, VEC_OP_MAX as int),
            vb(target_center@, VEC_OP_MAX as int),
            0 <= t <= FX_ONE,
        ensures
            final(self).eye@ == vlerp(old(self).eye@, target_eye@, t as int),
            final(self).center@ == vlerp(old(self).center@, target_center@, t as int),
            final(self).up == old(self).up,
            final(self).target == old(self).target,
            final(self).has_changed == true,
    {
        self.eye = self.eye.lerp(target_eye, t);
        self.center = self.center.lerp(target_center, t);
        self.has_changed = true;
    }
}

} // verus!

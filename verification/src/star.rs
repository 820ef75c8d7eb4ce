//! A single background star.

use vstd::prelude::*;
use crate::fixed::FX_ONE;
use crate::vec3::{Vec3F, vb};
use crate::color::Color;

verus! {

/// A brightness clamped into `[0, FX_ONE]`.
pub open spec fn clamp_unit(b: int) -> int {
    if b < 0 {
        0
    } else if b > FX_ONE {
        FX_ONE as int
    } else {
        b
    }
}

/// A point of background light: position, brightness and color.
#[derive(Clone, Copy, PartialEq, Eq, Structural, Debug)]
pub struct Star {
    pub position: Vec3F,
    pub brightness: i64,
    pub color: Color,
}

impl Star {
    /// Position within the star-field sphere and a unit-range brightness.
    pub open spec fn wf(self) -> bool {
        &&& 0 <= self.brightness <= FX_ONE
        &&& vb(self.position@, 0x1100_0000)
    }

    /// Builds a star, clamping the brightness into `[0, FX_ONE]`.
    pub fn new(position: Vec3F, brightness: i64, color: Color) -> (s: Star)
        ensures
            s.position == position,
            s.color == color,
            s.brightness == clamp_unit(brightness as int),
    {
        let b: i64 = if brightness < 0 {
            0
        } else if brightness > FX_ONE {
            FX_ONE
        } else {
            brightness
        };
        Star { position, brightness: b, color }
    }
}

} // verus!

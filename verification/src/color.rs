//! RGB colors and their packed 24-bit representation.

use vstd::prelude::*;
use vstd::arithmetic::div_mod::*;
use crate::fixed::{fxs_mul, fx_mul, lemma_fxs_mul_unit, FX_ONE};

verus! {

/// The red channel of a packed `0xRRGGBB` color.
pub open spec fn chan_r(c: int) -> int {
    (c / 0x1_0000) % 0x100
}

/// The green channel of a packed `0xRRGGBB` color.
pub open spec fn chan_g(c: int) -> int {
    (c / 0x100) % 0x100
}

/// The blue channel of a packed `0xRRGGBB` color.
pub open spec fn chan_b(c: int) -> int {
    c % 0x100
}

/// Packs three channels into a `0xRRGGBB` word.
pub open spec fn pack_rgb(r: int, g: int, b: int) -> int {
    r * 0x1_0000 + g * 0x100 + b
}

/// Clamps a channel value at 255.
pub open spec fn min_255(x: int) -> int {
    if x < 255 {
        x
    } else {
        255
    }
}

/// An RGB color with 8-bit channels.
#[derive(Clone, Copy, PartialEq, Eq, Structural, Debug)]
pub struct Color {
    pub r: u8,
    pub g: u8,
    pub b: u8,
}

/// The packed representation of a color.
pub open spec fn color_hex(c: Color) -> int {
    pack_rgb(c.r as int, c.g as int, c.b as int)
}

impl Color {
    /// Builds a color from its channels.
    pub fn new(r: u8, g: u8, b: u8) -> (c: Color)
        ensures
            c == (Color { r, g, b }),
    {
        Color { r, g, b }
    }

    /// Black.
    pub fn black() -> (c: Color)
        ensures
            c == (Color { r: 0u8, g: 0u8, b: 0u8 }),
    {
        Color { r: 0, g: 0, b: 0 }
    }

    /// The packed `0xRRGGBB` word of this color.
    pub fn to_hex(self) -> (h: u32)
        ensures
            h == color_hex(self),
            h < 0x100_0000,
    {
        (self.r as u32) * 0x1_0000 + (self.g as u32) * 0x100 + (self.b as u32)
    }

    /// Scales every channel by a fixed-point factor in `[0, FX_ONE]`
    /// (a brightness attenuation; never brightens, never wraps).
    pub fn scaled(self, f: i64) -> (c: Color)
        requires
            0 <= f <= FX_ONE,
        ensures
            c.r == fxs_mul(self.r as int, f as int),
            c.g == fxs_mul(self.g as int, f as int),
            c.b == fxs_mul(self.b as int, f as int),
    {
        proof {
            lemma_fxs_mul_unit(self.r as int, f as int);
            lemma_fxs_mul_unit(self.g as int, f as int);
            lemma_fxs_mul_unit(self.b as int, f as int);
            lemma_div_pos_is_pos((self.r as int) * (f as int), FX_ONE as int);
            lemma_div_pos_is_pos((self.g as int) * (f as int), FX_ONE as int);
            lemma_div_pos_is_pos((self.b as int) * (f as int), FX_ONE as int);
            assert (0 <= (self.r as int) * (f as int) && 0 <= (self.g as int) * (f as int) && 0
                <= (self.b as int) * (f as int)) by (nonlinear_arith)
                requires
                    0 <= f,
            ;
        }
        Color {
            r: fx_mul(self.r as i64, f) as u8,
            g: fx_mul(self.g as i64, f) as u8,
            b: fx_mul(self.b as i64, f) as u8,
        }
    }
}

} // verus!

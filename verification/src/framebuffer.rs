//! A depth-composited framebuffer.
//!
//! Three parallel per-pixel arrays: packed color, fixed-point depth
//! (smaller is nearer, `DEPTH_FAR` plays the role of infinity) and packed
//! emissive light.  Writes are depth-tested; the post-process pass blends the
//! emissive buffer additively into the color buffer with per-channel
//! saturation at 255.

use vstd::prelude::*;
use vstd::arithmetic::div_mod::*;
use crate::color::{chan_r, chan_g, chan_b, pack_rgb, min_255, color_hex, Color};
use crate::fixed::FX_ONE;

verus! {

/// The depth every pixel is reset to: farther than any drawn depth.
pub const DEPTH_FAR: i64 = 0x7FFF_FFFF_FFFF_FFFF;

/// Additive blend of two packed colors, each channel saturating at 255.
pub open spec fn blend_add_spec(base: int, emissive: int) -> int {
    pack_rgb(
        min_255(chan_r(base) + chan_r(emissive)),
        min_255(chan_g(base) + chan_g(emissive)),
        min_255(chan_b(base) + chan_b(emissive)),
    )
}

/// Linear blend of two packed colors by a fixed-point factor `t` in
/// `[0, FX_ONE]`: each channel moves from `base` toward `overlay`.
pub open spec fn blend_toward_spec(base: int, overlay: int, t: int) -> int {
    pack_rgb(
        (chan_r(base) * ((FX_ONE as int) - t) + chan_r(overlay) * t) / (FX_ONE as int),
        (chan_g(base) * ((FX_ONE as int) - t) + chan_g(overlay) * t) / (FX_ONE as int),
        (chan_b(base) * ((FX_ONE as int) - t) + chan_b(overlay) * t) / (FX_ONE as int),
    )
}

/// Additive emissive blend of two packed colors, saturating per channel.
pub fn blend_add(base: u32, emissive: u32) -> (r: u32)
    ensures
        r == blend_add_spec(base as int, emissive as int),
        r < 0x100_0000,
{
    let br: u32 = (base / 0x1_0000) % 0x100;
    let bg: u32 = (base / 0x100) % 0x100;
    let bb: u32 = base % 0x100;
    let er: u32 = (emissive / 0x1_0000) % 0x100;
    let eg: u32 = (emissive / 0x100) % 0x100;
    let eb: u32 = emissive % 0x100;
    let sr: u32 = if br + er > 255 {
        255
    } else {
        br + er
    };
    let sg: u32 = if bg + eg > 255 {
        255
    } else {
        bg + eg
    };
    let sb: u32 = if bb + eb > 255 {
        255
    } else {
        bb + eb
    };
    sr * 0x1_0000 + sg * 0x100 + sb
}

/// One channel of the linear blend, computed exactly.
fn blend_channel(bc: u32, oc: u32, t: i64) -> (r: u32)
    requires
        bc < 0x100,
        oc < 0x100,
        0 <= t <= FX_ONE,
    ensures
        r == ((bc as int) * ((FX_ONE as int) - t) + (oc as int) * t) / (FX_ONE as int),
        r < 0x100,
{
    proof {
        assert (0 <= (bc as int) * ((FX_ONE as int) - t) && (bc as int) * ((FX_ONE as int) - t)
            <= 255 * (FX_ONE as int) && 0 <= (oc as int) * t && (oc as int) * t <= 255 * (
        FX_ONE as int) && (bc as int) * ((FX_ONE as int) - t) + (oc as int) * t <= 255 * (
        FX_ONE as int)) by (nonlinear_arith)
            requires
                bc < 0x100,
                oc < 0x100,
                0 <= t <= FX_ONE,
        ;
        lemma_div_is_ordered(
            (bc as int) * ((FX_ONE as int) - t) + (oc as int) * t,
            255 * (FX_ONE as int),
            FX_ONE as int,
        );
        lemma_div_by_multiple(255, FX_ONE as int);
        lemma_div_pos_is_pos(
            (bc as int) * ((FX_ONE as int) - t) + (oc as int) * t,
            FX_ONE as int,
        );
    }
    let s: u64 = (bc as u64) * ((FX_ONE - t) as u64) + (oc as u64) * (t as u64);
    (s / 65536) as u32
}

/// Linear blend of two packed colors by a fixed-point factor.
fn blend_colors(base: u32, overlay: u32, intensity: i64) -> (r: u32)
    requires
        0 <= intensity <= FX_ONE,
    ensures
        r == blend_toward_spec(base as int, overlay as int, intensity as int),
        r < 0x100_0000,
{
    let br: u32 = blend_channel((base / 0x1_0000) % 0x100, (overlay / 0x1_0000) % 0x100, intensity);
    let bg: u32 = blend_channel((base / 0x100) % 0x100, (overlay / 0x100) % 0x100, intensity);
    let bb: u32 = blend_channel(base % 0x100, overlay % 0x100, intensity);
    br * 0x1_0000 + bg * 0x100 + bb
}

/// One depth-tested pixel write, as a pure transformation of the parallel
/// color and depth arrays: within bounds and strictly nearer than the
/// stored depth, both arrays update at the pixel; otherwise nothing
/// changes.  This is exactly what `set_pixel` does, so the render passes
/// can state their whole effect as a fold of these writes.
pub open spec fn plot_spec(
    buf: Seq<u32>,
    zbuf: Seq<i64>,
    width: int,
    height: int,
    px: int,
    py: int,
    depth: int,
    color: int,
) -> (Seq<u32>, Seq<i64>) {
    let idx = py * width + px;
    if 0 <= px < width && 0 <= py < height && depth < zbuf[idx] {
        (buf.update(idx, color as u32), zbuf.update(idx, depth as i64))
    } else {
        (buf, zbuf)
    }
}

/// The off-screen render target.
pub struct Framebuffer {
    pub width: usize,
    pub height: usize,
    pub buffer: Vec<u32>,
    pub zbuffer: Vec<i64>,
    pub emissive_buffer: Vec<u32>,
    pub background_color: u32,
    pub current_color: u32,
}

/// Builds a vector of `n` copies of a word.
fn filled_u32(n: usize, value: u32) -> (v: Vec<u32>)
    ensures
        v@.len() == n,
        forall|i: int| 0 <= i < n ==> v@[i] == value,
{
    let mut v: Vec<u32> = Vec::new();
    let mut i: usize = 0;
    while i < n
        invariant
            i <= n,
            v@.len() == i,
            forall|j: int| 0 <= j < i ==> v@[j] == value,
        decreases n - i,
    {
        v.push(value);
        i = i + 1;
    }
    v
}

/// Builds a vector of `n` copies of a depth value.
fn filled_i64(n: usize, value: i64) -> (v: Vec<i64>)
    ensures
        v@.len() == n,
        forall|i: int| 0 <= i < n ==> v@[i] == value,
{
    let mut v: Vec<i64> = Vec::new();
    let mut i: usize = 0;
    while i < n
        invariant
            i <= n,
            v@.len() == i,
            forall|j: int| 0 <= j < i ==> v@[j] == value,
        decreases n - i,
    {
        v.push(value);
        i = i + 1;
    }
    v
}

impl Framebuffer {
    /// The three pixel arrays cover exactly `width x height` pixels.
    pub open spec fn wf(self) -> bool {
        &&& self.buffer@.len() == self.width * self.height
        &&& self.zbuffer@.len() == self.width * self.height
        &&& self.emissive_buffer@.len() == self.width * self.height
        &&& self.width * self.height <= usize::MAX
    }

    /// A fresh framebuffer: black, all depths at `DEPTH_FAR`, no emissive
    /// light, black background and paint color.
    pub fn new(width: usize, height: usize) -> (fb: Framebuffer)
        requires
            width * height <= usize::MAX,
        ensures
            fb.wf(),
            fb.width == width,
            fb.height == height,
            forall|i: int| 0 <= i < width * height ==> fb.buffer@[i] == 0,
            forall|i: int| 0 <= i < width * height ==> fb.zbuffer@[i] == DEPTH_FAR,
            forall|i: int| 0 <= i < width * height ==> fb.emissive_buffer@[i] == 0,
            fb.background_color == 0,
            fb.current_color == 0,
    {
        let n: usize = width * height;
        Framebuffer {
            width,
            height,
            buffer: filled_u32(n, 0),
            zbuffer: filled_i64(n, DEPTH_FAR),
            emissive_buffer: filled_u32(n, 0),
            background_color: 0,
            current_color: 0,
        }
    }

    /// Resets every pixel to the background color, every depth to
    /// `DEPTH_FAR` and every emissive contribution to black.
    pub fn clear(&mut self)
        requires
            old(self).wf(),
        ensures
            final(self).wf(),
            final(self).width == old(self).width,
            final(self).height == old(self).height,
            final(self).background_color == old(self).background_color,
            final(self).current_color == old(self).current_color,
            forall|i: int|
                0 <= i < final(self).buffer@.len() ==> final(self).buffer@[i] == old(
                    self,
                ).background_color,
            forall|i: int|
                0 <= i < final(self).zbuffer@.len() ==> final(self).zbuffer@[i] == DEPTH_FAR,
            forall|i: int|
                0 <= i < final(self).emissive_buffer@.len() ==> final(self).emissive_buffer@[i]
                    == 0,
    {
        let n: usize = self.buffer.len();
        self.buffer = filled_u32(n, self.background_color);
        self.zbuffer = filled_i64(n, DEPTH_FAR);
        self.emissive_buffer = filled_u32(n, 0);
    }

    /// Depth-tested color write: stores the color and its depth only when
    /// the incoming depth is strictly nearer than the stored one; silently
    /// ignores coordinates outside the buffer.
    pub fn set_pixel(&mut self, x: i32, y: i32, color: Color, depth: i64)
        requires
            old(self).wf(),
        ensures
            final(self).wf(),
            final(self).width == old(self).width,
            final(self).height == old(self).height,
            final(self).background_color == old(self).background_color,
            final(self).current_color == old(self).current_color,
            final(self).emissive_buffer@ == old(self).emissive_buffer@,
            ({
                let xi = x as int;
                let yi = y as int;
                let w = old(self).width as int;
                let h = old(self).height as int;
                let idx = yi * w + xi;
                if 0 <= xi && xi < w && 0 <= yi && yi < h && depth < old(self).zbuffer@[idx] {
                    &&& final(self).buffer@ == old(self).buffer@.update(idx, color_hex(color) as u32)
                    &&& final(self).zbuffer@ == old(self).zbuffer@.update(idx, depth)
                } else {
                    &&& final(self).buffer@ == old(self).buffer@
                    &&& final(self).zbuffer@ == old(self).zbuffer@
                }
            }),
    {
        if x >= 0 && (x as usize) < self.width && y >= 0 && (y as usize) < self.height {
            proof {
                assert (0 <= (y as int) * (self.width as int) && (y as int) * (self.width as int)
                    + (x as int) < (self.width as int) * (self.height as int))
                    by (nonlinear_arith)
                    requires
                        0 <= (x as int) && (x as int) < self.width as int,
                        0 <= (y as int) && (y as int) < self.height as int,
                ;
            }
            let index: usize = (y as usize) * self.width + (x as usize);
            if self.zbuffer[index] > depth {
                let h: u32 = color.to_hex();
                self.buffer[index] = h;
                self.zbuffer[index] = depth;
            }
        }
    }

    /// Depth-tested write of the current paint color; when `emissive` is
    /// set, the same color is also recorded as emissive light.  Silently
    /// ignores coordinates outside the buffer.
    pub fn point(&mut self, x: usize, y: usize, depth: i64, emissive: bool)
        requires
            old(self).wf(),
        ensures
            final(self).wf(),
            final(self).width == old(self).width,
            final(self).height == old(self).height,
            final(self).background_color == old(self).background_color,
            final(self).current_color == old(self).current_color,
            ({
                let idx = (y as int) * (old(self).width as int) + (x as int);
                if x < old(self).width && y < old(self).height && depth < old(self).zbuffer@[idx] {
                    &&& final(self).buffer@ == old(self).buffer@.update(
                        idx,
                        old(self).current_color,
                    )
                    &&& final(self).zbuffer@ == old(self).zbuffer@.update(idx, depth)
                    &&& final(self).emissive_buffer@ == if emissive {
                        old(self).emissive_buffer@.update(idx, old(self).current_color)
                    } else {
                        old(self).emissive_buffer@
                    }
                } else {
                    &&& final(self).buffer@ == old(self).buffer@
                    &&& final(self).zbuffer@ == old(self).zbuffer@
                    &&& final(self).emissive_buffer@ == old(self).emissive_buffer@
                }
            }),
    {
        if x < self.width && y < self.height {
            proof {
                assert (0 <= (y as int) * (self.width as int) && (y as int) * (self.width as int)
                    + (x as int) < (self.width as int) * (self.height as int))
                    by (nonlinear_arith)
                    requires
                        0 <= (x as int) && (x as int) < self.width as int,
                        0 <= (y as int) && (y as int) < self.height as int,
                ;
            }
            let index: usize = y * self.width + x;
            if self.zbuffer[index] > depth {
                let c: u32 = self.current_color;
                self.buffer[index] = c;
                if emissive {
                    self.emissive_buffer[index] = c;
                }
                self.zbuffer[index] = depth;
            }
        }
    }

    /// Sets the color that `clear` paints the whole buffer with.
    pub fn set_background_color(&mut self, color: u32)
        ensures
            final(self).background_color == color,
            final(self).width == old(self).width,
            final(self).height == old(self).height,
            final(self).current_color == old(self).current_color,
            final(self).buffer == old(self).buffer,
            final(self).zbuffer == old(self).zbuffer,
            final(self).emissive_buffer == old(self).emissive_buffer,
    {
        self.background_color = color;
    }

    /// Sets the paint color used by `point`.
    pub fn set_current_color(&mut self, color: u32)
        ensures
            final(self).current_color == color,
            final(self).width == old(self).width,
            final(self).height == old(self).height,
            final(self).background_color == old(self).background_color,
            final(self).buffer == old(self).buffer,
            final(self).zbuffer == old(self).zbuffer,
            final(self).emissive_buffer == old(self).emissive_buffer,
    {
        self.current_color = color;
    }

    /// Darkens every color pixel toward black by `intensity` in
    /// `[0, FX_ONE]`; depth and emissive light are untouched.
    pub fn apply_overlay(&mut self, intensity: i64)
        requires
            old(self).wf(),
            0 <= intensity <= FX_ONE,
        ensures
            final(self).wf(),
            final(self).width == old(self).width,
            final(self).height == old(self).height,
            final(self).background_color == old(self).background_color,
            final(self).current_color == old(self).current_color,
            final(self).zbuffer@ == old(self).zbuffer@,
            final(self).emissive_buffer@ == old(self).emissive_buffer@,
            final(self).buffer@.len() == old(self).buffer@.len(),
            forall|i: int|
                0 <= i < old(self).buffer@.len() ==> final(self).buffer@[i] == blend_toward_spec(
                    old(self).buffer@[i] as int,
                    0,
                    intensity as int,
                ),
    {
        let n: usize = self.buffer.len();
        let ghost orig = self.buffer@;
        let mut i: usize = 0;
        while i < n
            invariant
                i <= n,
                n == self.buffer@.len(),
                0 <= intensity <= FX_ONE,
                self.width == old(self).width,
                self.height == old(self).height,
                self.background_color == old(self).background_color,
                self.current_color == old(self).current_color,
                self.zbuffer@ == old(self).zbuffer@,
                self.emissive_buffer@ == old(self).emissive_buffer@,
                orig == old(self).buffer@,
                forall|j: int|
                    0 <= j < i ==> self.buffer@[j] == blend_toward_spec(
                        orig[j] as int,
                        0,
                        intensity as int,
                    ),
                forall|j: int| i <= j < n ==> self.buffer@[j] == orig[j],
            decreases n - i,
        {
            let p: u32 = self.buffer[i];
            self.buffer[i] = blend_colors(p, 0x00_0000, intensity);
            i = i + 1;
        }
    }
}

/// The final compositing pass: blends every pixel's emissive light into its
/// color, with per-channel saturation; runs once per frame after all draws.
pub fn post_process(framebuffer: &mut Framebuffer)
    requires
        old(framebuffer).wf(),
    ensures
        final(framebuffer).wf(),
        final(framebuffer).width == old(framebuffer).width,
        final(framebuffer).height == old(framebuffer).height,
        final(framebuffer).background_color == old(framebuffer).background_color,
        final(framebuffer).current_color == old(framebuffer).current_color,
        final(framebuffer).zbuffer@ == old(framebuffer).zbuffer@,
        final(framebuffer).emissive_buffer@ == old(framebuffer).emissive_buffer@,
        final(framebuffer).buffer@.len() == old(framebuffer).buffer@.len(),
        forall|i: int|
            0 <= i < old(framebuffer).buffer@.len() ==> final(framebuffer).buffer@[i]
                == blend_add_spec(
                old(framebuffer).buffer@[i] as int,
                old(framebuffer).emissive_buffer@[i] as int,
            ),
{
    let n: usize = framebuffer.buffer.len();
    let ghost orig = framebuffer.buffer@;
    let mut i: usize = 0;
    while i < n
        invariant
            i <= n,
            n == framebuffer.buffer@.len(),
            framebuffer.width == old(framebuffer).width,
            framebuffer.height == old(framebuffer).height,
            framebuffer.background_color == old(framebuffer).background_color,
            framebuffer.current_color == old(framebuffer).current_color,
            framebuffer.zbuffer@ == old(framebuffer).zbuffer@,
            framebuffer.emissive_buffer@ == old(framebuffer).emissive_buffer@,
            framebuffer.emissive_buffer@.len() == n,
            orig == old(framebuffer).buffer@,
            forall|j: int|
                0 <= j < i ==> framebuffer.buffer@[j] == blend_add_spec(
                    orig[j] as int,
                    framebuffer.emissive_buffer@[j] as int,
                ),
            forall|j: int| i <= j < n ==> framebuffer.buffer@[j] == orig[j],
        decreases n - i,
    {
        let e: u32 = framebuffer.emissive_buffer[i];
        let p: u32 = framebuffer.buffer[i];
        framebuffer.buffer[i] = blend_add(p, e);
        i = i + 1;
    }
}

/// Blending a zero emissive contribution leaves a valid packed color
/// unchanged: the post-process pass is the identity wherever nothing
/// emissive was drawn.
pub proof fn lemma_blend_add_zero(c: u32)
    requires
        c < 0x100_0000,
    ensures
        blend_add_spec(c as int, 0) == c,
{
    lemma_chan_bounds(c as int);
    lemma_pack_chans(c as int);
}

/// The post-process pass is the identity on every frame whose emissive
/// buffer is all zero: blending no light into a valid packed color leaves
/// the whole color buffer unchanged.
pub proof fn lemma_post_process_identity(colors: Seq<u32>, emissive: Seq<u32>)
    requires
        emissive.len() == colors.len(),
        forall|i: int| 0 <= i < colors.len() ==> colors[i] < 0x100_0000,
        forall|i: int| 0 <= i < emissive.len() ==> emissive[i] == 0,
    ensures
        forall|i: int|
            0 <= i < colors.len() ==> blend_add_spec(colors[i] as int, emissive[i] as int)
                == colors[i],
{
    assert forall|i: int|
        0 <= i < colors.len() implies blend_add_spec(colors[i] as int, emissive[i] as int)
        == colors[i] by {
        lemma_blend_add_zero(colors[i]);
    }
}

proof fn lemma_chan_bounds(c: int)
    requires
        0 <= c,
    ensures
        0 <= chan_r(c) < 0x100,
        0 <= chan_g(c) < 0x100,
        0 <= chan_b(c) < 0x100,
{
    lemma_mod_bound(c / 0x1_0000, 0x100);
    lemma_mod_bound(c / 0x100, 0x100);
    lemma_mod_bound(c, 0x100);
}

/// A packed color word below 2^24 is exactly the packing of its channels.
proof fn lemma_pack_chans(c: int)
    requires
        0 <= c < 0x100_0000,
    ensures
        pack_rgb(chan_r(c), chan_g(c), chan_b(c)) == c,
{
    lemma_fundamental_div_mod(c, 0x100);
    lemma_fundamental_div_mod(c / 0x100, 0x100);
    lemma_div_bounds_nonneg(c, 0x100, 0x1_0000);
    lemma_div_bounds_nonneg(c / 0x100, 0x100, 0x100);
    lemma_mod_bound(c / 0x100, 0x100);
    lemma_mod_bound(c, 0x100);
    lemma_div_denominator(c, 0x100, 0x100);
    assert (c / 0x1_0000 == (c / 0x100) / 0x100);
    assert (c / 0x1_0000 < 0x100) by {
        lemma_div_bounds_nonneg(c, 0x1_0000, 0x100);
    };
    lemma_small_mod((c / 0x1_0000) as nat, 0x100nat);
}

/// A nonnegative value below `bound * d` divides by `d` to below `bound`.
proof fn lemma_div_bounds_nonneg(x: int, d: int, bound: int)
    requires
        0 < d,
        0 <= x < bound * d,
    ensures
        0 <= x / d < bound,
{
    lemma_div_pos_is_pos(x, d);
    lemma_fundamental_div_mod(x, d);
    lemma_mod_bound(x, d);
    assert (x / d < bound) by (nonlinear_arith)
        requires
            x == d * (x / d) + x % d,
            0 <= x % d,
            x < bound * d,
            0 < d,
    ;
}

} // verus!

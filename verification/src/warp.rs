//! The warp overlay: a short full-screen brightening that runs for a fixed
//! duration and then completes.

use vstd::prelude::*;
use vstd::arithmetic::div_mod::*;
use crate::fixed::{FX_ONE, fxs_div, fx_div};
use crate::color::{chan_r, chan_g, chan_b, pack_rgb, min_255};
use crate::framebuffer::Framebuffer;
use crate::camera::Camera;

verus! {

/// One warped channel: brightened by `factor` (fixed-point), saturating at
/// 255.
pub open spec fn warp_channel(ch: int, factor: int) -> int {
    min_255((ch * factor) / (FX_ONE as int))
}

/// One pixel with every channel brightened by a fixed-point factor.
pub open spec fn warp_pixel_by_factor(c: int, factor: int) -> int {
    pack_rgb(
        warp_channel(chan_r(c), factor),
        warp_channel(chan_g(c), factor),
        warp_channel(chan_b(c), factor),
    )
}

/// One warped pixel: every channel brightened by `FX_ONE + 2 * progress`.
pub open spec fn warp_pixel_spec(c: int, progress: int) -> int {
    warp_pixel_by_factor(c, (FX_ONE as int) + 2 * progress)
}

/// The warp's progress: elapsed time over duration, saturated at one unit.
pub open spec fn warp_progress_spec(elapsed: int, duration: int) -> int {
    if fxs_div(elapsed, duration) > FX_ONE {
        FX_ONE as int
    } else {
        fxs_div(elapsed, duration)
    }
}

/// Largest elapsed time and time step accepted.
pub const WARP_TIME_MAX: i64 = 0x1000_0000_0000;

/// A full-screen warp that brightens the frame for a fixed duration.
pub struct WarpEffect {
    pub duration: i64,
    pub elapsed_time: i64,
    pub is_complete: bool,
}

fn warped(base: u32, factor: i64) -> (r: u32)
    requires
        FX_ONE <= factor <= 3 * FX_ONE,
    ensures
        r == warp_pixel_by_factor(base as int, factor as int),
        r < 0x100_0000,
{
    let br: u32 = warp_one((base / 0x1_0000) % 0x100, factor);
    let bg: u32 = warp_one((base / 0x100) % 0x100, factor);
    let bb: u32 = warp_one(base % 0x100, factor);
    br * 0x1_0000 + bg * 0x100 + bb
}

fn warp_one(ch: u32, factor: i64) -> (r: u32)
    requires
        ch < 0x100,
        FX_ONE <= factor <= 3 * FX_ONE,
    ensures
        r == warp_channel(ch as int, factor as int),
        r < 0x100,
{
    proof {
        assert (0 <= (ch as int) * (factor as int) <= 0x400_0000) by (nonlinear_arith)
            requires
                ch < 0x100,
                FX_ONE <= factor <= 3 * FX_ONE,
                FX_ONE == 65536,
        ;
    }
    let p: u64 = (ch as u64) * (factor as u64);
    let scaled: u64 = p / 65536;
    proof {
        lemma_div_pos_is_pos(p as int, FX_ONE as int);
    }
    if scaled > 255 {
        255
    } else {
        scaled as u32
    }
}

impl WarpEffect {
    /// A fresh warp: two seconds long, nothing elapsed, not complete.
    pub fn new() -> (w: WarpEffect)
        ensures
            w.duration == 2 * FX_ONE,
            w.elapsed_time == 0,
            w.is_complete == false,
    {
        WarpEffect { duration: 2 * FX_ONE, elapsed_time: 0, is_complete: false }
    }

    /// Advances the warp by a time step and brightens the whole frame by
    /// the current progress; once the duration has elapsed the warp is
    /// complete and later calls change nothing.
    pub fn render(&mut self, framebuffer: &mut Framebuffer, camera: &Camera, delta_time: i64)
        requires
            old(framebuffer).wf(),
            1 <= old(self).duration <= WARP_TIME_MAX,
            0 <= old(self).elapsed_time <= WARP_TIME_MAX,
            0 <= delta_time <= WARP_TIME_MAX,
        ensures
            final(self).duration == old(self).duration,
            final(framebuffer).wf(),
            final(framebuffer).width == old(framebuffer).width,
            final(framebuffer).height == old(framebuffer).height,
            final(framebuffer).background_color == old(framebuffer).background_color,
            final(framebuffer).current_color == old(framebuffer).current_color,
            final(framebuffer).zbuffer@ == old(framebuffer).zbuffer@,
            final(framebuffer).emissive_buffer@ == old(framebuffer).emissive_buffer@,
            final(framebuffer).buffer@.len() == old(framebuffer).buffer@.len(),
            old(self).is_complete ==> *final(self) == *old(self) && final(framebuffer).buffer@
                == old(framebuffer).buffer@,
            !old(self).is_complete ==> {
                &&& final(self).elapsed_time == old(self).elapsed_time + delta_time
                &&& final(self).is_complete == (old(self).elapsed_time + delta_time >= old(
                    self,
                ).duration)
                &&& forall|i: int|
                    0 <= i < old(framebuffer).buffer@.len() ==> final(framebuffer).buffer@[i]
                        == warp_pixel_spec(
                        old(framebuffer).buffer@[i] as int,
                        warp_progress_spec(
                            old(self).elapsed_time + delta_time,
                            old(self).duration as int,
                        ),
                    )
            },
    {
        if self.is_complete {
            return ;
        }
        self.elapsed_time = self.elapsed_time + delta_time;
        let raw: i64 = fx_div(self.elapsed_time, self.duration);
        let progress: i64 = if raw > FX_ONE {
            FX_ONE
        } else {
            raw
        };
        proof {
            lemma_div_pos_is_pos(
                (self.elapsed_time as int) * (FX_ONE as int),
                self.duration as int,
            );
            assert (0 <= (self.elapsed_time as int) * (FX_ONE as int)) by (nonlinear_arith)
                requires
                    0 <= self.elapsed_time,
            ;
        }
        apply_warp_effect(framebuffer, progress);
        if self.elapsed_time >= self.duration {
            self.is_complete = true;
        }
    }

    /// Whether the warp has run its full duration.
    pub fn is_finished(&self) -> (r: bool)
        ensures
            r == self.is_complete,
    {
        self.is_complete
    }
}

/// Brightens every color pixel by `1 + 2 * progress`, saturating per
/// channel; depth and emissive light are untouched.
fn apply_warp_effect(framebuffer: &mut Framebuffer, progress: i64)
    requires
        old(framebuffer).wf(),
        0 <= progress <= FX_ONE,
    ensures
        final(framebuffer).wf(),
        final(framebuffer).width == old(framebuffer).width,
        final(framebuffer).height == old(framebuffer).height,
        final(framebuffer).background_color == old(framebuffer).background_color,
        final(framebuffer).current_color == old(framebuffer).current_color,
        final(framebuffer).zbuffer@ == old(framebuffer).zbuffer@,
        final(framebuffer).emissive_buffer@ == old(framebuffer).emissive_buffer@,
        final(framebuffer).buffer@.len() == old(framebuffer).buffer@.len(),
        forall|i: int|
            0 <= i < old(framebuffer).buffer@.len() ==> final(framebuffer).buffer@[i]
                == warp_pixel_spec(old(framebuffer).buffer@[i] as int, progress as int),
{
    let factor: i64 = FX_ONE + 2 * progress;
    let n: usize = framebuffer.buffer.len();
    let ghost orig = framebuffer.buffer@;
    let mut i: usize = 0;
    while i < n
        invariant
            i <= n,
            n == framebuffer.buffer@.len(),
            FX_ONE <= factor <= 3 * FX_ONE,
            factor == FX_ONE + 2 * progress,
            0 <= progress,
            framebuffer.width == old(framebuffer).width,
            framebuffer.height == old(framebuffer).height,
            framebuffer.background_color == old(framebuffer).background_color,
            framebuffer.current_color == old(framebuffer).current_color,
            framebuffer.zbuffer@ == old(framebuffer).zbuffer@,
            framebuffer.emissive_buffer@ == old(framebuffer).emissive_buffer@,
            orig == old(framebuffer).buffer@,
            forall|j: int|
                0 <= j < i ==> framebuffer.buffer@[j] == warp_pixel_spec(
                    orig[j] as int,
                    progress as int,
                ),
            forall|j: int| i <= j < n ==> framebuffer.buffer@[j] == orig[j],
        decreases n - i,
    {
        let p: u32 = framebuffer.buffer[i];
        framebuffer.buffer[i] = warped(p, factor);
        i = i + 1;
    }
}

} // verus!

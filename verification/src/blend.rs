//! The blend of the composite pass, before gamma correction. A channel `c`
//! stands for the intensity `c / 255`.

use vstd::prelude::*;
use crate::formats::Rgba8;

verus! {

/// The screen blend of two intensities: `src + dst - src * dst`, limited to
/// `[0, 1]`. The product is rounded down to a channel value.
pub open spec fn screen_blended(src: int, dst: int) -> int {
    let sum = src + dst - (src * dst) / 255;
    if sum < 0 {
        0
    } else if sum > 255 {
        255
    } else {
        sum
    }
}

/// The screen blend of two channels is their sum less their product; the
/// limit to `[0, 1]` never cuts it.
pub proof fn lemma_screen_blend_in_range(src: u8, dst: u8)
    ensures
        screen_blended(src as int, dst as int) == src + dst - (src * dst) / 255,
        src <= screen_blended(src as int, dst as int) <= 255,
        dst <= screen_blended(src as int, dst as int),
{
    let s = src as int;
    let d = dst as int;
    assert(s * d <= 255 * d) by (nonlinear_arith)
        requires
            0 <= s <= 255,
            0 <= d,
    ;
    assert(s * d <= s * 255) by (nonlinear_arith)
        requires
            0 <= d <= 255,
            0 <= s,
    ;
    assert(0 <= s * d) by (nonlinear_arith)
        requires
            0 <= d,
            0 <= s,
    ;
    assert((255 - s) * (255 - d) >= 0) by (nonlinear_arith)
        requires
            0 <= s <= 255,
            0 <= d <= 255,
    ;
    assert((255 - s) * (255 - d) == 255 * 255 - 255 * s - 255 * d + s * d) by (nonlinear_arith);
}

/// The screen blend of two channels. Full intensity stays full whatever it
/// is blended with, and black changes nothing.
pub fn screen_blend(src: u8, dst: u8) -> (out: u8)
    ensures
        out == screen_blended(src as int, dst as int),
        src == 255 || dst == 255 ==> out == 255,
        dst == 0 ==> out == src,
        src == 0 ==> out == dst,
        out >= src,
        out >= dst,
{
    proof {
        lemma_screen_blend_in_range(src, dst);
        lemma_screen_blend_full(src);
        lemma_screen_blend_full(dst);
        lemma_screen_blend_identity(src);
        lemma_screen_blend_identity(dst);
    }
    let s: u32 = src as u32;
    let d: u32 = dst as u32;
    assert(s * d <= 255 * 255) by (nonlinear_arith)
        requires
            s <= 255,
            d <= 255,
    ;
    let out: u32 = s + d - (s * d) / 255;
    out as u8
}

/// Black blended with black is black.
pub proof fn lemma_screen_blend_black()
    ensures
        screen_blended(0, 0) == 0,
{
}

/// Full intensity blended with anything is full intensity.
pub proof fn lemma_screen_blend_full(x: u8)
    ensures
        screen_blended(255, x as int) == 255,
        screen_blended(x as int, 255) == 255,
{
    assert(255 * x / 255 == x);
    assert(x * 255 / 255 == x);
}

/// Anything blended with black is itself.
pub proof fn lemma_screen_blend_identity(x: u8)
    ensures
        screen_blended(x as int, 0) == x,
        screen_blended(0, x as int) == x,
{
    assert(x * 0 == 0);
    assert(0 * x == 0);
}

/// The blend does not depend on the order of its arguments.
pub proof fn lemma_screen_blend_symmetric(src: u8, dst: u8)
    ensures
        screen_blended(src as int, dst as int) == screen_blended(dst as int, src as int),
{
    assert(src * dst == dst * src) by (nonlinear_arith);
}

/// How the composite pass combines the scene with the glow.
#[derive(Clone, Copy, Debug, PartialEq, Eq, Structural)]
pub enum BlendMode {
    /// The scene alone.
    Copy,
    /// The screen blend of scene and glow in the colour channels, with an
    /// alpha of one.
    Screen,
}

impl BlendMode {
    /// The colour that the composite pass hands to gamma correction.
    pub open spec fn composited(self, scene: Rgba8, glow: Rgba8) -> Rgba8 {
        match self {
            BlendMode::Copy => scene,
            BlendMode::Screen => Rgba8 {
                r: screen_blended(scene.r as int, glow.r as int) as u8,
                g: screen_blended(scene.g as int, glow.g as int) as u8,
                b: screen_blended(scene.b as int, glow.b as int) as u8,
                a: 255,
            },
        }
    }

    /// Combines a texel of the scene with a texel of the glow.
    pub fn composite(self, scene: Rgba8, glow: Rgba8) -> (out: Rgba8)
        ensures
            out == self.composited(scene, glow),
    {
        match self {
            BlendMode::Copy => scene,
            BlendMode::Screen => Rgba8 {
                r: screen_blend(scene.r, glow.r),
                g: screen_blend(scene.g, glow.g),
                b: screen_blend(scene.b, glow.b),
                a: 255,
            },
        }
    }
}

} // verus!

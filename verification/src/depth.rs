//! The depth codec. A pass that cannot sample a depth attachment reads depth
//! from the colour channels of a texture instead; the codec says how a depth
//! is laid out in the four channels of a texel.
//!
//! A depth is a number of `[0, 1]` in fixed point with 32 fractional bits. The
//! channels of a texel are bytes; here a channel `c` stands for `c / 256`.

use vstd::prelude::*;
use crate::formats::Rgba8;

verus! {

/// The depth 1, the far plane.
pub const ONE: u64 = 0x1_0000_0000;

/// A depth `raw / 2^32`.
#[derive(Clone, Copy, Debug, PartialEq, Eq, Structural)]
pub struct Depth {
    pub raw: u64,
}

/// How a depth is stored in a texel.
#[derive(Clone, Copy, Debug, PartialEq, Eq, Structural)]
pub enum DepthEncoding {
    /// Eight bits of the depth in each channel, the finest in the first.
    Packed,
    /// The eight highest bits of the depth in the first channel.
    Simple,
}

/// The fractional part of `raw / 2^32 * 256^shift`, as a multiple of `2^-32`.
pub open spec fn fract_shifted(raw: int, shift: int) -> int {
    if shift == 0 {
        raw % 0x1_0000_0000
    } else if shift == 1 {
        (raw * 0x100) % 0x1_0000_0000
    } else if shift == 2 {
        (raw * 0x1_0000) % 0x1_0000_0000
    } else {
        (raw * 0x100_0000) % 0x1_0000_0000
    }
}

/// The texel that holds the depth `raw / 2^32`: channel `k` holds the digit
/// of weight `256^k` of `raw` to the base 256.
pub open spec fn packed(raw: int) -> Rgba8 {
    Rgba8 {
        r: (raw % 256) as u8,
        g: (raw / 0x100 % 256) as u8,
        b: (raw / 0x1_0000 % 256) as u8,
        a: (raw / 0x100_0000 % 256) as u8,
    }
}

/// The depth that a texel holds, as a multiple of `2^-32`: the dot product of
/// the channels with `(256^-3, 256^-2, 256^-1, 1)`.
pub open spec fn unpacked(texel: Rgba8) -> int {
    texel.r + 0x100 * texel.g + 0x1_0000 * texel.b + 0x100_0000 * texel.a
}

/// The texel that holds the depth `raw / 2^32` in its first channel alone,
/// with an alpha of one.
pub open spec fn packed_simple(raw: int) -> Rgba8 {
    Rgba8 {
        r: (if raw / 0x100_0000 > 255 {
            255
        } else {
            raw / 0x100_0000
        }) as u8,
        g: 0,
        b: 0,
        a: 255,
    }
}

/// The depth that the first channel of a texel holds, as a multiple of `2^-32`.
pub open spec fn unpacked_simple(texel: Rgba8) -> int {
    0x100_0000 * texel.r
}

/// Packs a depth into the four channels of a texel.
pub fn pack_depth(depth: Depth) -> (texel: Rgba8)
    ensures
        texel == packed(depth.raw as int),
{
    Rgba8 {
        r: (depth.raw % 256) as u8,
        g: (depth.raw / 0x100 % 256) as u8,
        b: (depth.raw / 0x1_0000 % 256) as u8,
        a: (depth.raw / 0x100_0000 % 256) as u8,
    }
}

/// Reads the depth that the four channels of a texel hold.
pub fn unpack_depth(texel: Rgba8) -> (depth: Depth)
    ensures
        depth.raw == unpacked(texel),
        depth.raw < ONE,
{
    let r: u64 = texel.r as u64;
    let g: u64 = texel.g as u64;
    let b: u64 = texel.b as u64;
    let a: u64 = texel.a as u64;
    Depth { raw: r + 0x100 * g + 0x1_0000 * b + 0x100_0000 * a }
}

/// Stores the eight highest bits of a depth in the first channel of a texel.
pub fn pack_depth_simple(depth: Depth) -> (texel: Rgba8)
    ensures
        texel == packed_simple(depth.raw as int),
{
    let high: u64 = depth.raw / 0x100_0000;
    Rgba8 {
        r: if high > 255 {
            255
        } else {
            high as u8
        },
        g: 0,
        b: 0,
        a: 255,
    }
}

/// Reads the depth that the first channel of a texel holds.
pub fn unpack_depth_simple(texel: Rgba8) -> (depth: Depth)
    ensures
        depth.raw == unpacked_simple(texel),
        depth.raw < ONE,
{
    let r: u64 = texel.r as u64;
    Depth { raw: 0x100_0000 * r }
}

impl DepthEncoding {
    /// The texel that holds `raw / 2^32` under the encoding.
    pub open spec fn encoded(self, raw: int) -> Rgba8 {
        match self {
            DepthEncoding::Packed => packed(raw),
            DepthEncoding::Simple => packed_simple(raw),
        }
    }

    /// The depth that the texel holds under the encoding, as a multiple of `2^-32`.
    pub open spec fn decoded(self, texel: Rgba8) -> int {
        match self {
            DepthEncoding::Packed => unpacked(texel),
            DepthEncoding::Simple => unpacked_simple(texel),
        }
    }

    /// Stores a depth in a texel.
    pub fn encode(self, depth: Depth) -> (texel: Rgba8)
        ensures
            texel == self.encoded(depth.raw as int),
    {
        match self {
            DepthEncoding::Packed => pack_depth(depth),
            DepthEncoding::Simple => pack_depth_simple(depth),
        }
    }

    /// Reads a depth from a texel.
    pub fn decode(self, texel: Rgba8) -> (depth: Depth)
        ensures
            depth.raw == self.decoded(texel),
            depth.raw < ONE,
    {
        match self {
            DepthEncoding::Packed => unpack_depth(texel),
            DepthEncoding::Simple => unpack_depth_simple(texel),
        }
    }
}

/// Unpacking undoes packing: every depth below one comes back as it went in.
pub proof fn lemma_unpack_pack(raw: int)
    requires
        0 <= raw < ONE,
    ensures
        unpacked(packed(raw)) == raw,
{
}

/// The far plane does not survive packing: the depth one packs to the texel
/// of the depth zero.
pub proof fn lemma_pack_one()
    ensures
        packed(ONE as int) == packed(0),
        unpacked(packed(ONE as int)) == 0,
{
}

/// Packing undoes unpacking: every texel is the packed form of its depth.
pub proof fn lemma_pack_unpack(texel: Rgba8)
    ensures
        packed(unpacked(texel)) == texel,
{
}

/// The packed texel is what the shader computes: the fractional parts of the
/// depth scaled by `256^3`, `256^2`, `256` and `1`, each but the first less
/// the 256th part of the one before. With channels as multiples of `1 / 256`
/// and fractional parts as multiples of `2^-32`, channel by channel.
#[verifier::rlimit(30)]
pub proof fn lemma_packed_by_fractions(raw: int)
    requires
        0 <= raw <= ONE,
    ensures
        0x100_0000 * packed(raw).r == fract_shifted(raw, 3),
        0x100_0000 * packed(raw).g == fract_shifted(raw, 2) - fract_shifted(raw, 3) / 0x100,
        0x100_0000 * packed(raw).b == fract_shifted(raw, 1) - fract_shifted(raw, 2) / 0x100,
        0x100_0000 * packed(raw).a == fract_shifted(raw, 0) - fract_shifted(raw, 1) / 0x100,
{
    let r = raw as u64;
    assert(0x100_0000 * (r % 256) == (r * 0x100_0000) % 0x1_0000_0000) by (bit_vector)
        requires
            r <= 0x1_0000_0000,
    ;
    assert(0x100_0000 * (r / 0x100 % 256) == (r * 0x1_0000) % 0x1_0000_0000 - (r * 0x100_0000)
        % 0x1_0000_0000 / 0x100) by (bit_vector)
        requires
            r <= 0x1_0000_0000,
    ;
    assert(0x100_0000 * (r / 0x1_0000 % 256) == (r * 0x100) % 0x1_0000_0000 - (r * 0x1_0000)
        % 0x1_0000_0000 / 0x100) by (bit_vector)
        requires
            r <= 0x1_0000_0000,
    ;
    assert(0x100_0000 * (r / 0x100_0000 % 256) == r % 0x1_0000_0000 - (r * 0x100) % 0x1_0000_0000
        / 0x100) by (bit_vector)
        requires
            r <= 0x1_0000_0000,
    ;
}

/// The simple encoding keeps the eight highest bits of a depth below one.
pub proof fn lemma_simple_round_trip(raw: int)
    requires
        0 <= raw < ONE,
    ensures
        unpacked_simple(packed_simple(raw)) == raw - raw % 0x100_0000,
        raw - 0x100_0000 < unpacked_simple(packed_simple(raw)) <= raw,
{
}

} // verus!

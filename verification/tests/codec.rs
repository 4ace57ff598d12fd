use render_passes::depth::{
    pack_depth, pack_depth_simple, unpack_depth, unpack_depth_simple, Depth, DepthEncoding, ONE,
};
use render_passes::formats::Rgba8;

/// A fixed sequence of depths in `[0, 1)`, spread over the whole range.
fn samples(count: usize) -> Vec<Depth> {
    let mut state: u64 = 0x9E37_79B9_7F4A_7C15;
    let mut out = Vec::new();
    for _ in 0..count {
        state = state.wrapping_mul(6364136223846793005).wrapping_add(1442695040888963407);
        out.push(Depth { raw: state >> 32 });
    }
    out
}

#[test]
fn packed_depth_round_trips_on_ten_thousand_samples() {
    for d in samples(10_000) {
        assert!(d.raw < ONE);
        assert_eq!(unpack_depth(pack_depth(d)), d);
    }
}

#[test]
fn packed_depth_round_trip_is_within_the_tolerance_as_a_real_number() {
    for d in samples(10_000) {
        let back = unpack_depth(pack_depth(d));
        let before = d.raw as f64 / ONE as f64;
        let after = back.raw as f64 / ONE as f64;
        assert!((before - after).abs() <= 1e-5);
    }
}

#[test]
fn pack_lays_the_digits_out_finest_first() {
    let texel = pack_depth(Depth { raw: 0x1234_5678 });
    assert_eq!(texel, Rgba8 { r: 0x78, g: 0x56, b: 0x34, a: 0x12 });
    assert_eq!(unpack_depth(texel), Depth { raw: 0x1234_5678 });
}

#[test]
fn pack_of_the_edges() {
    assert_eq!(pack_depth(Depth { raw: 0 }), Rgba8 { r: 0, g: 0, b: 0, a: 0 });
    assert_eq!(pack_depth(Depth { raw: ONE - 1 }), Rgba8 { r: 255, g: 255, b: 255, a: 255 });
    assert_eq!(pack_depth(Depth { raw: ONE / 2 }), Rgba8 { r: 0, g: 0, b: 0, a: 128 });
}

#[test]
fn the_far_plane_packs_to_zero() {
    let texel = pack_depth(Depth { raw: ONE });
    assert_eq!(texel, Rgba8 { r: 0, g: 0, b: 0, a: 0 });
    assert_eq!(unpack_depth(texel), Depth { raw: 0 });
}

#[test]
fn every_texel_is_the_packed_form_of_its_depth() {
    for d in samples(1_000) {
        let texel = Rgba8 {
            r: (d.raw & 0xff) as u8,
            g: ((d.raw >> 7) & 0xff) as u8,
            b: ((d.raw >> 13) & 0xff) as u8,
            a: ((d.raw >> 21) & 0xff) as u8,
        };
        assert_eq!(pack_depth(unpack_depth(texel)), texel);
    }
}

#[test]
fn simple_encoding_keeps_the_high_byte() {
    let texel = pack_depth_simple(Depth { raw: 0x1234_5678 });
    assert_eq!(texel, Rgba8 { r: 0x12, g: 0, b: 0, a: 255 });
    assert_eq!(unpack_depth_simple(texel), Depth { raw: 0x1200_0000 });
    assert_eq!(pack_depth_simple(Depth { raw: ONE }), Rgba8 { r: 255, g: 0, b: 0, a: 255 });
}

#[test]
fn simple_encoding_is_exact_on_multiples_of_a_256th() {
    for high in 0..256u64 {
        let d = Depth { raw: high << 24 };
        assert_eq!(unpack_depth_simple(pack_depth_simple(d)), d);
    }
}

#[test]
fn simple_encoding_is_coarser_than_the_packed_one() {
    for d in samples(1_000) {
        let back = unpack_depth_simple(pack_depth_simple(d));
        assert_eq!(back.raw, d.raw - d.raw % 0x100_0000);
    }
}

#[test]
fn encodings_are_selectable() {
    let d = Depth { raw: 0xCAFE_F00D };
    assert_eq!(DepthEncoding::Packed.encode(d), pack_depth(d));
    assert_eq!(DepthEncoding::Simple.encode(d), pack_depth_simple(d));
    let texel = Rgba8 { r: 1, g: 2, b: 3, a: 4 };
    assert_eq!(DepthEncoding::Packed.decode(texel), unpack_depth(texel));
    assert_eq!(DepthEncoding::Simple.decode(texel), unpack_depth_simple(texel));
    assert_eq!(DepthEncoding::Packed.decode(texel), Depth { raw: 0x0403_0201 });
    assert_eq!(DepthEncoding::Simple.decode(texel), Depth { raw: 0x0100_0000 });
}

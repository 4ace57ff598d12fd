use render_passes::blend::{screen_blend, BlendMode};
use render_passes::formats::Rgba8;

#[test]
fn black_on_black_is_black() {
    assert_eq!(screen_blend(0, 0), 0);
}

#[test]
fn full_intensity_wins() {
    for x in 0..=255u8 {
        assert_eq!(screen_blend(255, x), 255);
        assert_eq!(screen_blend(x, 255), 255);
    }
}

#[test]
fn black_changes_nothing() {
    for x in 0..=255u8 {
        assert_eq!(screen_blend(x, 0), x);
        assert_eq!(screen_blend(0, x), x);
    }
}

#[test]
fn screen_blend_is_sum_less_product() {
    assert_eq!(screen_blend(128, 128) as u32, 128 + 128 - (128 * 128) / 255);
    assert_eq!(screen_blend(128, 128), 192);
    assert_eq!(screen_blend(100, 200), 222);
    assert_eq!(screen_blend(1, 1), 2);
    assert_eq!(screen_blend(254, 254), 255);
}

#[test]
fn screen_blend_is_symmetric_and_never_darkens() {
    for s in 0..=255u8 {
        for d in 0..=255u8 {
            let out = screen_blend(s, d);
            assert_eq!(out, screen_blend(d, s));
            assert!(out >= s && out >= d);
        }
    }
}

#[test]
fn composite_modes() {
    let scene = Rgba8 { r: 100, g: 0, b: 255, a: 7 };
    let glow = Rgba8 { r: 200, g: 50, b: 10, a: 9 };
    assert_eq!(BlendMode::Copy.composite(scene, glow), scene);
    assert_eq!(
        BlendMode::Screen.composite(scene, glow),
        Rgba8 { r: 222, g: 50, b: 255, a: 255 }
    );
}

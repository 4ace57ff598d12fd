use render_passes::blur_shadow_pipe::Radius;
use render_passes::depth::{pack_depth, Depth};
use render_passes::filter::{tap_count, Axis, Image};
use render_passes::formats::Rgba8;

fn grey(v: u8) -> Rgba8 {
    Rgba8 { r: v, g: v, b: v, a: v }
}

fn row_image(values: &[u8]) -> Image {
    Image { rows: vec![values.iter().map(|v| grey(*v)).collect()] }
}

fn column_image(values: &[u8]) -> Image {
    Image { rows: values.iter().map(|v| vec![grey(*v)]).collect() }
}

#[test]
fn depth_blur_of_radius_two_has_four_taps() {
    assert_eq!(tap_count(Radius { raw: 2 * 256 }), 4);
}

#[test]
fn depth_blur_taps_are_capped_at_ten() {
    assert_eq!(tap_count(Radius { raw: 5 * 256 + 128 }), 10);
    assert_eq!(tap_count(Radius { raw: 6 * 256 }), 10);
    assert_eq!(tap_count(Radius { raw: 100 * 256 }), 10);
    assert_eq!(tap_count(Radius { raw: u32::MAX }), 10);
}

#[test]
fn depth_blur_taps_follow_the_whole_texels_of_the_radius() {
    assert_eq!(tap_count(Radius { raw: 0 }), 0);
    assert_eq!(tap_count(Radius { raw: 255 }), 0);
    assert_eq!(tap_count(Radius { raw: 256 }), 2);
    assert_eq!(tap_count(Radius { raw: 3 * 256 + 200 }), 6);
    assert_eq!(tap_count(Radius { raw: 5 * 256 }), 10);
}

#[test]
fn box_blur_keeps_a_black_image() {
    let image = Image::filled(5, 4, grey(0));
    assert_eq!(image.box_blur_pass(Axis::U, 3), image);
    assert_eq!(image.box_blur_pass(Axis::V, 3), image);
    assert_eq!(image.box_blur(3), image);
}

#[test]
fn box_blur_keeps_a_constant_below_the_diameter() {
    let image = Image::filled(4, 3, grey(5));
    assert_eq!(image.box_blur_pass(Axis::U, 3), image);
    assert_eq!(image.box_blur_pass(Axis::V, 3), image);
}

#[test]
fn box_blur_brightens_a_constant_by_the_extra_tap() {
    let image = Image::filled(6, 6, grey(120));
    // seven taps of 120 over a divisor of six
    let once = Image::filled(6, 6, grey(140));
    assert_eq!(image.box_blur_pass(Axis::U, 3), once);
    assert_eq!(image.box_blur_pass(Axis::V, 3), once);
    // and again: seven taps of 140 over six
    assert_eq!(image.box_blur(3), Image::filled(6, 6, grey(163)));
}

#[test]
fn box_blur_is_limited_to_a_channel() {
    let image = Image::filled(3, 3, grey(250));
    assert_eq!(image.box_blur_pass(Axis::U, 3), Image::filled(3, 3, grey(255)));
    let image = Image::filled(3, 3, grey(255));
    assert_eq!(image.box_blur_pass(Axis::V, 1), Image::filled(3, 3, grey(255)));
}

#[test]
fn box_blur_sums_the_taps_along_its_axis() {
    // radius 1: three taps over a divisor of two, edges repeated
    let row = row_image(&[0, 60, 0, 0, 20]);
    assert_eq!(row.box_blur_pass(Axis::U, 1), row_image(&[30, 30, 30, 10, 20]));
    // across the only row every tap reads the same texel
    assert_eq!(row.box_blur_pass(Axis::V, 1), row_image(&[0, 90, 0, 0, 30]));
    let column = column_image(&[0, 60, 0, 0, 20]);
    assert_eq!(column.box_blur_pass(Axis::V, 1), column_image(&[30, 30, 30, 10, 20]));
    assert_eq!(column.box_blur_pass(Axis::U, 1), column_image(&[0, 90, 0, 0, 30]));
}

#[test]
fn box_blur_of_default_radius_takes_seven_taps() {
    let row = row_image(&[0, 0, 0, 60, 0, 0, 0, 0, 0]);
    // the lit texel reaches three texels to either side, at a sixth each
    assert_eq!(row.box_blur_pass(Axis::U, 3), row_image(&[10, 10, 10, 10, 10, 10, 10, 0, 0]));
}

#[test]
fn box_blur_channels_are_independent() {
    let image = Image {
        rows: vec![vec![
            Rgba8 { r: 60, g: 0, b: 0, a: 255 },
            Rgba8 { r: 0, g: 60, b: 0, a: 255 },
            Rgba8 { r: 0, g: 0, b: 60, a: 255 },
        ]],
    };
    let out = image.box_blur_pass(Axis::U, 1);
    assert_eq!(
        out.rows[0],
        vec![
            Rgba8 { r: 60, g: 30, b: 0, a: 255 },
            Rgba8 { r: 30, g: 30, b: 30, a: 255 },
            Rgba8 { r: 0, g: 30, b: 60, a: 255 },
        ]
    );
}

#[test]
fn depth_blur_keeps_a_constant_depth() {
    let texel = pack_depth(Depth { raw: 0x8765_4321 });
    let image = Image::filled(7, 5, texel);
    let radius = Radius { raw: 2 * 256 };
    assert_eq!(image.depth_blur_pass(Axis::U, radius), image);
    assert_eq!(image.depth_blur_pass(Axis::V, radius), image);
    assert_eq!(image.depth_blur(radius), image);
    let wide = Radius { raw: 5 * 256 + 128 };
    assert_eq!(image.depth_blur(wide), image);
}

#[test]
fn depth_blur_averages_depths_not_channels() {
    // depths 0x0000_0100 and 0x0000_0000 alternate: channel g is 1 or 0
    let near = pack_depth(Depth { raw: 0 });
    let far = pack_depth(Depth { raw: 0x100 });
    let image = Image { rows: vec![vec![near, far, near, far, near, far]] };
    // radius 1: the taps at -1 and 0, averaged
    let out = image.depth_blur_pass(Axis::U, Radius { raw: 256 });
    let half = pack_depth(Depth { raw: 0x80 });
    assert_eq!(half, Rgba8 { r: 0x80, g: 0, b: 0, a: 0 });
    assert_eq!(out.rows[0], vec![near, half, half, half, half, half]);
}

#[test]
fn depth_blur_of_radius_two_reads_two_back_and_one_ahead() {
    let d = |raw: u64| pack_depth(Depth { raw });
    let image = Image { rows: vec![vec![d(0), d(400), d(800), d(1200), d(1600)]] };
    let out = image.depth_blur_pass(Axis::U, Radius { raw: 512 });
    // at x the taps are x-2, x-1, x, x+1, with the edges repeated
    assert_eq!(
        out.rows[0],
        vec![d(100), d(300), d(600), d(1000), d(1300)]
    );
}

#[test]
fn image_accessors() {
    let image = Image::filled(3, 2, grey(9));
    assert_eq!(image.width(), 3);
    assert_eq!(image.height(), 2);
    assert_eq!(image.get(2, 1), grey(9));
}

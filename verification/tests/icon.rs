use ferrolite_app::icon::icon_rgba;

fn px_at(buf: &[u8], px: u32, x: u32, y: u32) -> [u8; 4] {
    let i = ((y * px + x) * 4) as usize;
    [buf[i], buf[i + 1], buf[i + 2], buf[i + 3]]
}

#[test]
fn rgba_buffer_has_correct_length() {
    assert_eq!(icon_rgba(64).len(), 64 * 64 * 4);
    assert_eq!(icon_rgba(32).len(), 32 * 32 * 4);
}

#[test]
fn f_stem_pixel_is_accent() {
    // 64-space (24,35) is inside the stem; at px=64 that's pixel (24,35).
    let buf = icon_rgba(64);
    let [r, g, b, a] = px_at(&buf, 64, 24, 35);
    assert_eq!([r, g, b], [0x6d, 0x97, 0xb5]);
    assert_eq!(a, 255);
}

#[test]
fn facet_band_pixel_is_brighter_than_accent() {
    // 64-space (24,20): stem within the bright facet band -> blended brighter.
    let buf = icon_rgba(64);
    let [_, _, b, a] = px_at(&buf, 64, 24, 20);
    assert!(b > 0xb5, "facet blue {b} should exceed accent blue 0xb5");
    assert_eq!(a, 255);
}

#[test]
fn tile_interior_outside_f_is_tile_color() {
    // 64-space (40,45): inside tile, outside the F.
    let buf = icon_rgba(64);
    let [r, g, b, a] = px_at(&buf, 64, 40, 45);
    assert_eq!([r, g, b], [0x16, 0x1a, 0x1f]);
    assert_eq!(a, 255);
}

#[test]
fn rounded_corner_is_transparent() {
    // 64-space (4,4): outside the rounded tile corner -> fully transparent.
    let buf = icon_rgba(64);
    let [_, _, _, a] = px_at(&buf, 64, 4, 4);
    assert_eq!(a, 0);
}

#[test]
fn facet_blend_is_exact() {
    // (0x8c*153 + 0x6d*102)/255 etc.: the facet over the accent stem.
    let buf = icon_rgba(64);
    let [r, g, b, a] = px_at(&buf, 64, 24, 20);
    assert_eq!([r, g, b, a], [127, 168, 198, 255]);
}

#[test]
fn tile_edge_pixel_is_half_covered() {
    // At px=64, pixel 1's sub-samples (x = 1.25, 1.75) lie left of the tile
    // edge x = 2 and pixel 2's (2.25, 2.75) right of it, on a row where the
    // edge is straight.
    let buf = icon_rgba(64);
    assert_eq!(px_at(&buf, 64, 1, 30), [0, 0, 0, 0]);
    assert_eq!(px_at(&buf, 64, 2, 30), [0x16, 0x1a, 0x1f, 255]);
    // At px=32 each pixel covers 2 design units: pixel 1 has sub-samples at
    // x = 2.5 and 3.5 (inside) on row 15 (y = 30.5, 31.5).
    let small = icon_rgba(32);
    assert_eq!(px_at(&small, 32, 1, 15)[3], 255);
    assert_eq!(px_at(&small, 32, 0, 15), [0, 0, 0, 0]);
}

#[test]
fn empty_icon_has_no_pixels() {
    assert!(icon_rgba(0).is_empty());
}

//! The app icon (the "faceted F" on a rounded tile) rendered to RGBA8.
//!
//! All geometry lives in a 64x64 design space. A design-space point is kept
//! as an exact fraction `u / d`: for an icon of `px` pixels the sample point
//! of pixel `x`, sub-sample `s` is `(4x + 1 + 2s) * 16 / px`, so every
//! comparison below is done on integers scaled by `d = px`.
use vstd::prelude::*;
use vstd::arithmetic::div_mod::lemma_fundamental_div_mod_converse;

verus! {

/// Channel `k` (0 = red, 1 = green, 2 = blue) of the tile background.
pub open spec fn tile_bg(k: int) -> int {
    if k == 0 { 0x16 } else if k == 1 { 0x1a } else { 0x1f }
}

/// Channel `k` of the accent color the F is painted with.
pub open spec fn accent(k: int) -> int {
    if k == 0 { 0x6d } else if k == 1 { 0x97 } else { 0xb5 }
}

/// Channel `k` of the bright accent laid over the F's top band.
pub open spec fn accent_bright(k: int) -> int {
    if k == 0 { 0x8c } else if k == 1 { 0xb4 } else { 0xd2 }
}

/// Opacity (out of 255) of the bright facet.
pub const FACET_ALPHA: u32 = 153;

/// Whether the point `(u/d, v/d)` lies in the half-open design-space
/// rectangle `[x0, x1) x [y0, y1)`.
pub open spec fn in_rect_spec(u: int, v: int, d: int, x0: int, y0: int, x1: int, y1: int) -> bool {
    u >= x0 * d && u < x1 * d && v >= y0 * d && v < y1 * d
}

/// Whether the point lies on the F: its stem `[20,29)x[16,49)`, top arm
/// `[29,46)x[16,25)` or middle arm `[29,42)x[31,40)`.
pub open spec fn in_f(u: int, v: int, d: int) -> bool {
    in_rect_spec(u, v, d, 20, 16, 29, 49) || in_rect_spec(u, v, d, 29, 16, 46, 25)
        || in_rect_spec(u, v, d, 29, 31, 42, 40)
}

/// Whether the point lies in the bright facet band `[20,46)x[16,25)`.
pub open spec fn in_facet(u: int, v: int, d: int) -> bool {
    in_rect_spec(u, v, d, 20, 16, 46, 25)
}

/// The nearest point of the tile's inner rectangle `[15,49]` (the rounded
/// corners' centers) along one axis, scaled by `d`.
pub open spec fn corner_center(u: int, d: int) -> int {
    if u < 15 * d {
        15 * d
    } else if u > 49 * d {
        49 * d
    } else {
        u
    }
}

/// Whether the point lies on the tile `[2,62)x[2,62)` with corners rounded
/// to radius 13.
pub open spec fn tile_covered_spec(u: int, v: int, d: int) -> bool {
    if u < 2 * d || u >= 62 * d || v < 2 * d || v >= 62 * d {
        false
    } else {
        let dx = u - corner_center(u, d);
        let dy = v - corner_center(v, d);
        dx * dx + dy * dy <= 169 * d * d
    }
}

/// Channel `k` (0..4, alpha last) of the icon at the point; fully
/// transparent (all zero) off the tile. On the tile: the F in the accent
/// color over the tile background, with the bright facet blended over it at
/// `FACET_ALPHA`, opaque.
pub open spec fn sample_spec(u: int, v: int, d: int, k: int) -> int {
    if !tile_covered_spec(u, v, d) {
        0
    } else if k == 3 {
        255
    } else {
        let base = if in_f(u, v, d) { accent(k) } else { tile_bg(k) };
        if in_facet(u, v, d) {
            (accent_bright(k) * 153 + base * 102) / 255
        } else {
            base
        }
    }
}

/// The scaled design-space coordinate of sub-sample `s` (0 or 1) of pixel
/// `x`: `(x + 0.25 + 0.5 s) * 64 / px`, times `px`.
pub open spec fn sub_coord(x: int, s: int) -> int {
    (4 * x + 1 + 2 * s) * 16
}

/// Channel `k` of pixel `(x, y)` of a `px`-pixel icon: the average of its
/// 2x2 sub-samples, rounded down.
pub open spec fn pixel_channel(px: int, x: int, y: int, k: int) -> int {
    (sample_spec(sub_coord(x, 0), sub_coord(y, 0), px, k) + sample_spec(
        sub_coord(x, 1),
        sub_coord(y, 0),
        px,
        k,
    ) + sample_spec(sub_coord(x, 0), sub_coord(y, 1), px, k) + sample_spec(
        sub_coord(x, 1),
        sub_coord(y, 1),
        px,
        k,
    )) / 4
}

/// Byte `i` of the row-major RGBA8 buffer of a `px`-pixel icon.
pub open spec fn icon_byte(px: int, i: int) -> int {
    pixel_channel(px, (i / 4) % px, (i / 4) / px, i % 4)
}

fn in_rect(u: i64, v: i64, d: i64, x0: i64, y0: i64, x1: i64, y1: i64) -> (b: bool)
    requires
        0 <= d <= 32768,
        0 <= x0 <= 64,
        0 <= y0 <= 64,
        0 <= x1 <= 64,
        0 <= y1 <= 64,
    ensures
        b == in_rect_spec(u as int, v as int, d as int, x0 as int, y0 as int, x1 as int, y1 as int),
{
    proof {
        assert(x0 * d <= 64 * 32768) by (nonlinear_arith)
            requires
                0 <= d <= 32768,
                0 <= x0 <= 64,
        ;
        assert(y0 * d <= 64 * 32768) by (nonlinear_arith)
            requires
                0 <= d <= 32768,
                0 <= y0 <= 64,
        ;
        assert(x1 * d <= 64 * 32768) by (nonlinear_arith)
            requires
                0 <= d <= 32768,
                0 <= x1 <= 64,
        ;
        assert(y1 * d <= 64 * 32768) by (nonlinear_arith)
            requires
                0 <= d <= 32768,
                0 <= y1 <= 64,
        ;
        assert(0 <= x0 * d) by (nonlinear_arith)
            requires
                0 <= d,
                0 <= x0,
        ;
        assert(0 <= y0 * d) by (nonlinear_arith)
            requires
                0 <= d,
                0 <= y0,
        ;
        assert(0 <= x1 * d) by (nonlinear_arith)
            requires
                0 <= d,
                0 <= x1,
        ;
        assert(0 <= y1 * d) by (nonlinear_arith)
            requires
                0 <= d,
                0 <= y1,
        ;
    }
    u >= x0 * d && u < x1 * d && v >= y0 * d && v < y1 * d
}

fn corner_center_exec(u: i64, d: i64) -> (c: i64)
    requires
        0 <= d <= 32768,
    ensures
        c == corner_center(u as int, d as int),
{
    if u < 15 * d {
        15 * d
    } else if u > 49 * d {
        49 * d
    } else {
        u
    }
}

fn tile_covered(u: i64, v: i64, d: i64) -> (b: bool)
    requires
        0 <= d <= 32768,
    ensures
        b == tile_covered_spec(u as int, v as int, d as int),
{
    if u < 2 * d || u >= 62 * d || v < 2 * d || v >= 62 * d {
        return false;
    }
    let dx: i64 = u - corner_center_exec(u, d);
    let dy: i64 = v - corner_center_exec(v, d);
    proof {
        assert(-64 * 32768 <= dx <= 64 * 32768);
        assert(-64 * 32768 <= dy <= 64 * 32768);
        assert(0 <= dx * dx <= 0x1_0000_0000_0000) by (nonlinear_arith)
            requires
                -64 * 32768 <= dx <= 64 * 32768,
        ;
        assert(0 <= dy * dy <= 0x1_0000_0000_0000) by (nonlinear_arith)
            requires
                -64 * 32768 <= dy <= 64 * 32768,
        ;
        assert(0 <= d * d <= 32768 * 32768) by (nonlinear_arith)
            requires
                0 <= d <= 32768,
        ;
        assert(169 * d * d == 169 * (d * d)) by (nonlinear_arith);
    }
    dx * dx + dy * dy <= 169 * (d * d)
}

fn tile_bg_exec(k: u32) -> (c: u32)
    requires
        k < 3,
    ensures
        c == tile_bg(k as int),
{
    if k == 0 { 0x16 } else if k == 1 { 0x1a } else { 0x1f }
}

fn accent_exec(k: u32) -> (c: u32)
    requires
        k < 3,
    ensures
        c == accent(k as int),
{
    if k == 0 { 0x6d } else if k == 1 { 0x97 } else { 0xb5 }
}

fn accent_bright_exec(k: u32) -> (c: u32)
    requires
        k < 3,
    ensures
        c == accent_bright(k as int),
{
    if k == 0 { 0x8c } else if k == 1 { 0xb4 } else { 0xd2 }
}

/// Channel `k` of the icon at the scaled point `(u/d, v/d)`.
fn sample(u: i64, v: i64, d: i64, k: u32) -> (c: u32)
    requires
        0 <= d <= 32768,
        k < 4,
    ensures
        c == sample_spec(u as int, v as int, d as int, k as int),
        c <= 255,
{
    if !tile_covered(u, v, d) {
        return 0;
    }
    if k == 3 {
        return 255;
    }
    let on_f = in_rect(u, v, d, 20, 16, 29, 49) || in_rect(u, v, d, 29, 16, 46, 25) || in_rect(
        u,
        v,
        d,
        29,
        31,
        42,
        40,
    );
    let base: u32 = if on_f { accent_exec(k) } else { tile_bg_exec(k) };
    if in_rect(u, v, d, 20, 16, 46, 25) {
        let a: u32 = FACET_ALPHA;
        (accent_bright_exec(k) * a + base * (255 - a)) / 255
    } else {
        base
    }
}

/// `px * px * 4` bytes of row-major RGBA8: the F on its rounded tile,
/// 2x2 supersampled for smooth tile edges.
pub fn icon_rgba(px: u32) -> (buf: Vec<u8>)
    requires
        px * px * 4 <= u32::MAX,
    ensures
        buf@.len() == px * px * 4,
        forall|i: int| 0 <= i < buf@.len() ==> buf@[i] as int == icon_byte(px as int, i),
{
    proof {
        assert(px <= 32768) by (nonlinear_arith)
            requires
                px * px * 4 <= u32::MAX,
        ;
    }
    let d: i64 = px as i64;
    let mut buf: Vec<u8> = Vec::new();
    let mut y: u32 = 0;
    while y < px
        invariant
            px <= 32768,
            d == px,
            y <= px,
            buf@.len() == 4 * (y * px),
            forall|i: int| 0 <= i < buf@.len() ==> buf@[i] as int == icon_byte(px as int, i),
        decreases px - y,
    {
        let mut x: u32 = 0;
        while x < px
            invariant
                px <= 32768,
                d == px,
                y < px,
                x <= px,
                buf@.len() == 4 * (y * px + x),
                forall|i: int| 0 <= i < buf@.len() ==> buf@[i] as int == icon_byte(px as int, i),
            decreases px - x,
        {
            let u0: i64 = (4 * x as i64 + 1) * 16;
            let u1: i64 = (4 * x as i64 + 3) * 16;
            let v0: i64 = (4 * y as i64 + 1) * 16;
            let v1: i64 = (4 * y as i64 + 3) * 16;
            let ghost p: int = y * px + x;
            proof {
                assert(y * px + x < px * px) by (nonlinear_arith)
                    requires
                        y < px,
                        x < px,
                ;
                lemma_fundamental_div_mod_converse(p, px as int, y as int, x as int);
            }
            let mut k: u32 = 0;
            while k < 4
                invariant
                    px <= 32768,
                    d == px,
                    y < px,
                    x < px,
                    k <= 4,
                    p == y * px + x,
                    p % (px as int) == x,
                    p / (px as int) == y,
                    u0 == sub_coord(x as int, 0),
                    u1 == sub_coord(x as int, 1),
                    v0 == sub_coord(y as int, 0),
                    v1 == sub_coord(y as int, 1),
                    buf@.len() == 4 * p + k,
                    forall|i: int| 0 <= i < buf@.len() ==> buf@[i] as int == icon_byte(px as int, i),
                decreases 4 - k,
            {
                let acc: u32 = sample(u0, v0, d, k) + sample(u1, v0, d, k) + sample(u0, v1, d, k)
                    + sample(u1, v1, d, k);
                proof {
                    let i = 4 * p + k;
                    lemma_fundamental_div_mod_converse(i, 4, p, k as int);
                }
                buf.push((acc / 4) as u8);
                k = k + 1;
            }
            x = x + 1;
        }
        proof {
            assert((y + 1) * px == y * px + px) by (nonlinear_arith);
        }
        y = y + 1;
    }
    buf
}

/// Channel `k` of pixel `(x, y)` of the icon sits at byte
/// `4 * (y * px + x) + k` of `icon_rgba(px)`.
pub proof fn lemma_icon_pixel_layout(px: int, x: int, y: int, k: int)
    requires
        0 <= x < px,
        0 <= y < px,
        0 <= k < 4,
    ensures
        icon_byte(px, 4 * (y * px + x) + k) == pixel_channel(px, x, y, k),
{
    lemma_fundamental_div_mod_converse(4 * (y * px + x) + k, 4, y * px + x, k);
    lemma_fundamental_div_mod_converse(y * px + x, px, y, x);
}

/// The F's stem below the facet band, `[20,29) x [25,49)`, and its middle
/// arm `[29,42) x [31,40)` are painted opaque in the accent color, at every
/// design-space point of any scale `d`: both lie well inside the tile's
/// rounded rectangle and outside the facet band.
pub proof fn lemma_f_body_is_accent(u: int, v: int, d: int, k: int)
    requires
        d > 0,
        0 <= k < 4,
        (20 * d <= u < 29 * d && 25 * d <= v < 49 * d) || (29 * d <= u < 42 * d && 31 * d <= v
            < 40 * d),
    ensures
        sample_spec(u, v, d, k) == (if k == 3 {
            255
        } else {
            accent(k)
        }),
{
    assert(corner_center(u, d) == u);
    assert(corner_center(v, d) == v);
    assert(0 <= 169 * d * d) by (nonlinear_arith)
        requires
            d > 0,
    ;
}

/// Outside the tile's rectangle `[2,62) x [2,62)` the icon is fully
/// transparent; inside the top band of the F (the facet, over the stem and
/// top arm) each color channel is the bright accent blended at 60% over the
/// accent.
pub proof fn lemma_facet_and_margin(u: int, v: int, d: int, k: int)
    requires
        d > 0,
        0 <= k < 4,
    ensures
        (u < 2 * d || u >= 62 * d || v < 2 * d || v >= 62 * d) ==> sample_spec(u, v, d, k) == 0,
        (20 * d <= u < 46 * d && 16 * d <= v < 25 * d && k < 3) ==> sample_spec(u, v, d, k) == (
        accent_bright(k) * 153 + accent(k) * 102) / 255,
{
    if 20 * d <= u < 46 * d && 16 * d <= v < 25 * d {
        assert(corner_center(u, d) == u);
        assert(corner_center(v, d) == v);
        assert(0 <= 169 * d * d) by (nonlinear_arith)
            requires
                d > 0,
        ;
    }
}

} // verus!

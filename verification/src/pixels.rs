//! Packed pixels: channels, coverage, dimming, cropping and patterns.

use vstd::prelude::*;

use crate::grid::at;
use crate::rect::Rect;

verus! {

/// Marks a pixel that no item has touched on export. No color or pixel of an
/// item, whose top byte is zero, equals it.
pub const EXPORT_SENTINEL: u32 = 0xDEAD_BEEF;

/// The red channel of 0x..RRGGBB.
pub open spec fn red(c: u32) -> u32 {
    (c >> 16) & 0xff
}

/// The green channel of 0x..RRGGBB.
pub open spec fn green(c: u32) -> u32 {
    (c >> 8) & 0xff
}

/// The blue channel of 0x..RRGGBB.
pub open spec fn blue(c: u32) -> u32 {
    c & 0xff
}

/// The alpha channel of 0xAARRGGBB.
pub open spec fn alpha(c: u32) -> u32 {
    (c >> 24) & 0xff
}

/// Three channels as 0x00RRGGBB.
pub open spec fn packed(r: u32, g: u32, b: u32) -> u32 {
    (r << 16) | (g << 8) | b
}

/// Four channels as 0xAARRGGBB.
pub open spec fn packed_alpha(a: u32, r: u32, g: u32, b: u32) -> u32 {
    (a << 24) | (r << 16) | (g << 8) | b
}

/// Channels are bytes.
pub proof fn lemma_channels_are_bytes(c: u32)
    ensures
        red(c) <= 255,
        green(c) <= 255,
        blue(c) <= 255,
        alpha(c) <= 255,
{
    assert(((c >> 16) & 0xff) <= 255 && ((c >> 8) & 0xff) <= 255 && (c & 0xff) <= 255 && ((c >> 24)
        & 0xff) <= 255) by (bit_vector);
}

/// Packing bytes and taking the channels out again gives the bytes back, and
/// leaves the top byte empty.
pub proof fn law_channels_of_packed(r: u32, g: u32, b: u32)
    requires
        r <= 255,
        g <= 255,
        b <= 255,
    ensures
        red(packed(r, g, b)) == r,
        green(packed(r, g, b)) == g,
        blue(packed(r, g, b)) == b,
        alpha(packed(r, g, b)) == 0,
{
    assert((((r << 16) | (g << 8) | b) >> 16) & 0xff == r && (((r << 16) | (g << 8) | b) >> 8) & 0xff
        == g && ((r << 16) | (g << 8) | b) & 0xff == b && (((r << 16) | (g << 8) | b) >> 24) & 0xff
        == 0) by (bit_vector)
        requires
            r <= 255,
            g <= 255,
            b <= 255,
    ;
}

/// Packing four bytes and taking the channels out again gives them back.
pub proof fn law_channels_of_packed_alpha(a: u32, r: u32, g: u32, b: u32)
    requires
        a <= 255,
        r <= 255,
        g <= 255,
        b <= 255,
    ensures
        alpha(packed_alpha(a, r, g, b)) == a,
        red(packed_alpha(a, r, g, b)) == r,
        green(packed_alpha(a, r, g, b)) == g,
        blue(packed_alpha(a, r, g, b)) == b,
{
    assert((((a << 24) | (r << 16) | (g << 8) | b) >> 24) & 0xff == a && (((a << 24) | (r << 16) | (
    g << 8) | b) >> 16) & 0xff == r && (((a << 24) | (r << 16) | (g << 8) | b) >> 8) & 0xff == g && (
    (a << 24) | (r << 16) | (g << 8) | b) & 0xff == b) by (bit_vector)
        requires
            a <= 255,
            r <= 255,
            g <= 255,
            b <= 255,
    ;
}

/// No packed color equals the export sentinel: a drawn pixel never passes for
/// an untouched one.
pub proof fn law_colors_are_not_the_sentinel(r: u32, g: u32, b: u32)
    requires
        r <= 255,
        g <= 255,
        b <= 255,
    ensures
        packed(r, g, b) != EXPORT_SENTINEL,
{
    law_channels_of_packed(r, g, b);
    assert((0xDEAD_BEEFu32 >> 24) & 0xff != 0) by (bit_vector);
}

/// The red channel.
pub fn red_of(c: u32) -> (r: u32)
    ensures
        r == red(c),
        r <= 255,
{
    proof {
        lemma_channels_are_bytes(c);
    }
    (c >> 16) & 0xff
}

/// The green channel.
pub fn green_of(c: u32) -> (r: u32)
    ensures
        r == green(c),
        r <= 255,
{
    proof {
        lemma_channels_are_bytes(c);
    }
    (c >> 8) & 0xff
}

/// The blue channel.
pub fn blue_of(c: u32) -> (r: u32)
    ensures
        r == blue(c),
        r <= 255,
{
    proof {
        lemma_channels_are_bytes(c);
    }
    c & 0xff
}

/// The alpha channel.
pub fn alpha_of(c: u32) -> (r: u32)
    ensures
        r == alpha(c),
        r <= 255,
{
    proof {
        lemma_channels_are_bytes(c);
    }
    (c >> 24) & 0xff
}

/// Three channels as 0x00RRGGBB.
pub fn pack(r: u32, g: u32, b: u32) -> (c: u32)
    ensures
        c == packed(r, g, b),
{
    (r << 16) | (g << 8) | b
}

// ---- Colors ----

/// A color at 55% brightness.
pub open spec fn dimmed(c: u32) -> u32 {
    packed(
        (red(c) * 55 / 100) as u32,
        (green(c) * 55 / 100) as u32,
        (blue(c) * 55 / 100) as u32,
    )
}

/// A color at 55% brightness, channel by channel.
pub fn dim_color(c: u32) -> (d: u32)
    ensures
        d == dimmed(c),
{
    let r: u32 = red_of(c) * 55 / 100;
    let g: u32 = green_of(c) * 55 / 100;
    let b: u32 = blue_of(c) * 55 / 100;
    pack(r, g, b)
}

/// A channel 40 steps brighter, at most 255.
pub open spec fn brighter(v: u32) -> u32 {
    if v + 40 <= 255 {
        (v + 40) as u32
    } else {
        255
    }
}

fn brighten(v: u32) -> (r: u32)
    requires
        v <= 255,
    ensures
        r == brighter(v),
{
    if v + 40 <= 255 {
        v + 40
    } else {
        255
    }
}

/// A slightly lighter color, for a hovered control.
pub fn lighten(c: u32) -> (l: u32)
    ensures
        l == packed(brighter(red(c)), brighter(green(c)), brighter(blue(c))),
{
    pack(brighten(red_of(c)), brighten(green_of(c)), brighten(blue_of(c)))
}

/// The luminance of a color, in thousandths.
pub open spec fn luminance(c: u32) -> int {
    299 * red(c) + 587 * green(c) + 114 * blue(c)
}

/// Black or white, whichever is readable on `bg`: black where the luminance
/// is above 140.
pub fn contrast_text_color(bg: u32) -> (c: u32)
    ensures
        c == (if luminance(bg) > 140_000 {
            0x0000_0000u32
        } else {
            0x00FF_FFFFu32
        }),
{
    let lum: u32 = 299 * red_of(bg) + 587 * green_of(bg) + 114 * blue_of(bg);
    if lum > 140_000 {
        0x0000_0000
    } else {
        0x00FF_FFFF
    }
}

// ---- Hashing for the blur ----

/// The mixer behind the blur's jitter: a fixed function of its inputs that
/// looks random.
pub open spec fn mosaic_mix(seed: u32, x: i64, y: i64, k: u32) -> u64 {
    let a = (seed as u64).wrapping_mul(0x9E37_79B9_7F4A_7C15u64).wrapping_add(x as u64);
    let b = a ^ (a >> 30);
    let c = b.wrapping_mul(0xBF58_476D_1CE4_E5B9u64).wrapping_add(y as u64);
    let d = c ^ (c >> 27);
    let e = d.wrapping_mul(0x94D0_49BB_1331_11EBu64).wrapping_add(k as u64);
    e ^ (e >> 31)
}

/// A 64-bit value derived from the seed and a place. The same inputs always
/// give the same value, so that redrawing does not flicker.
pub fn mosaic_hash(seed: u32, x: i64, y: i64, k: u32) -> (h: u64)
    ensures
        h == mosaic_mix(seed, x, y, k),
{
    let mut h: u64 = seed as u64;
    h = h.wrapping_mul(0x9E37_79B9_7F4A_7C15).wrapping_add(x as u64);
    h = h ^ (h >> 30);
    h = h.wrapping_mul(0xBF58_476D_1CE4_E5B9).wrapping_add(y as u64);
    h = h ^ (h >> 27);
    h = h.wrapping_mul(0x94D0_49BB_1331_11EB).wrapping_add(k as u64);
    h = h ^ (h >> 31);
    h
}

/// A new mosaic's seed from a random value, a running count and the low bits
/// of a clock.
pub fn mix_seed(base: u32, counter: u32, time: u32) -> (s: u32)
    ensures
        s == base ^ counter.wrapping_mul(0x9E37_79B1u32) ^ time,
{
    base ^ counter.wrapping_mul(0x9E37_79B1) ^ time
}

/// While the random value and the clock stand still, different counts give
/// different seeds: the multiplier is odd, so counts are not folded together.
pub proof fn law_seeds_differ(base: u32, time: u32, n: u32, m: u32)
    requires
        base ^ n.wrapping_mul(0x9E37_79B1u32) ^ time == base ^ m.wrapping_mul(0x9E37_79B1u32)
            ^ time,
    ensures
        n == m,
{
    let p = n.wrapping_mul(0x9E37_79B1u32);
    let q = m.wrapping_mul(0x9E37_79B1u32);
    assert(base ^ p ^ time == base ^ q ^ time ==> p == q) by (bit_vector);
    lemma_unscrambled(n);
    lemma_unscrambled(m);
}

/// Multiplying by the inverse of the seed multiplier gives the count back.
proof fn lemma_unscrambled(n: u32)
    ensures
        (n.wrapping_mul(0x9E37_79B1u32) * 244_002_641) % 0x1_0000_0000 == n,
{
    let m = 0x1_0000_0000int;
    let c = 0x9E37_79B1int;
    let d = 244_002_641int;
    let p = n.wrapping_mul(0x9E37_79B1u32) as int;
    assert(p == (n * c) % m);
    vstd::arithmetic::div_mod::lemma_mul_mod_noop_left(n * c, d, m);
    assert((n * c) * d == n * (c * d)) by (nonlinear_arith);
    let over = 150_801_925int;
    assert(c * d == over * m + 1);
    assert(n * (c * d) == m * (n * over) + n) by (nonlinear_arith)
        requires
            c * d == over * m + 1,
    ;
    vstd::arithmetic::div_mod::lemma_fundamental_div_mod_converse(
        n * (c * d),
        m,
        n * over,
        n as int,
    );
}

// ---- Whole buffers ----

/// What becomes of one exported pixel: transparent if untouched, else its
/// color, opaque.
pub open spec fn exported(color: u32, mask: u32) -> (u8, u8, u8, u8) {
    if mask == EXPORT_SENTINEL {
        (0, 0, 0, 0)
    } else {
        (red(color) as u8, green(color) as u8, blue(color) as u8, 255)
    }
}

/// Whether four bytes of `rgba` starting at `4 * i` are the pixel `p`.
pub open spec fn has_pixel(rgba: Seq<u8>, i: int, p: (u8, u8, u8, u8)) -> bool {
    rgba[4 * i] == p.0 && rgba[4 * i + 1] == p.1 && rgba[4 * i + 2] == p.2 && rgba[4 * i + 3] == p.3
}

/// Appends the four bytes of a pixel.
fn push_pixel(rgba: &mut Vec<u8>, p: (u8, u8, u8, u8))
    ensures
        final(rgba)@ == old(rgba)@.push(p.0).push(p.1).push(p.2).push(p.3),
{
    rgba.push(p.0);
    rgba.push(p.1);
    rgba.push(p.2);
    rgba.push(p.3);
}

/// RGBA8 from a color buffer and a coverage buffer. A pixel whose coverage
/// is still the sentinel becomes fully transparent. The shorter buffer
/// decides the length.
pub fn compose_rgba(color: &[u32], mask: &[u32]) -> (rgba: Vec<u8>)
    ensures
        ({
            let n = if color@.len() <= mask@.len() {
                color@.len()
            } else {
                mask@.len()
            };
            &&& rgba@.len() == 4 * n
            &&& forall|i: int|
                #![trigger color@[i]]
                #![trigger mask@[i]]
                0 <= i < n ==> has_pixel(rgba@, i, exported(color@[i], mask@[i]))
        }),
{
    let n: usize = if color.len() <= mask.len() {
        color.len()
    } else {
        mask.len()
    };
    let mut rgba: Vec<u8> = Vec::new();
    let mut i: usize = 0;
    while i < n
        invariant
            i <= n,
            n <= color@.len(),
            n <= mask@.len(),
            rgba@.len() == 4 * i,
            forall|k: int|
                #![trigger color@[k]]
                #![trigger mask@[k]]
                0 <= k < i ==> has_pixel(rgba@, k, exported(color@[k], mask@[k])),
        decreases n - i,
    {
        let c: u32 = color[i];
        let ghost before = rgba@;
        let p: (u8, u8, u8, u8) = if mask[i] == EXPORT_SENTINEL {
            (0, 0, 0, 0)
        } else {
            (red_of(c) as u8, green_of(c) as u8, blue_of(c) as u8, 255)
        };
        push_pixel(&mut rgba, p);
        assert forall|k: int|
            #![trigger color@[k]]
            #![trigger mask@[k]]
            0 <= k < i + 1 implies has_pixel(rgba@, k, exported(color@[k], mask@[k])) by {
            if k < i {
                assert(has_pixel(before, k, exported(color@[k], mask@[k])));
                assert(4 * k + 3 < before.len());
            }
        }
        i += 1;
    }
    rgba
}

/// RGBA8 bytes as 0xAARRGGBB pixels.
pub fn rgba_to_packed_alpha(w: usize, h: usize, rgba: &[u8]) -> (pixels: Vec<u32>)
    requires
        w * h <= usize::MAX,
        4 * (w * h) <= rgba@.len(),
    ensures
        pixels@.len() == w * h,
        forall|i: int|
            0 <= i < w * h ==> #[trigger] pixels@[i] == packed_alpha(
                rgba@[4 * i + 3] as u32,
                rgba@[4 * i] as u32,
                rgba@[4 * i + 1] as u32,
                rgba@[4 * i + 2] as u32,
            ),
{
    let n: usize = w * h;
    let total: usize = rgba.len();
    let mut pixels: Vec<u32> = Vec::new();
    let mut i: usize = 0;
    while i < n
        invariant
            i <= n,
            n == w * h,
            4 * n <= rgba@.len(),
            total == rgba@.len(),
            pixels@.len() == i,
            forall|k: int|
                0 <= k < i ==> #[trigger] pixels@[k] == packed_alpha(
                    rgba@[4 * k + 3] as u32,
                    rgba@[4 * k] as u32,
                    rgba@[4 * k + 1] as u32,
                    rgba@[4 * k + 2] as u32,
                ),
        decreases n - i,
    {
        let j: usize = 4 * i;
        let r: u32 = rgba[j] as u32;
        let g: u32 = rgba[j + 1] as u32;
        let b: u32 = rgba[j + 2] as u32;
        let a: u32 = rgba[j + 3] as u32;
        pixels.push((a << 24) | (r << 16) | (g << 8) | b);
        i += 1;
    }
    pixels
}

/// A picture: RGBA8 bytes, row by row.
#[derive(Debug)]
pub struct Shot {
    pub width: u32,
    pub height: u32,
    pub rgba: Vec<u8>,
}

/// Cuts `r` out of `bright`, a 0x00RRGGBB grid of width `src_width`, as an
/// opaque picture.
pub fn crop_region(bright: &[u32], src_width: usize, r: Rect) -> (shot: Shot)
    requires
        r.ordered(),
        r.x1 <= src_width,
        r.y1 * src_width <= bright@.len(),
        r.x1 - r.x0 <= u32::MAX,
        r.y1 - r.y0 <= u32::MAX,
    ensures
        shot.width == r.x1 - r.x0,
        shot.height == r.y1 - r.y0,
        shot.rgba@.len() == 4 * ((r.x1 - r.x0) * (r.y1 - r.y0)),
        forall|x: int, y: int|
            #![trigger at(src_width as int, x, y)]
            r.holds(x, y) ==> has_pixel(
                shot.rgba@,
                at(r.x1 - r.x0, x - r.x0, y - r.y0),
                exported(bright@[at(src_width as int, x, y)], 0),
            ),
{
    let w: usize = r.x1 - r.x0;
    let ghost hh = r.y1 - r.y0;
    let ghost sw = src_width as int;
    let total: usize = bright.len();
    let mut rgba: Vec<u8> = Vec::new();
    let mut y: usize = r.y0;
    while y < r.y1
        invariant
            r.ordered(),
            r.x1 <= src_width,
            r.y1 * src_width <= bright@.len(),
            total == bright@.len(),
            sw == src_width,
            w == r.x1 - r.x0,
            r.y0 <= y <= r.y1,
            rgba@.len() == 4 * at(w as int, 0, y - r.y0),
            forall|qx: int, qy: int|
                #![trigger at(sw, qx, qy)]
                r.x0 <= qx < r.x1 && r.y0 <= qy < y ==> has_pixel(
                    rgba@,
                    at(w as int, qx - r.x0, qy - r.y0),
                    exported(bright@[at(sw, qx, qy)], 0),
                ),
        decreases r.y1 - y,
    {
        let mut x: usize = r.x0;
        assert(y * sw + sw <= r.y1 * sw) by (nonlinear_arith)
            requires
                y < r.y1,
                0 <= sw,
        ;
        let row: usize = y * src_width;
        while x < r.x1
            invariant
                r.ordered(),
                r.x1 <= src_width,
                row == y * src_width,
                row + src_width <= total,
                total == bright@.len(),
                sw == src_width,
                w == r.x1 - r.x0,
                r.y0 <= y < r.y1,
                r.x0 <= x <= r.x1,
                rgba@.len() == 4 * at(w as int, x - r.x0, y - r.y0),
                forall|qx: int, qy: int|
                    #![trigger at(sw, qx, qy)]
                    (r.x0 <= qx < r.x1 && r.y0 <= qy < y) || (r.x0 <= qx < x && qy == y)
                        ==> has_pixel(
                        rgba@,
                        at(w as int, qx - r.x0, qy - r.y0),
                        exported(bright@[at(sw, qx, qy)], 0),
                    ),
            decreases r.x1 - x,
        {
            let px: u32 = bright[row + x];
            let ghost before = rgba@;
            let ghost cell = at(w as int, x - r.x0, y - r.y0);
            push_pixel(
                &mut rgba,
                (red_of(px) as u8, green_of(px) as u8, blue_of(px) as u8, 255),
            );
            proof {
                assert(at(sw, x as int, y as int) == row + x);
                assert(at(w as int, x + 1 - r.x0, y - r.y0) == cell + 1);
                assert(has_pixel(rgba@, cell, exported(px, 0)));
                assert forall|qx: int, qy: int|
                    #![trigger at(sw, qx, qy)]
                    (r.x0 <= qx < r.x1 && r.y0 <= qy < y) || (r.x0 <= qx < x + 1 && qy
                        == y) implies has_pixel(
                    rgba@,
                    at(w as int, qx - r.x0, qy - r.y0),
                    exported(bright@[at(sw, qx, qy)], 0),
                ) by {
                    if !(qx == x && qy == y) {
                        let c = at(w as int, qx - r.x0, qy - r.y0);
                        assert(has_pixel(before, c, exported(bright@[at(sw, qx, qy)], 0)));
                        assert(0 <= c < cell) by (nonlinear_arith)
                            requires
                                c == (qy - r.y0) * w + (qx - r.x0),
                                cell == (y - r.y0) * w + (x - r.x0),
                                0 <= qx - r.x0 < w,
                                0 <= x - r.x0 < w,
                                0 <= qy - r.y0,
                                qy < y || (qy == y && qx < x),
                        ;
                    }
                }
            }
            x += 1;
        }
        proof {
            assert(at(w as int, w as int, y - r.y0) == at(w as int, 0, y + 1 - r.y0))
                by (nonlinear_arith)
                requires
                    at(w as int, w as int, y - r.y0) == (y - r.y0) * w + w,
                    at(w as int, 0, y + 1 - r.y0) == (y + 1 - r.y0) * w + 0,
            ;
        }
        y += 1;
    }
    proof {
        assert(at(w as int, 0, hh) == w * hh) by (nonlinear_arith)
            requires
                at(w as int, 0, hh) == hh * w + 0,
        ;
    }
    Shot { width: w as u32, height: (r.y1 - r.y0) as u32, rgba }
}

} // verus!

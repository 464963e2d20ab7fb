//! Working on a pixel grid: patterns, dimming, pictures, mosaics and baked
//! strokes.

use vstd::prelude::*;

use crate::annotation::MosaicMode;
use crate::grid::{at, clamp_i, clamped, index_of, lemma_at, lemma_cell};
use crate::pixels::{alpha, alpha_of, dim_color, dimmed, mosaic_hash, mosaic_mix};
use crate::rect::Rect;

verus! {

/// Whether the grid has its `w * h` pixels.
pub open spec fn is_grid(buf: Seq<u32>, w: int, h: int) -> bool {
    0 < w && 0 <= h && buf.len() == w * h && w * h <= usize::MAX
}

/// Whether `new` is the pixel that `pixel` leaves at index `k`: what it
/// returns inside `clip`, the old one where it returns nothing or outside.
pub open spec fn cell_painted<G: Fn(usize, usize, u32) -> Option<u32>>(
    pixel: G,
    w: int,
    clip: Rect,
    k: int,
    old_px: u32,
    new_px: u32,
) -> bool {
    if clip.holds(k % w, k / w) {
        exists|o: Option<u32>| #[trigger]
            call_ensures(pixel, ((k % w) as usize, (k / w) as usize, old_px), o) && new_px
                == match o {
                Some(v) => v,
                None => old_px,
            }
    } else {
        new_px == old_px
    }
}

/// Paints the pixels of `clip`: `pixel` gives each its new value from its
/// place and its old value, or nothing to keep it.
pub fn paint_cells<G: Fn(usize, usize, u32) -> Option<u32>>(
    buf: &mut [u32],
    w: usize,
    h: usize,
    clip: Rect,
    pixel: &G,
)
    requires
        is_grid(old(buf)@, w as int, h as int),
        clip.x1 <= w,
        clip.y1 <= h,
        forall|x: usize, y: usize, p: u32|
            clip.holds(x as int, y as int) ==> call_requires(*pixel, (x, y, p)),
    ensures
        final(buf)@.len() == old(buf)@.len(),
        forall|k: int|
            0 <= k < old(buf)@.len() ==> cell_painted(
                *pixel,
                w as int,
                clip,
                k,
                old(buf)@[k],
                #[trigger] final(buf)@[k],
            ),
{
    let ghost start = buf@;
    let ghost n = buf@.len() as int;
    let mut y: usize = clip.y0;
    while y < clip.y1
        invariant
            is_grid(start, w as int, h as int),
            n == start.len(),
            buf@.len() == n,
            clip.x1 <= w,
            clip.y1 <= h,
            clip.y0 <= y,
            forall|qx: usize, qy: usize, p: u32|
                clip.holds(qx as int, qy as int) ==> call_requires(*pixel, (qx, qy, p)),
            forall|k: int|
                0 <= k < n ==> if k / (w as int) < y {
                    cell_painted(*pixel, w as int, clip, k, start[k], #[trigger] buf@[k])
                } else {
                    buf@[k] == start[k]
                },
        decreases clip.y1 - y,
    {
        let mut x: usize = clip.x0;
        assert forall|k: int| 0 <= k < n && k / (w as int) == y && k % (w as int)
            < x implies cell_painted(*pixel, w as int, clip, k, start[k], #[trigger] buf@[k]) by {}
        while x < clip.x1
            invariant
                is_grid(start, w as int, h as int),
                n == start.len(),
                buf@.len() == n,
                clip.x1 <= w,
                clip.y1 <= h,
                clip.y0 <= y < clip.y1,
                clip.x0 <= x,
                forall|qx: usize, qy: usize, p: u32|
                    clip.holds(qx as int, qy as int) ==> call_requires(*pixel, (qx, qy, p)),
                forall|k: int|
                    0 <= k < n ==> if k / (w as int) < y || (k / (w as int) == y && k % (w as int)
                        < x) {
                        cell_painted(*pixel, w as int, clip, k, start[k], #[trigger] buf@[k])
                    } else {
                        buf@[k] == start[k]
                    },
            decreases clip.x1 - x,
        {
            let j: usize = index_of(w, h, x, y);
            proof {
                lemma_at(w as int, h as int, x as int, y as int);
            }
            let ghost before = buf@;
            let old_px: u32 = buf[j];
            assert(clip.holds(x as int, y as int));
            let o = pixel(x, y, old_px);
            assert(call_ensures(*pixel, (x, y, old_px), o));
            if let Some(v) = o {
                buf[j] = v;
            }
            assert forall|k: int| 0 <= k < n implies if k / (w as int) < y || (k / (w as int) == y
                && k % (w as int) < x + 1) {
                cell_painted(*pixel, w as int, clip, k, start[k], #[trigger] buf@[k])
            } else {
                buf@[k] == start[k]
            } by {
                lemma_cell(w as int, h as int, k);
                if k == j {
                    assert(call_ensures(
                        *pixel,
                        ((k % (w as int)) as usize, (k / (w as int)) as usize, start[k]),
                        o,
                    ));
                } else {
                    assert(buf@[k] == before[k]);
                }
            }
            x += 1;
        }
        assert forall|k: int| 0 <= k < n implies if k / (w as int) < y + 1 {
            cell_painted(*pixel, w as int, clip, k, start[k], #[trigger] buf@[k])
        } else {
            buf@[k] == start[k]
        } by {
            lemma_cell(w as int, h as int, k);
        }
        y += 1;
    }
    assert forall|k: int| 0 <= k < n implies cell_painted(
        *pixel,
        w as int,
        clip,
        k,
        start[k],
        #[trigger] buf@[k],
    ) by {
        lemma_cell(w as int, h as int, k);
    }
}

/// The whole grid.
pub fn whole(w: usize, h: usize) -> (r: Rect)
    ensures
        r == (Rect { x0: 0, y0: 0, x1: w, y1: h }),
{
    Rect { x0: 0, y0: 0, x1: w, y1: h }
}

/// The part of a float extent that lies on the canvas: from the floored low
/// corner to the raised high corner, or nothing.
pub fn clip_extent(lo: (i64, i64), hi: (i64, i64), w: usize, h: usize) -> (clip: Option<Rect>)
    requires
        w <= i64::MAX,
        h <= i64::MAX,
    ensures
        ({
            let x0 = clamped(lo.0 as int, 0, i64::MAX as int);
            let y0 = clamped(lo.1 as int, 0, i64::MAX as int);
            let x1 = clamped(hi.0 as int, i64::MIN as int, w as int);
            let y1 = clamped(hi.1 as int, i64::MIN as int, h as int);
            match clip {
                Some(r) => x0 < x1 && y0 < y1 && r.x0 == x0 && r.y0 == y0 && r.x1 == x1 && r.y1
                    == y1,
                None => x0 >= x1 || y0 >= y1,
            }
        }),
{
    let x0: i64 = clamp_i(lo.0, 0, i64::MAX);
    let y0: i64 = clamp_i(lo.1, 0, i64::MAX);
    let x1: i64 = clamp_i(hi.0, i64::MIN, w as i64);
    let y1: i64 = clamp_i(hi.1, i64::MIN, h as i64);
    if x0 >= x1 || y0 >= y1 {
        None
    } else {
        Some(Rect { x0: x0 as usize, y0: y0 as usize, x1: x1 as usize, y1: y1 as usize })
    }
}

// ---- Patterns ----

/// The transparency checkerboard's colors and cell size.
pub const CHECK_A: u32 = 0x001C_1C1C;

pub const CHECK_B: u32 = 0x0026_2626;

pub const CHECK_SIZE: usize = 10;

/// The checkerboard's color at a pixel.
pub open spec fn check_color(x: int, y: int) -> u32 {
    if (x / 10 + y / 10) % 2 == 0 {
        CHECK_A
    } else {
        CHECK_B
    }
}

/// Lays down the checkerboard that marks transparency.
pub fn paint_checkerboard(buf: &mut [u32], w: usize, h: usize)
    requires
        is_grid(old(buf)@, w as int, h as int),
    ensures
        final(buf)@.len() == old(buf)@.len(),
        forall|k: int|
            0 <= k < old(buf)@.len() ==> #[trigger] final(buf)@[k] == check_color(
                k % (w as int),
                k / (w as int),
            ),
{
    let pixel = |x: usize, y: usize, p: u32| -> (o: Option<u32>)
        requires
            x < w && y < h,
        ensures
            o == Some(check_color(x as int, y as int)),
        {
            let a: usize = x / CHECK_SIZE;
            let b: usize = y / CHECK_SIZE;
            if (a % 2) == (b % 2) {
                Some(CHECK_A)
            } else {
                Some(CHECK_B)
            }
        };
    paint_cells(buf, w, h, whole(w, h), &pixel);
    proof {
        assert forall|k: int| 0 <= k < old(buf)@.len() implies #[trigger] buf@[k] == check_color(
            k % (w as int),
            k / (w as int),
        ) by {
            lemma_cell(w as int, h as int, k);
        }
    }
}

/// Whether the pixel lies inside the guide's rectangle on screen.
pub open spec fn in_guide(g: (i64, i64, i64, i64), x: int, y: int) -> bool {
    let n = crate::annotation::normalized(g);
    n.0 <= x < n.2 && n.1 <= y < n.3
}

/// Dims every pixel outside the guide, as a cue that it will not be exported.
/// `guide` holds the rectangle's two corners on screen; without a guide
/// nothing changes.
pub fn dim_outside_guide(
    buf: &mut [u32],
    w: usize,
    h: usize,
    guide: Option<(i64, i64, i64, i64)>,
)
    requires
        is_grid(old(buf)@, w as int, h as int),
        w <= i64::MAX,
        h <= i64::MAX,
    ensures
        final(buf)@.len() == old(buf)@.len(),
        forall|k: int|
            0 <= k < old(buf)@.len() ==> #[trigger] final(buf)@[k] == match guide {
                Some(g) => if in_guide(g, k % (w as int), k / (w as int)) {
                    old(buf)@[k]
                } else {
                    dimmed(old(buf)@[k])
                },
                None => old(buf)@[k],
            },
{
    if let Some(g) = guide {
        let (gx0, gy0, gx1, gy1) = crate::annotation::rect_norm(g);
        let pixel = |x: usize, y: usize, p: u32| -> (o: Option<u32>)
            requires
                x < w && y < h,
            ensures
                o == (if in_guide(g, x as int, y as int) {
                    None
                } else {
                    Some(dimmed(p))
                }),
            {
                let xi: i64 = x as i64;
                let yi: i64 = y as i64;
                if yi >= gy0 && yi < gy1 && xi >= gx0 && xi < gx1 {
                    None
                } else {
                    Some(dim_color(p))
                }
            };
        paint_cells(buf, w, h, whole(w, h), &pixel);
        proof {
            assert forall|k: int| 0 <= k < old(buf)@.len() implies #[trigger] buf@[k] == (
            if in_guide(g, k % (w as int), k / (w as int)) {
                old(buf)@[k]
            } else {
                dimmed(old(buf)@[k])
            }) by {
                lemma_cell(w as int, h as int, k);
            }
        }
    }
}

// ---- Pictures ----

/// The source pixel at a sampled place: each coordinate clamped into the
/// source.
pub open spec fn source_pixel(pixels: Seq<u32>, sw: int, sh: int, s: (i64, i64)) -> u32 {
    pixels[at(sw, clamped(s.0 as int, 0, sw - 1), clamped(s.1 as int, 0, sh - 1))]
}

/// Reads the source pixel at a sampled place.
fn read_source(pixels: &Vec<u32>, sw: usize, sh: usize, s: (i64, i64)) -> (p: u32)
    requires
        0 < sw <= i64::MAX,
        0 < sh <= i64::MAX,
        pixels@.len() == sw * sh,
    ensures
        p == source_pixel(pixels@, sw as int, sh as int, s),
{
    let total: usize = pixels.len();
    let sx: usize = clamp_i(s.0, 0, sw as i64 - 1) as usize;
    let sy: usize = clamp_i(s.1, 0, sh as i64 - 1) as usize;
    let i: usize = index_of(sw, sh, sx, sy);
    pixels[i]
}

/// Whether `new_px` is what a picture leaves at a pixel: nothing where the
/// sampling misses the picture, else the old pixel blended with the sampled
/// color by the sampled alpha.
pub open spec fn picture_pixel<M, B>(
    sample: M,
    blend: B,
    pixels: Seq<u32>,
    sw: int,
    sh: int,
    x: usize,
    y: usize,
    old_px: u32,
    new_px: u32,
) -> bool where M: Fn(usize, usize) -> Option<(i64, i64)>, B: Fn(u32, u32, u32) -> u32 {
    exists|m: Option<(i64, i64)>| #[trigger]
        call_ensures(sample, (x, y), m) && match m {
            None => new_px == old_px,
            Some(s) => {
                let src = source_pixel(pixels, sw, sh, s);
                call_ensures(blend, (old_px, src & 0x00FF_FFFF, alpha(src)), new_px)
            },
        }
}

/// One pixel of a picture.
fn picture_cell<M, B>(
    pixels: &Vec<u32>,
    sw: usize,
    sh: usize,
    sample: &M,
    blend: &B,
    x: usize,
    y: usize,
    p: u32,
) -> (o: Option<u32>) where
    M: Fn(usize, usize) -> Option<(i64, i64)>,
    B: Fn(u32, u32, u32) -> u32,

    requires
        0 < sw <= i64::MAX,
        0 < sh <= i64::MAX,
        pixels@.len() == sw * sh,
        call_requires(*sample, (x, y)),
        forall|d: u32, c: u32, a: u32| call_requires(*blend, (d, c, a)),
    ensures
        picture_pixel(
            *sample,
            *blend,
            pixels@,
            sw as int,
            sh as int,
            x,
            y,
            p,
            match o {
                Some(v) => v,
                None => p,
            },
        ),
{
    let m = sample(x, y);
    assert(call_ensures(*sample, (x, y), m));
    match m {
        None => None,
        Some(s) => {
            let q: u32 = read_source(pixels, sw, sh, s);
            Some(blend(p, q & 0x00FF_FFFF, alpha_of(q)))
        },
    }
}

/// Draws a picture into `clip`. `sample` carries a screen pixel back to the
/// nearest source place, or tells that it lies outside the rotated picture;
/// `blend` lays a color over a pixel by an alpha of 0 to 255.
pub fn paint_image<M, B>(
    buf: &mut [u32],
    w: usize,
    h: usize,
    clip: Rect,
    src: (usize, usize),
    pixels: &Vec<u32>,
    sample: &M,
    blend: &B,
) where M: Fn(usize, usize) -> Option<(i64, i64)>, B: Fn(u32, u32, u32) -> u32
    requires
        is_grid(old(buf)@, w as int, h as int),
        clip.x1 <= w,
        clip.y1 <= h,
        0 < src.0 <= i64::MAX,
        0 < src.1 <= i64::MAX,
        pixels@.len() == src.0 * src.1,
        forall|x: usize, y: usize| call_requires(*sample, (x, y)),
        forall|d: u32, c: u32, a: u32| call_requires(*blend, (d, c, a)),
    ensures
        final(buf)@.len() == old(buf)@.len(),
        forall|k: int|
            0 <= k < old(buf)@.len() ==> if clip.holds(k % (w as int), k / (w as int)) {
                picture_pixel(
                    *sample,
                    *blend,
                    pixels@,
                    src.0 as int,
                    src.1 as int,
                    (k % (w as int)) as usize,
                    (k / (w as int)) as usize,
                    old(buf)@[k],
                    #[trigger] final(buf)@[k],
                )
            } else {
                final(buf)@[k] == old(buf)@[k]
            },
{
    let (sw, sh) = src;
    let pixel = |x: usize, y: usize, p: u32| -> (o: Option<u32>)
        ensures
            picture_pixel(
                *sample,
                *blend,
                pixels@,
                sw as int,
                sh as int,
                x,
                y,
                p,
                match o {
                    Some(v) => v,
                    None => p,
                },
            ),
        { picture_cell(pixels, sw, sh, sample, blend, x, y, p) };
    paint_cells(buf, w, h, clip, &pixel);
}

/// A new grid whose pixel at each place is what `f` returns for it.
pub fn build_cells<G: Fn(usize, usize) -> u32>(w: usize, h: usize, f: &G) -> (out: Vec<u32>)
    requires
        0 < w,
        w * h <= usize::MAX,
        forall|x: usize, y: usize| x < w && y < h ==> call_requires(*f, (x, y)),
    ensures
        out@.len() == w * h,
        forall|k: int|
            0 <= k < w * h ==> call_ensures(
                *f,
                ((k % (w as int)) as usize, (k / (w as int)) as usize),
                #[trigger] out@[k],
            ),
{
    let n: usize = w * h;
    let mut out: Vec<u32> = Vec::new();
    let mut i: usize = 0;
    while i < n
        invariant
            0 < w,
            n == w * h,
            i <= n,
            forall|x: usize, y: usize| x < w && y < h ==> call_requires(*f, (x, y)),
            out@.len() == i,
            forall|k: int|
                0 <= k < i ==> call_ensures(
                    *f,
                    ((k % (w as int)) as usize, (k / (w as int)) as usize),
                    #[trigger] out@[k],
                ),
        decreases n - i,
    {
        proof {
            lemma_cell(w as int, h as int, i as int);
        }
        out.push(f(i % w, i / w));
        i += 1;
    }
    out
}

// ---- Mosaics ----

/// The pixel a mosaic reads at a sampled place: each coordinate clamped into
/// the mosaic's visible part.
pub open spec fn sampled(old_buf: Seq<u32>, w: int, clip: Rect, s: (i64, i64)) -> u32 {
    old_buf[at(
        w,
        clamped(s.0 as int, clip.x0 as int, clip.x1 - 1),
        clamped(s.1 as int, clip.y0 as int, clip.y1 - 1),
    )]
}

/// Reads the pixel at a sampled place.
fn read_sample(buf: &Vec<u32>, w: usize, h: usize, clip: Rect, s: (i64, i64)) -> (p: u32)
    requires
        is_grid(buf@, w as int, h as int),
        clip.nonempty(),
        clip.x1 <= w <= i64::MAX,
        clip.y1 <= h <= i64::MAX,
    ensures
        p == sampled(buf@, w as int, clip, s),
{
    let sx: usize = clamp_i(s.0, clip.x0 as i64, clip.x1 as i64 - 1) as usize;
    let sy: usize = clamp_i(s.1, clip.y0 as i64, clip.y1 as i64 - 1) as usize;
    let i: usize = index_of(w, h, sx, sy);
    buf[i]
}

/// A copy of the pixels.
pub fn copy_pixels(buf: &[u32]) -> (out: Vec<u32>)
    ensures
        out@ == buf@,
{
    let n: usize = buf.len();
    let mut out: Vec<u32> = Vec::new();
    let mut i: usize = 0;
    while i < n
        invariant
            n == buf@.len(),
            i <= n,
            out@ =~= buf@.take(i as int),
        decreases n - i,
    {
        out.push(buf[i]);
        i += 1;
    }
    assert(buf@.take(n as int) =~= buf@);
    out
}

/// Whether `px` is what a block mosaic shows at a pixel: inside the rotated
/// rectangle the color at its block's center, outside the pixel itself.
pub open spec fn block_pixel<I, C>(
    inside: I,
    center: C,
    old_buf: Seq<u32>,
    w: int,
    clip: Rect,
    x: usize,
    y: usize,
    old_px: u32,
    px: u32,
) -> bool where I: Fn(usize, usize) -> bool, C: Fn(usize, usize) -> (i64, i64) {
    exists|b: bool| #[trigger]
        call_ensures(inside, (x, y), b) && if b {
            exists|s: (i64, i64)| #[trigger]
                call_ensures(center, (x, y), s) && px == sampled(old_buf, w, clip, s)
        } else {
            px == old_px
        }
}

fn block_cell<I, C>(
    inside: &I,
    center: &C,
    snapshot: &Vec<u32>,
    w: usize,
    h: usize,
    clip: Rect,
    x: usize,
    y: usize,
    p: u32,
) -> (o: Option<u32>) where I: Fn(usize, usize) -> bool, C: Fn(usize, usize) -> (i64, i64)
    requires
        is_grid(snapshot@, w as int, h as int),
        clip.nonempty(),
        clip.x1 <= w <= i64::MAX,
        clip.y1 <= h <= i64::MAX,
        call_requires(*inside, (x, y)),
        call_requires(*center, (x, y)),
    ensures
        block_pixel(
            *inside,
            *center,
            snapshot@,
            w as int,
            clip,
            x,
            y,
            p,
            match o {
                Some(v) => v,
                None => p,
            },
        ),
{
    let b: bool = inside(x, y);
    assert(call_ensures(*inside, (x, y), b));
    if b {
        let s = center(x, y);
        assert(call_ensures(*center, (x, y), s));
        Some(read_sample(snapshot, w, h, clip, s))
    } else {
        None
    }
}

/// Draws a block mosaic into `clip`. It overwrites opaquely, and reads only
/// what was there before, never a pixel it has already changed. `inside`
/// tells whether a pixel lies in the rotated rectangle, `center` gives the
/// center of its block.
pub fn paint_pixelate<I, C>(
    buf: &mut [u32],
    w: usize,
    h: usize,
    clip: Rect,
    inside: &I,
    center: &C,
) where I: Fn(usize, usize) -> bool, C: Fn(usize, usize) -> (i64, i64)
    requires
        is_grid(old(buf)@, w as int, h as int),
        clip.nonempty(),
        clip.x1 <= w <= i64::MAX,
        clip.y1 <= h <= i64::MAX,
        forall|x: usize, y: usize| call_requires(*inside, (x, y)),
        forall|x: usize, y: usize| call_requires(*center, (x, y)),
    ensures
        final(buf)@.len() == old(buf)@.len(),
        forall|k: int|
            0 <= k < old(buf)@.len() ==> if clip.holds(k % (w as int), k / (w as int)) {
                block_pixel(
                    *inside,
                    *center,
                    old(buf)@,
                    w as int,
                    clip,
                    (k % (w as int)) as usize,
                    (k / (w as int)) as usize,
                    old(buf)@[k],
                    #[trigger] final(buf)@[k],
                )
            } else {
                final(buf)@[k] == old(buf)@[k]
            },
{
    let snapshot = copy_pixels(buf);
    let pixel = |x: usize, y: usize, p: u32| -> (o: Option<u32>)
        ensures
            block_pixel(
                *inside,
                *center,
                snapshot@,
                w as int,
                clip,
                x,
                y,
                p,
                match o {
                    Some(v) => v,
                    None => p,
                },
            ),
        { block_cell(inside, center, &snapshot, w, h, clip, x, y, p) };
    paint_cells(buf, w, h, clip, &pixel);
}

/// Whether `px` is the scrambled pixel at a place of the blurred part: inside
/// the rotated rectangle a nearby pixel chosen by the place's hash, outside
/// the pixel itself.
pub open spec fn scrambled_pixel<I, J>(
    inside: I,
    jitter: J,
    seed: u32,
    old_buf: Seq<u32>,
    w: int,
    clip: Rect,
    x: usize,
    y: usize,
    px: u32,
) -> bool where I: Fn(usize, usize) -> bool, J: Fn(u64, usize, usize) -> (i64, i64) {
    exists|b: bool| #[trigger]
        call_ensures(inside, (x, y), b) && if b {
            exists|s: (i64, i64)| #[trigger]
                call_ensures(jitter, (mosaic_mix(seed, x as i64, y as i64, 0), x, y), s) && px
                    == sampled(old_buf, w, clip, s)
        } else {
            px == old_buf[at(w, x as int, y as int)]
        }
}

/// Whether `scr` holds the scrambled pixels of `clip`, row by row.
pub open spec fn is_scrambled<I, J>(
    inside: I,
    jitter: J,
    seed: u32,
    old_buf: Seq<u32>,
    w: int,
    clip: Rect,
    scr: Seq<u32>,
) -> bool where I: Fn(usize, usize) -> bool, J: Fn(u64, usize, usize) -> (i64, i64) {
    let bw = clip.x1 - clip.x0;
    &&& scr.len() == bw * (clip.y1 - clip.y0)
    &&& forall|k: int|
        0 <= k < scr.len() ==> scrambled_pixel(
            inside,
            jitter,
            seed,
            old_buf,
            w,
            clip,
            (clip.x0 + k % bw) as usize,
            (clip.y0 + k / bw) as usize,
            #[trigger] scr[k],
        )
}

fn scramble_cell<I, J>(
    inside: &I,
    jitter: &J,
    seed: u32,
    buf: &Vec<u32>,
    w: usize,
    h: usize,
    clip: Rect,
    x: usize,
    y: usize,
) -> (px: u32) where I: Fn(usize, usize) -> bool, J: Fn(u64, usize, usize) -> (i64, i64)
    requires
        is_grid(buf@, w as int, h as int),
        clip.nonempty(),
        clip.x1 <= w <= i64::MAX,
        clip.y1 <= h <= i64::MAX,
        clip.holds(x as int, y as int),
        call_requires(*inside, (x, y)),
        forall|v: u64, a: usize, b: usize| call_requires(*jitter, (v, a, b)),
    ensures
        scrambled_pixel(*inside, *jitter, seed, buf@, w as int, clip, x, y, px),
{
    let b: bool = inside(x, y);
    assert(call_ensures(*inside, (x, y), b));
    if b {
        let v: u64 = mosaic_hash(seed, x as i64, y as i64, 0);
        let s = jitter(v, x, y);
        assert(call_ensures(*jitter, (mosaic_mix(seed, x as i64, y as i64, 0), x, y), s));
        read_sample(buf, w, h, clip, s)
    } else {
        let i: usize = index_of(w, h, x, y);
        buf[i]
    }
}

/// The first stage of the blur: every pixel inside the rotated rectangle is
/// replaced by a nearby one. Even a perfect deblurring of what follows gives
/// back only this.
fn scramble<I, J>(
    inside: &I,
    jitter: &J,
    seed: u32,
    buf: &Vec<u32>,
    w: usize,
    h: usize,
    clip: Rect,
) -> (scr: Vec<u32>) where I: Fn(usize, usize) -> bool, J: Fn(u64, usize, usize) -> (i64, i64)
    requires
        is_grid(buf@, w as int, h as int),
        clip.nonempty(),
        clip.x1 <= w <= i64::MAX,
        clip.y1 <= h <= i64::MAX,
        forall|x: usize, y: usize| call_requires(*inside, (x, y)),
        forall|v: u64, a: usize, b: usize| call_requires(*jitter, (v, a, b)),
    ensures
        is_scrambled(*inside, *jitter, seed, buf@, w as int, clip, scr@),
{
    let bw: usize = clip.x1 - clip.x0;
    let bh: usize = clip.y1 - clip.y0;
    assert(bw * bh <= w * h) by (nonlinear_arith)
        requires
            0 <= bw <= w,
            0 <= bh <= h,
    ;
    let f = |i: usize, j: usize| -> (px: u32)
        requires
            i < bw && j < bh,
        ensures
            scrambled_pixel(
                *inside,
                *jitter,
                seed,
                buf@,
                w as int,
                clip,
                (clip.x0 + i) as usize,
                (clip.y0 + j) as usize,
                px,
            ),
        { scramble_cell(inside, jitter, seed, buf, w, h, clip, clip.x0 + i, clip.y0 + j) };
    let scr = build_cells(bw, bh, &f);
    proof {
        assert forall|k: int| 0 <= k < scr@.len() implies scrambled_pixel(
            *inside,
            *jitter,
            seed,
            buf@,
            w as int,
            clip,
            (clip.x0 + k % (bw as int)) as usize,
            (clip.y0 + k / (bw as int)) as usize,
            #[trigger] scr@[k],
        ) by {
            lemma_cell(bw as int, bh as int, k);
        }
    }
    scr
}

/// The pixels that the horizontal pass mixes at `(i, j)`: its row from
/// `radius` to the left to `radius` to the right, clamped at the ends.
pub open spec fn row_window(src: Seq<u32>, bw: int, radius: int, i: int, j: int) -> Seq<u32> {
    Seq::new(
        (2 * radius + 1) as nat,
        |k: int| src[at(bw, clamped(i + k - radius, 0, bw - 1), j)],
    )
}

/// The pixels that the vertical pass mixes at `(i, j)`.
pub open spec fn col_window(
    src: Seq<u32>,
    bw: int,
    bh: int,
    radius: int,
    i: int,
    j: int,
) -> Seq<u32> {
    Seq::new(
        (2 * radius + 1) as nat,
        |k: int| src[at(bw, i, clamped(j + k - radius, 0, bh - 1))],
    )
}

/// Whether `px` is what `mix` makes of these pixels.
pub open spec fn is_mix<X: Fn(Vec<u32>) -> u32>(mix: X, window: Seq<u32>, px: u32) -> bool {
    exists|v: Vec<u32>| v@ == window && #[trigger] call_ensures(mix, (v,), px)
}

/// Whether `rows` is the horizontal pass over `scr`.
pub open spec fn rows_mixed<X: Fn(Vec<u32>) -> u32>(
    mix: X,
    scr: Seq<u32>,
    bw: int,
    radius: int,
    rows: Seq<u32>,
) -> bool {
    &&& rows.len() == scr.len()
    &&& forall|k: int|
        0 <= k < rows.len() ==> is_mix(
            mix,
            row_window(scr, bw, radius, k % bw, k / bw),
            #[trigger] rows[k],
        )
}

/// Whether `px` is what the blur shows at a pixel: inside the rotated
/// rectangle the vertical mix of the horizontal pass, outside the pixel
/// itself.
pub open spec fn blurred_pixel<I, X>(
    inside: I,
    mix: X,
    rows: Seq<u32>,
    clip: Rect,
    radius: int,
    x: usize,
    y: usize,
    old_px: u32,
    px: u32,
) -> bool where I: Fn(usize, usize) -> bool, X: Fn(Vec<u32>) -> u32 {
    exists|b: bool| #[trigger]
        call_ensures(inside, (x, y), b) && if b {
            is_mix(
                mix,
                col_window(
                    rows,
                    clip.x1 - clip.x0,
                    clip.y1 - clip.y0,
                    radius,
                    x - clip.x0,
                    y - clip.y0,
                ),
                px,
            )
        } else {
            px == old_px
        }
}

/// The widest kernel of the blur.
pub const BLUR_KERNEL_RADIUS_MAX: usize = 128;

/// The longest side that a kernel can be centered on without leaving `i64`.
pub const WIDEST_BLUR: i64 = 0x7FFF_FFFF_FFFF_FEFF;

/// Mixes the pixels of a row around `(i, j)`.
fn mix_row<X: Fn(Vec<u32>) -> u32>(
    src: &Vec<u32>,
    bw: usize,
    bh: usize,
    radius: usize,
    i: usize,
    j: usize,
    mix: &X,
) -> (px: u32)
    requires
        i < bw <= WIDEST_BLUR,
        j < bh,
        bw * bh <= usize::MAX,
        src@.len() == bw * bh,
        radius <= BLUR_KERNEL_RADIUS_MAX,
        forall|v: Vec<u32>| call_requires(*mix, (v,)),
    ensures
        is_mix(*mix, row_window(src@, bw as int, radius as int, i as int, j as int), px),
{
    let mut window: Vec<u32> = Vec::new();
    let mut k: usize = 0;
    let ghost want = row_window(src@, bw as int, radius as int, i as int, j as int);
    while k < 2 * radius + 1
        invariant
            i < bw <= WIDEST_BLUR,
            j < bh,
            bw * bh <= usize::MAX,
            src@.len() == bw * bh,
            radius <= BLUR_KERNEL_RADIUS_MAX,
            k <= 2 * radius + 1,
            want == row_window(src@, bw as int, radius as int, i as int, j as int),
            window@ =~= want.take(k as int),
        decreases 2 * radius + 1 - k,
    {
        let sx: usize = clamp_i(i as i64 + k as i64 - radius as i64, 0, bw as i64 - 1) as usize;
        let p: usize = index_of(bw, bh, sx, j);
        assert(want[k as int] == src@[p as int]);
        window.push(src[p]);
        k += 1;
    }
    assert(window@ =~= want);
    let ghost seen = window;
    let px: u32 = mix(window);
    assert(call_ensures(*mix, (seen,), px));
    px
}

/// Mixes the pixels of a column around `(i, j)`.
fn mix_column<X: Fn(Vec<u32>) -> u32>(
    src: &Vec<u32>,
    bw: usize,
    bh: usize,
    radius: usize,
    i: usize,
    j: usize,
    mix: &X,
) -> (px: u32)
    requires
        i < bw,
        j < bh <= WIDEST_BLUR,
        bw * bh <= usize::MAX,
        src@.len() == bw * bh,
        radius <= BLUR_KERNEL_RADIUS_MAX,
        forall|v: Vec<u32>| call_requires(*mix, (v,)),
    ensures
        is_mix(*mix, col_window(src@, bw as int, bh as int, radius as int, i as int, j as int), px),
{
    let mut window: Vec<u32> = Vec::new();
    let mut k: usize = 0;
    let ghost want = col_window(src@, bw as int, bh as int, radius as int, i as int, j as int);
    while k < 2 * radius + 1
        invariant
            i < bw,
            j < bh <= WIDEST_BLUR,
            bw * bh <= usize::MAX,
            src@.len() == bw * bh,
            radius <= BLUR_KERNEL_RADIUS_MAX,
            k <= 2 * radius + 1,
            want == col_window(src@, bw as int, bh as int, radius as int, i as int, j as int),
            window@ =~= want.take(k as int),
        decreases 2 * radius + 1 - k,
    {
        let sy: usize = clamp_i(j as i64 + k as i64 - radius as i64, 0, bh as i64 - 1) as usize;
        let p: usize = index_of(bw, bh, i, sy);
        assert(want[k as int] == src@[p as int]);
        window.push(src[p]);
        k += 1;
    }
    assert(window@ =~= want);
    let ghost seen = window;
    let px: u32 = mix(window);
    assert(call_ensures(*mix, (seen,), px));
    px
}

fn blur_cell<I, X>(
    inside: &I,
    mix: &X,
    rows: &Vec<u32>,
    clip: Rect,
    radius: usize,
    x: usize,
    y: usize,
    p: u32,
) -> (o: Option<u32>) where I: Fn(usize, usize) -> bool, X: Fn(Vec<u32>) -> u32
    requires
        clip.holds(x as int, y as int),
        clip.y1 <= WIDEST_BLUR,
        (clip.x1 - clip.x0) * (clip.y1 - clip.y0) <= usize::MAX,
        rows@.len() == (clip.x1 - clip.x0) * (clip.y1 - clip.y0),
        radius <= BLUR_KERNEL_RADIUS_MAX,
        call_requires(*inside, (x, y)),
        forall|v: Vec<u32>| call_requires(*mix, (v,)),
    ensures
        blurred_pixel(
            *inside,
            *mix,
            rows@,
            clip,
            radius as int,
            x,
            y,
            p,
            match o {
                Some(v) => v,
                None => p,
            },
        ),
{
    let b: bool = inside(x, y);
    assert(call_ensures(*inside, (x, y), b));
    if b {
        Some(
            mix_column(
                rows,
                clip.x1 - clip.x0,
                clip.y1 - clip.y0,
                radius,
                x - clip.x0,
                y - clip.y0,
                mix,
            ),
        )
    } else {
        None
    }
}

/// Draws a blurring mosaic into `clip`: scrambles the pixels inside the
/// rotated rectangle by a hash of the seed and their place, then mixes rows,
/// then columns, and overwrites opaquely inside the rectangle only. `jitter`
/// turns a hash into a nearby place, `mix` is the weighted mean of
/// `2 * radius + 1` pixels.
pub fn paint_blur<I, J, X>(
    buf: &mut [u32],
    w: usize,
    h: usize,
    clip: Rect,
    seed: u32,
    radius: usize,
    inside: &I,
    jitter: &J,
    mix: &X,
) where
    I: Fn(usize, usize) -> bool,
    J: Fn(u64, usize, usize) -> (i64, i64),
    X: Fn(Vec<u32>) -> u32,

    requires
        is_grid(old(buf)@, w as int, h as int),
        clip.nonempty(),
        clip.x1 <= w <= WIDEST_BLUR,
        clip.y1 <= h <= WIDEST_BLUR,
        radius <= BLUR_KERNEL_RADIUS_MAX,
        forall|x: usize, y: usize| call_requires(*inside, (x, y)),
        forall|v: u64, a: usize, b: usize| call_requires(*jitter, (v, a, b)),
        forall|v: Vec<u32>| call_requires(*mix, (v,)),
    ensures
        final(buf)@.len() == old(buf)@.len(),
        exists|scr: Seq<u32>, rows: Seq<u32>|
            #![trigger rows_mixed(*mix, scr, clip.x1 - clip.x0, radius as int, rows)]
            is_scrambled(*inside, *jitter, seed, old(buf)@, w as int, clip, scr) && rows_mixed(
                *mix,
                scr,
                clip.x1 - clip.x0,
                radius as int,
                rows,
            ) && forall|k: int|
                0 <= k < old(buf)@.len() ==> if clip.holds(k % (w as int), k / (w as int)) {
                    blurred_pixel(
                        *inside,
                        *mix,
                        rows,
                        clip,
                        radius as int,
                        (k % (w as int)) as usize,
                        (k / (w as int)) as usize,
                        old(buf)@[k],
                        #[trigger] final(buf)@[k],
                    )
                } else {
                    final(buf)@[k] == old(buf)@[k]
                },
{
    let snapshot = copy_pixels(buf);
    let bw: usize = clip.x1 - clip.x0;
    let bh: usize = clip.y1 - clip.y0;
    assert(bw * bh <= w * h) by (nonlinear_arith)
        requires
            0 <= bw <= w,
            0 <= bh <= h,
    ;
    let scr = scramble(inside, jitter, seed, &snapshot, w, h, clip);
    let f = |i: usize, j: usize| -> (px: u32)
        requires
            i < bw && j < bh,
        ensures
            is_mix(*mix, row_window(scr@, bw as int, radius as int, i as int, j as int), px),
        { mix_row(&scr, bw, bh, radius, i, j, mix) };
    let rows = build_cells(bw, bh, &f);
    proof {
        assert forall|k: int| 0 <= k < rows@.len() implies is_mix(
            *mix,
            row_window(scr@, bw as int, radius as int, k % (bw as int), k / (bw as int)),
            #[trigger] rows@[k],
        ) by {
            lemma_cell(bw as int, bh as int, k);
        }
        assert(rows_mixed(*mix, scr@, bw as int, radius as int, rows@));
    }
    let pixel = |x: usize, y: usize, p: u32| -> (o: Option<u32>)
        requires
            clip.holds(x as int, y as int),
        ensures
            blurred_pixel(
                *inside,
                *mix,
                rows@,
                clip,
                radius as int,
                x,
                y,
                p,
                match o {
                    Some(v) => v,
                    None => p,
                },
            ),
        { blur_cell(inside, mix, &rows, clip, radius, x, y, p) };
    paint_cells(buf, w, h, clip, &pixel);
}

/// Draws a mosaic in its mode.
pub fn paint_mosaic<I, C, J, X>(
    buf: &mut [u32],
    w: usize,
    h: usize,
    clip: Rect,
    mode: MosaicMode,
    seed: u32,
    radius: usize,
    inside: &I,
    center: &C,
    jitter: &J,
    mix: &X,
) where
    I: Fn(usize, usize) -> bool,
    C: Fn(usize, usize) -> (i64, i64),
    J: Fn(u64, usize, usize) -> (i64, i64),
    X: Fn(Vec<u32>) -> u32,

    requires
        is_grid(old(buf)@, w as int, h as int),
        clip.nonempty(),
        clip.x1 <= w <= WIDEST_BLUR,
        clip.y1 <= h <= WIDEST_BLUR,
        radius <= BLUR_KERNEL_RADIUS_MAX,
        forall|x: usize, y: usize| call_requires(*inside, (x, y)),
        forall|x: usize, y: usize| call_requires(*center, (x, y)),
        forall|v: u64, a: usize, b: usize| call_requires(*jitter, (v, a, b)),
        forall|v: Vec<u32>| call_requires(*mix, (v,)),
    ensures
        final(buf)@.len() == old(buf)@.len(),
        mode == MosaicMode::Pixelate ==> forall|k: int|
            0 <= k < old(buf)@.len() ==> if clip.holds(k % (w as int), k / (w as int)) {
                block_pixel(
                    *inside,
                    *center,
                    old(buf)@,
                    w as int,
                    clip,
                    (k % (w as int)) as usize,
                    (k / (w as int)) as usize,
                    old(buf)@[k],
                    #[trigger] final(buf)@[k],
                )
            } else {
                final(buf)@[k] == old(buf)@[k]
            },
        mode == MosaicMode::Blur ==> exists|scr: Seq<u32>, rows: Seq<u32>|
            #![trigger rows_mixed(*mix, scr, clip.x1 - clip.x0, radius as int, rows)]
            is_scrambled(*inside, *jitter, seed, old(buf)@, w as int, clip, scr) && rows_mixed(
                *mix,
                scr,
                clip.x1 - clip.x0,
                radius as int,
                rows,
            ) && forall|k: int|
                0 <= k < old(buf)@.len() ==> if clip.holds(k % (w as int), k / (w as int)) {
                    blurred_pixel(
                        *inside,
                        *mix,
                        rows,
                        clip,
                        radius as int,
                        (k % (w as int)) as usize,
                        (k / (w as int)) as usize,
                        old(buf)@[k],
                        #[trigger] final(buf)@[k],
                    )
                } else {
                    final(buf)@[k] == old(buf)@[k]
                },
{
    match mode {
        MosaicMode::Pixelate => paint_pixelate(buf, w, h, clip, inside, center),
        MosaicMode::Blur => paint_blur(buf, w, h, clip, seed, radius, inside, jitter, mix),
    }
}

} // verus!

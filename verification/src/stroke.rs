//! Freehand strokes baked into pictures, and pictures merged into one.

use std::rc::Rc;
use vstd::prelude::*;

use crate::annotation::{greater, joined, rect_join, Annotation, Item};
use crate::bake::{clip_extent, is_grid, paint_cells, source_pixel};
use crate::grid::{clamp_i, index_of, lemma_cell};
use crate::measure::{corner_box, points_bbox, points_box, rotated_rect_bbox, Outline};
use crate::paint::{draw_polyline, polyline_ops, PaintOp};

verus! {

// ---- A stroke ----

/// Padding around a stroke: half its thickness and room for smooth edges.
pub open spec fn stroke_pad(thick: int) -> int {
    greater(thick, 1) / 2 + 2
}

/// The picture rectangle of a stroke: near corner, width and height.
pub open spec fn stroke_area(points: Seq<(i64, i64)>, thick: int) -> (int, int, int, int) {
    let b = points_box(points);
    let pad = stroke_pad(thick);
    (
        b.0 - pad,
        b.1 - pad,
        greater((b.2 - b.0) + pad * 2, 1),
        greater((b.3 - b.1) + pad * 2, 1),
    )
}

/// Whether the stroke's picture fits.
pub open spec fn stroke_fits(points: Seq<(i64, i64)>, thick: int) -> bool {
    let (ox, oy, w, h) = stroke_area(points, thick);
    &&& i64::MIN <= ox && ox + w <= i64::MAX
    &&& i64::MIN <= oy && oy + h <= i64::MAX
    &&& w <= i64::MAX && h <= i64::MAX
    &&& w * h <= usize::MAX
    &&& w <= usize::MAX && h <= usize::MAX
}

/// The points relative to the picture's near corner.
pub open spec fn local_points(points: Seq<(i64, i64)>, ox: int, oy: int) -> Seq<(i64, i64)> {
    points.map_values(|p: (i64, i64)| ((p.0 - ox) as i64, (p.1 - oy) as i64))
}

/// A pixel of a stroke drawn in white on black, as the stroke's color with
/// the coverage for alpha.
pub open spec fn inked(cover: u32, color: u32) -> u32 {
    ((cover & 0xff) << 24) | (color & 0x00FF_FFFF)
}

/// The box holds each of its points.
proof fn lemma_points_in_box(points: Seq<(i64, i64)>, i: int)
    requires
        0 <= i < points.len(),
    ensures
        points_box(points).0 <= points[i].0 <= points_box(points).2,
        points_box(points).1 <= points[i].1 <= points_box(points).3,
    decreases points.len(),
{
    if i < points.len() - 1 {
        lemma_points_in_box(points.drop_last(), i);
    }
}

/// Colors the coverage of a stroke.
fn ink(cover: &Vec<u32>, color: u32) -> (out: Vec<u32>)
    ensures
        out@ == cover@.map_values(|c: u32| inked(c, color)),
{
    let mut out: Vec<u32> = Vec::new();
    let mut i: usize = 0;
    while i < cover.len()
        invariant
            i <= cover.len(),
            out@.len() == i,
            forall|k: int| 0 <= k < i ==> #[trigger] out@[k] == inked(cover@[k], color),
        decreases cover.len() - i,
    {
        out.push(((cover[i] & 0xff) << 24) | (color & 0x00FF_FFFF));
        i += 1;
    }
    assert(out@ =~= cover@.map_values(|c: u32| inked(c, color)));
    out
}

/// A freehand stroke as a picture item, so that it can only be moved, scaled
/// and turned as a whole. The stroke is drawn in white on a black grid just
/// large enough for it; its brightness becomes the picture's alpha. `render`
/// draws strokes on a black grid of the given size, `place` turns a
/// coordinate into the item's number type.
pub fn rasterize_freehand<F: Copy, S: Copy, R, P>(
    points: &Vec<(i64, i64)>,
    thick: i64,
    color: u32,
    zero: F,
    place: &P,
    render: &R,
) -> (out: Annotation<F, S>) where R: Fn(usize, usize, Vec<PaintOp>) -> Vec<u32>, P: Fn(i64) -> F
    requires
        points@.len() >= 2,
        stroke_fits(points@, thick as int),
        forall|v: i64| call_requires(*place, (v,)),
        forall|w: usize, h: usize, ops: Vec<PaintOp>| call_requires(*render, (w, h, ops)),
    ensures
        ({
            let (ox, oy, w, h) = stroke_area(points@, thick as int);
            &&& out@ matches Item::Image { r, src_w, src_h, pixels, rot }
            &&& src_w == w && src_h == h && rot == zero
            &&& call_ensures(*place, (ox as i64,), r.0)
            &&& call_ensures(*place, (oy as i64,), r.1)
            &&& call_ensures(*place, ((ox + w) as i64,), r.2)
            &&& call_ensures(*place, ((oy + h) as i64,), r.3)
            &&& exists|ops: Vec<PaintOp>, cover: Vec<u32>| #[trigger]
                call_ensures(*render, (w as usize, h as usize, ops), cover) && ops@
                    == polyline_ops(local_points(points@, ox, oy), thick, 0x00FF_FFFF) && pixels
                    == cover@.map_values(|c: u32| inked(c, color))
        }),
{
    let (x0, y0, x1, y1) = points_bbox(points);
    proof {
        lemma_points_in_box(points@, 0);
    }
    let t: i64 = if thick >= 1 {
        thick
    } else {
        1
    };
    let pad: i64 = t / 2 + 2;
    let ghost (ox_s, oy_s, w_s, h_s) = stroke_area(points@, thick as int);
    assert(pad == stroke_pad(thick as int));
    assert(pad >= 2);
    assert(w_s == (x1 - x0) + pad * 2);
    assert(h_s == (y1 - y0) + pad * 2);
    let ox: i64 = x0 - pad;
    let oy: i64 = y0 - pad;
    let w: i64 = (x1 - x0) + pad * 2;
    let h: i64 = (y1 - y0) + pad * 2;
    let mut local: Vec<(i64, i64)> = Vec::new();
    let mut i: usize = 0;
    while i < points.len()
        invariant
            i <= points.len(),
            (x0, y0, x1, y1) == points_box(points@),
            ox == x0 - pad,
            oy == y0 - pad,
            pad >= 2,
            w == (x1 - x0) + pad * 2,
            h == (y1 - y0) + pad * 2,
            local@.len() == i,
            forall|k: int|
                0 <= k < i ==> #[trigger] local@[k] == (
                    (points@[k].0 - ox) as i64,
                    (points@[k].1 - oy) as i64,
                ),
        decreases points.len() - i,
    {
        proof {
            lemma_points_in_box(points@, i as int);
        }
        let p = points[i];
        local.push((p.0 - ox, p.1 - oy));
        i += 1;
    }
    assert(local@ =~= local_points(points@, ox as int, oy as int));
    let ops = draw_polyline(&local, thick, 0x00FF_FFFF);
    let ghost drawn = ops;
    let cover = render(w as usize, h as usize, ops);
    assert(call_ensures(*render, (w_s as usize, h_s as usize, drawn), cover));
    let pixels = ink(&cover, color);
    Annotation::Image {
        r: (place(ox), place(oy), place(ox + w), place(oy + h)),
        src_w: w,
        src_h: h,
        pixels: Rc::new(pixels),
        rot: zero,
    }
}

// ---- Merging ----

/// The union of the boxes of the pictures among the first `n` items, inside
/// out without any.
pub open spec fn pictures_box<F, S>(
    items: Seq<Item<F, S>>,
    outlines: Seq<Outline>,
    n: int,
) -> (i64, i64, i64, i64)
    decreases n,
{
    if n <= 0 {
        (i64::MAX, i64::MAX, i64::MIN, i64::MIN)
    } else if items[n - 1] is Image {
        joined(pictures_box(items, outlines, n - 1), corner_box(outlines[n - 1].corners@))
    } else {
        pictures_box(items, outlines, n - 1)
    }
}

/// Whether a picture has as many pixels as its size says.
pub open spec fn image_whole<F, S>(a: Item<F, S>) -> bool {
    a matches Item::Image { src_w, src_h, pixels, .. } ==> (src_w > 0 && src_h > 0
        ==> pixels.len() == src_w * src_h)
}

/// Whether `px` is what one item leaves over `prev` at a pixel of the merged
/// picture.
pub open spec fn merge_step<F, S, E, M, O>(
    extent: E,
    sample: M,
    over: O,
    a: Item<F, S>,
    i: usize,
    origin: (i64, i64),
    w: int,
    h: int,
    x: usize,
    y: usize,
    prev: u32,
    px: u32,
) -> bool where
    E: Fn(usize, (i64, i64)) -> Option<((i64, i64), (i64, i64))>,
    M: Fn(usize, (i64, i64), usize, usize) -> Option<(i64, i64)>,
    O: Fn(u32, u32) -> u32,
 {
    match a {
        Item::Image { src_w, src_h, pixels, .. } => if src_w > 0 && src_h > 0 {
            exists|e: Option<((i64, i64), (i64, i64))>| #[trigger]
                call_ensures(extent, (i, origin), e) && match e {
                    None => px == prev,
                    Some((lo, hi)) => if in_extent(lo, hi, w, h, x as int, y as int) {
                        exists|m: Option<(i64, i64)>| #[trigger]
                            call_ensures(sample, (i, origin, x, y), m) && match m {
                                None => px == prev,
                                Some(s) => call_ensures(
                                    over,
                                    (prev, source_pixel(pixels, src_w as int, src_h as int, s)),
                                    px,
                                ),
                            }
                    } else {
                        px == prev
                    },
                }
        } else {
            px == prev
        },
        _ => px == prev,
    }
}

/// Whether a pixel lies in the visible part of a float extent.
pub open spec fn in_extent(
    lo: (i64, i64),
    hi: (i64, i64),
    w: int,
    h: int,
    x: int,
    y: int,
) -> bool {
    lo.0 <= x < hi.0 && lo.1 <= y < hi.1 && 0 <= x < w && 0 <= y < h
}

/// Whether `px` is what the first `n` items leave at a pixel: they are laid
/// over each other in order, on a transparent ground.
pub open spec fn merged_pixel<F, S, E, M, O>(
    extent: E,
    sample: M,
    over: O,
    items: Seq<Item<F, S>>,
    origin: (i64, i64),
    w: int,
    h: int,
    n: int,
    x: usize,
    y: usize,
    px: u32,
) -> bool where
    E: Fn(usize, (i64, i64)) -> Option<((i64, i64), (i64, i64))>,
    M: Fn(usize, (i64, i64), usize, usize) -> Option<(i64, i64)>,
    O: Fn(u32, u32) -> u32,

    decreases n,
{
    if n <= 0 {
        px == 0
    } else {
        exists|prev: u32|
            merged_pixel(extent, sample, over, items, origin, w, h, n - 1, x, y, prev)
                && #[trigger] merge_step(
                extent,
                sample,
                over,
                items[n - 1],
                (n - 1) as usize,
                origin,
                w,
                h,
                x,
                y,
                prev,
                px,
            )
    }
}

/// One more item over what the first `n` leave.
proof fn lemma_merge_next<F, S, E, M, O>(
    extent: E,
    sample: M,
    over: O,
    items: Seq<Item<F, S>>,
    origin: (i64, i64),
    w: int,
    h: int,
    n: int,
    x: usize,
    y: usize,
    prev: u32,
    px: u32,
) where
    E: Fn(usize, (i64, i64)) -> Option<((i64, i64), (i64, i64))>,
    M: Fn(usize, (i64, i64), usize, usize) -> Option<(i64, i64)>,
    O: Fn(u32, u32) -> u32,

    requires
        0 <= n,
        merged_pixel(extent, sample, over, items, origin, w, h, n, x, y, prev),
        merge_step(
            extent,
            sample,
            over,
            items[n],
            n as usize,
            origin,
            w,
            h,
            x,
            y,
            prev,
            px,
        ),
    ensures
        merged_pixel(extent, sample, over, items, origin, w, h, n + 1, x, y, px),
{
    let m = n + 1;
    assert(merge_step(
        extent,
        sample,
        over,
        items[m - 1],
        (m - 1) as usize,
        origin,
        w,
        h,
        x,
        y,
        prev,
        px,
    ));
}

fn merge_cell<M, O>(
    pixels: &Vec<u32>,
    sw: usize,
    sh: usize,
    sample: &M,
    over: &O,
    i: usize,
    origin: (i64, i64),
    x: usize,
    y: usize,
    p: u32,
) -> (o: Option<u32>) where
    M: Fn(usize, (i64, i64), usize, usize) -> Option<(i64, i64)>,
    O: Fn(u32, u32) -> u32,

    requires
        0 < sw <= i64::MAX,
        0 < sh <= i64::MAX,
        pixels@.len() == sw * sh,
        call_requires(*sample, (i, origin, x, y)),
        forall|d: u32, s: u32| call_requires(*over, (d, s)),
    ensures
        exists|m: Option<(i64, i64)>| #[trigger]
            call_ensures(*sample, (i, origin, x, y), m) && match m {
                None => o is None,
                Some(s) => o matches Some(v) && call_ensures(
                    *over,
                    (p, source_pixel(pixels@, sw as int, sh as int, s)),
                    v,
                ),
            },
{
    let total: usize = pixels.len();
    let m = sample(i, origin, x, y);
    assert(call_ensures(*sample, (i, origin, x, y), m));
    match m {
        None => None,
        Some(s) => {
            let sx: usize = clamp_i(s.0, 0, sw as i64 - 1) as usize;
            let sy: usize = clamp_i(s.1, 0, sh as i64 - 1) as usize;
            let j: usize = index_of(sw, sh, sx, sy);
            Some(over(p, pixels[j]))
        },
    }
}

/// Whether a pixel of the merged picture holds what one item leaves over it.
spec fn cell_stepped<F, S, E, M, O>(
    extent: E,
    sample: M,
    over: O,
    a: Item<F, S>,
    i: usize,
    origin: (i64, i64),
    w: int,
    h: int,
    k: int,
    prev: u32,
    px: u32,
) -> bool where
    E: Fn(usize, (i64, i64)) -> Option<((i64, i64), (i64, i64))>,
    M: Fn(usize, (i64, i64), usize, usize) -> Option<(i64, i64)>,
    O: Fn(u32, u32) -> u32,
 {
    merge_step(
        extent,
        sample,
        over,
        a,
        i,
        origin,
        w,
        h,
        (k % w) as usize,
        (k / w) as usize,
        prev,
        px,
    )
}

/// Lays one item over the merged picture.
fn merge_one<F: Copy, S: Copy, E, M, O>(
    out: &mut Vec<u32>,
    w: usize,
    h: usize,
    ann: &Annotation<F, S>,
    i: usize,
    origin: (i64, i64),
    extent: &E,
    sample: &M,
    over: &O,
) where
    E: Fn(usize, (i64, i64)) -> Option<((i64, i64), (i64, i64))>,
    M: Fn(usize, (i64, i64), usize, usize) -> Option<(i64, i64)>,
    O: Fn(u32, u32) -> u32,

    requires
        is_grid(old(out)@, w as int, h as int),
        w <= i64::MAX,
        h <= i64::MAX,
        image_whole(ann@),
        forall|n: usize, g: (i64, i64)| call_requires(*extent, (n, g)),
        forall|n: usize, g: (i64, i64), x: usize, y: usize| call_requires(*sample, (n, g, x, y)),
        forall|d: u32, s: u32| call_requires(*over, (d, s)),
    ensures
        final(out)@.len() == old(out)@.len(),
        forall|k: int|
            0 <= k < old(out)@.len() ==> cell_stepped(
                *extent,
                *sample,
                *over,
                ann@,
                i,
                origin,
                w as int,
                h as int,
                k,
                old(out)@[k],
                #[trigger] final(out)@[k],
            ),
{
    let ghost start = out@;
    if let Annotation::Image { src_w, src_h, pixels, .. } = ann {
        if *src_w > 0 && *src_h > 0 {
            let total: usize = pixels.len();
            let (pw, ph) = (*src_w, *src_h);
            assert(pw * ph == total);
            assert(pw <= usize::MAX && ph <= usize::MAX) by (nonlinear_arith)
                requires
                    pw > 0,
                    ph > 0,
                    pw * ph <= usize::MAX,
            ;
            let sw: usize = pw as usize;
            let sh: usize = ph as usize;
            let e = extent(i, origin);
            assert(call_ensures(*extent, (i, origin), e));
            if let Some((lo, hi)) = e {
                if let Some(clip) = clip_extent(lo, hi, w, h) {
                    let px: &Vec<u32> = &**pixels;
                    let pixel = |x: usize, y: usize, p: u32| -> (o: Option<u32>)
                        ensures
                            exists|m: Option<(i64, i64)>| #[trigger]
                                call_ensures(*sample, (i, origin, x, y), m) && match m {
                                    None => o is None,
                                    Some(s) => o matches Some(v) && call_ensures(
                                        *over,
                                        (p, source_pixel(px@, sw as int, sh as int, s)),
                                        v,
                                    ),
                                },
                        { merge_cell(px, sw, sh, sample, over, i, origin, x, y, p) };
                    paint_cells(out.as_mut_slice(), w, h, clip, &pixel);
                    proof {
                        assert forall|k: int| 0 <= k < start.len() implies cell_stepped(
                            *extent,
                            *sample,
                            *over,
                            ann@,
                            i,
                            origin,
                            w as int,
                            h as int,
                            k,
                            start[k],
                            #[trigger] out@[k],
                        ) by {
                            lemma_cell(w as int, h as int, k);
                            let x = k % (w as int);
                            let y = k / (w as int);
                            assert(in_extent(lo, hi, w as int, h as int, x, y) == clip.holds(x, y));
                        }
                    }
                    return;
                }
            }
        }
    }
    proof {
        assert forall|k: int| 0 <= k < start.len() implies cell_stepped(
            *extent,
            *sample,
            *over,
            ann@,
            i,
            origin,
            w as int,
            h as int,
            k,
            start[k],
            #[trigger] out@[k],
        ) by {
            lemma_cell(w as int, h as int, k);
        }
    }
}

/// A grid of transparent pixels.
fn transparent(n: usize) -> (out: Vec<u32>)
    ensures
        out@.len() == n,
        forall|k: int| 0 <= k < n ==> #[trigger] out@[k] == 0,
{
    let mut out: Vec<u32> = Vec::new();
    let mut i: usize = 0;
    while i < n
        invariant
            i <= n,
            out@.len() == i,
            forall|k: int| 0 <= k < i ==> #[trigger] out@[k] == 0,
        decreases n - i,
    {
        out.push(0);
        i += 1;
    }
    out
}

/// The near corner and the size of the merged picture.
pub open spec fn merged_area(b: (i64, i64, i64, i64)) -> (int, int, int, int) {
    (b.0 as int, b.1 as int, greater(b.2 - b.0, 1), greater(b.3 - b.1, 1))
}

/// Merges pictures, each at its place and angle, into one upright picture
/// that just holds them: later ones over earlier ones, on a transparent
/// ground. `extent` gives the part of the merged picture that an item can
/// reach (or nothing for an item without area), `sample` carries a pixel back
/// to the item's nearest source place, `over` lays one pixel over another by
/// its alpha, and `place` turns a coordinate into the item's number type.
/// Items of other kinds are skipped.
pub fn merge_images<F: Copy, S: Copy, E, M, O, P>(
    items: &Vec<Annotation<F, S>>,
    outlines: &Vec<Outline>,
    zero: F,
    place: &P,
    extent: &E,
    sample: &M,
    over: &O,
) -> (merged: Annotation<F, S>) where
    E: Fn(usize, (i64, i64)) -> Option<((i64, i64), (i64, i64))>,
    M: Fn(usize, (i64, i64), usize, usize) -> Option<(i64, i64)>,
    O: Fn(u32, u32) -> u32,
    P: Fn(i64) -> F,

    requires
        outlines@.len() == items@.len(),
        exists|i: int| 0 <= i < items@.len() && #[trigger] items@[i]@ is Image,
        forall|i: int| 0 <= i < items@.len() ==> image_whole(#[trigger] items@[i]@),
        ({
            let (x, y, w, h) = merged_area(
                pictures_box(
                    crate::annotation::items_of(items@),
                    outlines@,
                    items@.len() as int,
                ),
            );
            x + w <= i64::MAX && y + h <= i64::MAX && w <= i64::MAX && h <= i64::MAX && w * h
                <= usize::MAX && w <= usize::MAX && h <= usize::MAX
        }),
        forall|n: usize, g: (i64, i64)| call_requires(*extent, (n, g)),
        forall|n: usize, g: (i64, i64), x: usize, y: usize| call_requires(*sample, (n, g, x, y)),
        forall|d: u32, s: u32| call_requires(*over, (d, s)),
        forall|v: i64| call_requires(*place, (v,)),
    ensures
        ({
            let views = crate::annotation::items_of(items@);
            let (x, y, w, h) = merged_area(pictures_box(views, outlines@, views.len() as int));
            &&& merged@ matches Item::Image { r, src_w, src_h, pixels, rot }
            &&& src_w == w && src_h == h && rot == zero
            &&& call_ensures(*place, (x as i64,), r.0)
            &&& call_ensures(*place, (y as i64,), r.1)
            &&& call_ensures(*place, ((x + w) as i64,), r.2)
            &&& call_ensures(*place, ((y + h) as i64,), r.3)
            &&& pixels.len() == w * h
            &&& forall|k: int|
                0 <= k < pixels.len() ==> merged_pixel(
                    *extent,
                    *sample,
                    *over,
                    views,
                    (x as i64, y as i64),
                    w,
                    h,
                    views.len() as int,
                    (k % w) as usize,
                    (k / w) as usize,
                    #[trigger] pixels[k],
                )
        }),
{
    let ghost views = crate::annotation::items_of(items@);
    let mut b: (i64, i64, i64, i64) = (i64::MAX, i64::MAX, i64::MIN, i64::MIN);
    let mut i: usize = 0;
    while i < items.len()
        invariant
            i <= items.len(),
            outlines@.len() == items@.len(),
            views == crate::annotation::items_of(items@),
            b == pictures_box(views, outlines@, i as int),
        decreases items.len() - i,
    {
        if let Annotation::Image { .. } = &items[i] {
            b = rect_join(b, rotated_rect_bbox(&outlines[i].corners));
        }
        i += 1;
    }
    proof {
        let p = choose|p: int| 0 <= p < items@.len() && #[trigger] items@[p]@ is Image;
        assert(views[p] is Image);
        lemma_pictures_box(views, outlines@, views.len() as int, p);
    }
    let w: usize = if b.2 > b.0 {
        (b.2 - b.0) as usize
    } else {
        1
    };
    let h: usize = if b.3 > b.1 {
        (b.3 - b.1) as usize
    } else {
        1
    };
    let origin = (b.0, b.1);
    let ghost area = merged_area(b);
    assert(w == area.2 && h == area.3);
    let mut out: Vec<u32> = transparent(w * h);
    let mut j: usize = 0;
    while j < items.len()
        invariant
            j <= items.len(),
            views == crate::annotation::items_of(items@),
            is_grid(out@, w as int, h as int),
            w <= i64::MAX,
            h <= i64::MAX,
            forall|p: int| 0 <= p < items@.len() ==> image_whole(#[trigger] items@[p]@),
            forall|n: usize, g: (i64, i64)| call_requires(*extent, (n, g)),
            forall|n: usize, g: (i64, i64), x: usize, y: usize|
                call_requires(*sample, (n, g, x, y)),
            forall|d: u32, s: u32| call_requires(*over, (d, s)),
            forall|k: int|
                0 <= k < out@.len() ==> merged_pixel(
                    *extent,
                    *sample,
                    *over,
                    views,
                    origin,
                    w as int,
                    h as int,
                    j as int,
                    (k % (w as int)) as usize,
                    (k / (w as int)) as usize,
                    #[trigger] out@[k],
                ),
        decreases items.len() - j,
    {
        let ghost before = out@;
        assert(image_whole(items@[j as int]@));
        merge_one(&mut out, w, h, &items[j], j, origin, extent, sample, over);
        assert forall|k: int| 0 <= k < out@.len() implies merged_pixel(
            *extent,
            *sample,
            *over,
            views,
            origin,
            w as int,
            h as int,
            j + 1,
            (k % (w as int)) as usize,
            (k / (w as int)) as usize,
            #[trigger] out@[k],
        ) by {
            assert(cell_stepped(
                *extent,
                *sample,
                *over,
                views[j as int],
                j,
                origin,
                w as int,
                h as int,
                k,
                before[k],
                out@[k],
            ));
            lemma_merge_next(
                *extent,
                *sample,
                *over,
                views,
                origin,
                w as int,
                h as int,
                j as int,
                (k % (w as int)) as usize,
                (k / (w as int)) as usize,
                before[k],
                out@[k],
            );
        }
        j += 1;
    }
    Annotation::Image {
        r: (place(b.0), place(b.1), place(b.0 + w as i64), place(b.1 + h as i64)),
        src_w: w as i64,
        src_h: h as i64,
        pixels: Rc::new(out),
        rot: zero,
    }
}

/// The union of the pictures' boxes holds each picture's box.
pub proof fn lemma_pictures_box<F, S>(
    items: Seq<Item<F, S>>,
    outlines: Seq<Outline>,
    n: int,
    i: int,
)
    requires
        0 <= i < n <= items.len(),
        items[i] is Image,
    ensures
        crate::annotation::spans(
            pictures_box(items, outlines, n),
            corner_box(outlines[i].corners@),
        ),
        pictures_box(items, outlines, n).0 <= pictures_box(items, outlines, n).2,
        pictures_box(items, outlines, n).1 <= pictures_box(items, outlines, n).3,
    decreases n,
{
    if i < n - 1 {
        lemma_pictures_box(items, outlines, n - 1, i);
    }
}

} // verus!

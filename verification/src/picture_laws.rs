//! What pictures show: the frozen desktop, what is cut from it, and what is
//! drawn for each item.

use vstd::prelude::*;

use crate::annotation::Item;
use crate::grid::{at, lemma_at};
use crate::monitors::{
    can_compose, composed, law_bounds_cover_monitors, law_monitors_lie_in_picture, monitor_rect,
    reaches, shot_color, tellable, whole, Frozen, Place,
};
use crate::overlay::{channel, cut};
use crate::paint::{
    drawn_before, guide_half, item_ops, joints, layered, layers_of, polyline_ops, segments, Layer,
    OnScreen, PaintOp,
};
use crate::pixels::{
    blue, dimmed, exported, green, law_channels_of_packed, lemma_channels_are_bytes, packed,
    packed_alpha, red, Shot,
};
use crate::rect::Rect;

verus! {

// ---- Colors ----

/// A color is 0x00RRGGBB: red counts 65536, green 256 and blue 1.
pub proof fn law_color_is_rgb(r: u32, g: u32, b: u32)
    requires
        r <= 255,
        g <= 255,
        b <= 255,
    ensures
        packed(r, g, b) == 65536 * r + 256 * g + b,
{
    assert((r << 16) | (g << 8) | b == 65536 * r + 256 * g + b) by (bit_vector)
        requires
            r <= 255,
            g <= 255,
            b <= 255,
    ;
}

/// The channels of a color are its third, second and last byte.
pub proof fn law_channels_are_rgb(c: u32)
    ensures
        red(c) == c / 65536 % 256,
        green(c) == c / 256 % 256,
        blue(c) == c % 256,
{
    assert((c >> 16) & 0xff == c / 65536 % 256 && (c >> 8) & 0xff == c / 256 % 256 && c & 0xff == c
        % 256) by (bit_vector);
}

/// A pixel of a picture item is 0xAARRGGBB.
pub proof fn law_pixel_is_argb(a: u32, r: u32, g: u32, b: u32)
    requires
        a <= 255,
        r <= 255,
        g <= 255,
        b <= 255,
    ensures
        packed_alpha(a, r, g, b) == 16777216 * a + 65536 * r + 256 * g + b,
{
    assert((a << 24) | (r << 16) | (g << 8) | b == 16777216 * a + 65536 * r + 256 * g + b)
        by (bit_vector)
        requires
            a <= 255,
            r <= 255,
            g <= 255,
            b <= 255,
    ;
}

/// A dimmed color is no brighter in any channel, and keeps each channel's
/// share: a hundred times a channel of it is at most 55 times that of the
/// color, and less than a hundred short of it.
pub proof fn law_dimmed_keeps_hue(c: u32)
    ensures
        100 * red(dimmed(c)) <= 55 * red(c) < 100 * red(dimmed(c)) + 100,
        100 * green(dimmed(c)) <= 55 * green(c) < 100 * green(dimmed(c)) + 100,
        100 * blue(dimmed(c)) <= 55 * blue(c) < 100 * blue(dimmed(c)) + 100,
{
    lemma_channels_are_bytes(c);
    law_channels_of_packed(
        (red(c) * 55 / 100) as u32,
        (green(c) * 55 / 100) as u32,
        (blue(c) * 55 / 100) as u32,
    );
}

// ---- The frozen desktop ----

/// A pixel that no capture from `from` on reaches is that of the captures
/// before.
proof fn lemma_uncovered(
    rects: Seq<Place>,
    images: Seq<Option<Shot>>,
    half: bool,
    x: int,
    y: int,
    from: int,
    n: int,
)
    requires
        0 <= from <= n <= rects.len(),
        forall|j: int|
            from <= j < n ==> ((#[trigger] images[j]) matches Some(s) ==> !reaches(
                s,
                (monitor_rect(rects, j).x0 as int, monitor_rect(rects, j).y0 as int),
                x,
                y,
            )),
    ensures
        composed(rects, images, half, x, y, n) == composed(rects, images, half, x, y, from),
    decreases n - from,
{
    if from < n {
        lemma_uncovered(rects, images, half, x, y, from, n - 1);
        assert(images[n - 1] matches Some(s) ==> !reaches(
            s,
            (monitor_rect(rects, n - 1).x0 as int, monitor_rect(rects, n - 1).y0 as int),
            x,
            y,
        ));
    }
}

/// The picture's corner lies on the desktop where the leftmost and the
/// topmost monitor begin, and each monitor's part of the picture lies where
/// the monitor does and is as large.
pub proof fn law_monitors_keep_their_places(
    f: Frozen,
    rects: Seq<Place>,
    images: Seq<Option<Shot>>,
    k: int,
)
    requires
        f.shows(rects, images),
        can_compose(rects, images),
        0 <= k < rects.len(),
    ensures
        f.origin.0 + f.monitors@[k].x0 == rects[k].0,
        f.origin.1 + f.monitors@[k].y0 == rects[k].1,
        f.monitors@[k].x1 - f.monitors@[k].x0 == rects[k].2,
        f.monitors@[k].y1 - f.monitors@[k].y0 == rects[k].3,
        f.monitors@[k].x1 <= f.width,
        f.monitors@[k].y1 <= f.height,
{
    law_bounds_cover_monitors(rects, rects.len() as int, k);
    law_monitors_lie_in_picture(rects, k);
    assert(tellable(rects[k]));
    assert(f.monitors@[k] == monitor_rect(rects, k));
}

/// A pixel of a monitor's capture is found in the frozen picture where the
/// monitor lies on the desktop, with the capture's own red, green and blue,
/// and dimmed with half of each, unless the capture of a later monitor lies
/// over it.
pub proof fn law_frozen_shows_captures(
    f: Frozen,
    rects: Seq<Place>,
    images: Seq<Option<Shot>>,
    k: int,
    s: Shot,
    x: int,
    y: int,
)
    requires
        f.shows(rects, images),
        can_compose(rects, images),
        0 <= k < rects.len(),
        images[k] == Some(s),
        0 <= x < s.width,
        0 <= y < s.height,
        rects[k].0 - f.origin.0 + x < f.width,
        rects[k].1 - f.origin.1 + y < f.height,
        forall|j: int|
            k < j < rects.len() ==> ((#[trigger] images[j]) matches Some(t) ==> !(rects[j].0
                <= rects[k].0 + x < rects[j].0 + t.width && rects[j].1 <= rects[k].1 + y
                < rects[j].1 + t.height)),
    ensures
        ({
            let i = (rects[k].1 - f.origin.1 + y) * f.width + (rects[k].0 - f.origin.0 + x);
            let byte = 4 * (y * s.width + x);
            let r = s.rgba@[byte];
            let g = s.rgba@[byte + 1];
            let b = s.rgba@[byte + 2];
            &&& 0 <= i < f.bright@.len()
            &&& 0 <= byte && byte + 3 < s.rgba@.len()
            &&& f.bright@[i] == 65536 * r + 256 * g + b
            &&& f.dim@[i] == 65536 * (r / 2) + 256 * (g / 2) + b / 2
        }),
{
    let n = rects.len() as int;
    law_monitors_keep_their_places(f, rects, images, k);
    assert forall|j: int| k + 1 <= j < n implies ((#[trigger] images[j]) matches Some(t)
        ==> !reaches(
        t,
        (monitor_rect(rects, j).x0 as int, monitor_rect(rects, j).y0 as int),
        rects[k].0 - f.origin.0 + x,
        rects[k].1 - f.origin.1 + y,
    )) by {
        law_monitors_keep_their_places(f, rects, images, j);
        assert(f.monitors@[j] == monitor_rect(rects, j));
    }
    let px = rects[k].0 - f.origin.0 + x;
    let py = rects[k].1 - f.origin.1 + y;
    assert(f.monitors@[k] == monitor_rect(rects, k));
    lemma_uncovered(rects, images, false, px, py, k + 1, n);
    lemma_uncovered(rects, images, true, px, py, k + 1, n);
    lemma_at(f.width as int, f.height as int, px, py);
    assert(at(f.width as int, px, py) == py * f.width + px);
    assert(images[k] matches Some(t) ==> whole(t));
    lemma_at(s.width as int, s.height as int, x, y);
    assert(at(s.width as int, x, y) == y * s.width + x);
    let byte = 4 * (y * s.width + x);
    let r = s.rgba@[byte] as u32;
    let g = s.rgba@[byte + 1] as u32;
    let b = s.rgba@[byte + 2] as u32;
    law_color_is_rgb(r, g, b);
    law_color_is_rgb(r / 2, g / 2, b / 2);
    assert(composed(rects, images, false, px, py, k + 1) == shot_color(s, x, y, false));
    assert(composed(rects, images, true, px, py, k + 1) == shot_color(s, x, y, true));
}

/// What no capture shows is black.
pub proof fn law_uncaptured_is_black(
    f: Frozen,
    rects: Seq<Place>,
    images: Seq<Option<Shot>>,
    x: int,
    y: int,
)
    requires
        f.shows(rects, images),
        can_compose(rects, images),
        rects.len() > 0,
        0 <= x < f.width,
        0 <= y < f.height,
        forall|j: int|
            0 <= j < rects.len() ==> ((#[trigger] images[j]) matches Some(t) ==> !(rects[j].0
                <= f.origin.0 + x < rects[j].0 + t.width && rects[j].1 <= f.origin.1 + y
                < rects[j].1 + t.height)),
    ensures
        f.bright@[y * f.width + x] == 0,
        f.dim@[y * f.width + x] == 0,
{
    let n = rects.len() as int;
    assert forall|j: int| 0 <= j < n implies ((#[trigger] images[j]) matches Some(t) ==> !reaches(
        t,
        (monitor_rect(rects, j).x0 as int, monitor_rect(rects, j).y0 as int),
        x,
        y,
    )) by {
        law_monitors_keep_their_places(f, rects, images, j);
        assert(f.monitors@[j] == monitor_rect(rects, j));
    }
    lemma_uncovered(rects, images, false, x, y, 0, n);
    lemma_uncovered(rects, images, true, x, y, 0, n);
    assert(at(f.width as int, x, y) == y * f.width + x);
}

/// What is cut out of the picture has four bytes for each pixel of the
/// region, row by row: the pixel's red, green and blue, and it is opaque.
pub proof fn law_cut_keeps_pixels(bright: Seq<u32>, w: int, r: Rect, x: int, y: int)
    requires
        r.x0 <= x < r.x1,
        r.y0 <= y < r.y1,
    ensures
        ({
            let i = 4 * ((y - r.y0) * (r.x1 - r.x0) + (x - r.x0));
            let p = bright[y * w + x];
            let bytes = cut(bright, w, r);
            &&& bytes.len() == 4 * ((r.x1 - r.x0) * (r.y1 - r.y0))
            &&& 0 <= i && i + 3 < bytes.len()
            &&& bytes[i] == p / 65536 % 256
            &&& bytes[i + 1] == p / 256 % 256
            &&& bytes[i + 2] == p % 256
            &&& bytes[i + 3] == 255
        }),
{
    let rw = r.x1 - r.x0;
    let rh = r.y1 - r.y0;
    let cell = (y - r.y0) * rw + (x - r.x0);
    let p = bright[y * w + x];
    assert(0 <= cell < rw * rh) by (nonlinear_arith)
        requires
            cell == (y - r.y0) * rw + (x - r.x0),
            0 <= x - r.x0 < rw,
            0 <= y - r.y0 < rh,
            rh == r.y1 - r.y0,
    ;
    vstd::arithmetic::div_mod::lemma_fundamental_div_mod_converse(cell, rw, y - r.y0, x - r.x0);
    assert(at(w, x, y) == y * w + x);
    law_channels_are_rgb(p);
    lemma_channels_are_bytes(p);
    reveal(cut);
    let bytes = cut(bright, w, r);
    let i = 4 * cell;
    assert(i / 4 == cell && (i + 1) / 4 == cell && (i + 2) / 4 == cell && (i + 3) / 4 == cell);
    assert(i % 4 == 0 && (i + 1) % 4 == 1 && (i + 2) % 4 == 2 && (i + 3) % 4 == 3);
    assert(r.x0 + cell % rw == x && r.y0 + cell / rw == y);
    assert(p & 0xff <= 255 && (p >> 8) & 0xff <= 255 && (p >> 16) & 0xff <= 255) by (bit_vector);
    assert(bytes[i] == channel(exported(p, 0), 0));
    assert(bytes[i + 1] == channel(exported(p, 0), 1));
    assert(bytes[i + 2] == channel(exported(p, 0), 2));
    assert(bytes[i + 3] == channel(exported(p, 0), 3));
}

// ---- The drawing order ----

/// Where the layers of the items are found: in ascending order, one for each
/// item of the kind.
proof fn lemma_layers<F, S>(items: Seq<Item<F, S>>, guides: bool, n: int)
    requires
        0 <= n <= items.len() <= usize::MAX,
    ensures
        layers_of(items, false, n).len() + layers_of(items, true, n).len() == n,
        forall|t: int|
            0 <= t < layers_of(items, guides, n).len() ==> (#[trigger] layers_of(
                items,
                guides,
                n,
            )[t] matches Layer::Item(i) && i < n && (items[i as int] is Guide) == guides),
        forall|s: int, t: int|
            0 <= s < t < layers_of(items, guides, n).len() ==> (#[trigger] layers_of(
                items,
                guides,
                n,
            )[s])->Item_0 < (#[trigger] layers_of(items, guides, n)[t])->Item_0,
        forall|i: int|
            0 <= i < n && (#[trigger] items[i] is Guide) == guides ==> layers_of(
                items,
                guides,
                n,
            ).contains(Layer::Item(i as usize)),
    decreases n,
{
    if n > 0 {
        lemma_layers(items, guides, n - 1);
        let rest = layers_of(items, guides, n - 1);
        let all = layers_of(items, guides, n);
        assert forall|i: int|
            0 <= i < n && (#[trigger] items[i] is Guide) == guides implies all.contains(
            Layer::Item(i as usize),
        ) by {
            if i == n - 1 {
                assert(all[all.len() - 1] == Layer::Item(i as usize));
            } else {
                assert(rest.contains(Layer::Item(i as usize)));
                let t = choose|t: int| 0 <= t < rest.len() && rest[t] == Layer::Item(i as usize);
                assert(all[t] == rest[t]);
            }
        }
    }
}

/// Each item is drawn once, and so is the preview: there are no more layers
/// than items and previews.
pub proof fn law_nothing_is_drawn_twice<F, S>(items: Seq<Item<F, S>>, preview: Option<bool>)
    requires
        items.len() <= usize::MAX,
    ensures
        layered(items, preview).len() == items.len() + (if preview is Some {
            1int
        } else {
            0
        }),
        preview is Some ==> layered(items, preview).contains(Layer::Preview),
{
    let n = items.len() as int;
    lemma_layers(items, false, n);
    let below = layers_of(items, false, n);
    let order = layered(items, preview);
    if preview == Some(false) {
        assert(order[below.len() as int] == Layer::Preview);
    } else if preview == Some(true) {
        assert(order[order.len() - 1] == Layer::Preview);
    }
}

/// Of two items the later in the list is drawn later, so that it lies on
/// top, unless the earlier is a guide and the later is none.
pub proof fn law_later_items_on_top<F, S>(
    items: Seq<Item<F, S>>,
    preview: Option<bool>,
    i: int,
    j: int,
)
    requires
        items.len() <= usize::MAX,
        0 <= i < j < items.len(),
        items[i] is Guide ==> items[j] is Guide,
    ensures
        drawn_before(layered(items, preview), Layer::Item(i as usize), Layer::Item(j as usize)),
{
    let n = items.len() as int;
    lemma_layers(items, false, n);
    lemma_layers(items, true, n);
    let below = layers_of(items, false, n);
    let above = layers_of(items, true, n);
    let order = layered(items, preview);
    let shift = if preview == Some(false) {
        below.len() + 1
    } else {
        below.len()
    };
    let pi = layers_of(items, items[i] is Guide, n);
    let pj = layers_of(items, items[j] is Guide, n);
    assert(pi.contains(Layer::Item(i as usize)));
    assert(pj.contains(Layer::Item(j as usize)));
    let s = choose|s: int| 0 <= s < pi.len() && pi[s] == Layer::Item(i as usize);
    let t = choose|t: int| 0 <= t < pj.len() && pj[t] == Layer::Item(j as usize);
    if (items[i] is Guide) == (items[j] is Guide) {
        if t < s {
            assert(pi[t]->Item_0 < pi[s]->Item_0);
        }
        assert(s != t);
        if items[i] is Guide {
            assert(order[shift + s] == above[s]);
            assert(order[shift + t] == above[t]);
        } else {
            assert(order[s] == below[s]);
            assert(order[t] == below[t]);
        }
    } else {
        assert(order[s] == below[s]);
        assert(order[shift + t] == above[t]);
    }
}

/// A preview is drawn over every item that is no guide, and one that is a
/// guide over everything.
pub proof fn law_preview_on_top<F, S>(items: Seq<Item<F, S>>, guide: bool, i: int)
    requires
        items.len() <= usize::MAX,
        0 <= i < items.len(),
        items[i] is Guide ==> guide,
    ensures
        drawn_before(layered(items, Some(guide)), Layer::Item(i as usize), Layer::Preview),
{
    let n = items.len() as int;
    lemma_layers(items, false, n);
    lemma_layers(items, true, n);
    let below = layers_of(items, false, n);
    let above = layers_of(items, true, n);
    let order = layered(items, Some(guide));
    let part = layers_of(items, items[i] is Guide, n);
    assert(part.contains(Layer::Item(i as usize)));
    let s = choose|s: int| 0 <= s < part.len() && part[s] == Layer::Item(i as usize);
    let at = if guide {
        order.len() - 1
    } else {
        below.len() as int
    };
    assert(order[at] == Layer::Preview);
    if items[i] is Guide {
        assert(order[below.len() + s] == above[s]);
    } else {
        assert(order[s] == below[s]);
    }
}

// ---- What is drawn for each kind ----

/// An arrow is drawn as a line from its start to its tip. With barbs, a line
/// goes from the tip to the end of each, and the tip is joined; without, there
/// is nothing else. All of it has the arrow's color and thickness.
pub proof fn law_arrow_has_its_head<F, S>(
    a: (i64, i64),
    b: (i64, i64),
    color: u32,
    thick: i64,
    s: OnScreen,
    export: bool,
)
    requires
        s.points@.len() == 2,
    ensures
        ({
            let ops = item_ops(Item::<F, S>::Arrow { a, b, color, thick }, s, export);
            let from = s.points@[0];
            let tip = s.points@[1];
            let th = s.th;
            &&& ops.contains(PaintOp::Line { a: from, b: tip, th, color })
            &&& match s.barbs {
                Some((e0, e1)) => {
                    &&& ops.contains(PaintOp::Line { a: tip, b: e0, th, color })
                    &&& ops.contains(PaintOp::Line { a: tip, b: e1, th, color })
                    &&& ops.contains(PaintOp::Join { at: tip, th, color })
                    &&& ops.len() == 4
                },
                None => ops.len() == 1,
            }
        }),
{
    let ops = item_ops(Item::<F, S>::Arrow { a, b, color, thick }, s, export);
    let tip = s.points@[1];
    assert(ops[0] == (PaintOp::Line { a: s.points@[0], b: tip, th: s.th, color }));
    if let Some((e0, e1)) = s.barbs {
        assert(ops[1] == (PaintOp::Line { a: tip, b: e0, th: s.th, color }));
        assert(ops[2] == (PaintOp::Line { a: tip, b: e1, th: s.th, color }));
        assert(ops[3] == (PaintOp::Join { at: tip, th: s.th, color }));
    }
}

proof fn lemma_segments(p: Seq<(i64, i64)>, th: i64, color: u32, n: int, i: int)
    requires
        0 <= i < n,
    ensures
        segments(p, th, color, n).len() == n,
        segments(p, th, color, n)[i] == (PaintOp::Line { a: p[i], b: p[i + 1], th, color }),
    decreases n,
{
    if n == 1 {
        assert(segments(p, th, color, 0).len() == 0);
    } else if i < n - 1 {
        lemma_segments(p, th, color, n - 1, i);
    } else {
        lemma_segments(p, th, color, n - 1, 0);
    }
}

proof fn lemma_joints(p: Seq<(i64, i64)>, th: i64, color: u32, n: int, i: int)
    requires
        0 <= i < n,
    ensures
        joints(p, th, color, n).len() == n,
        joints(p, th, color, n)[i] == (PaintOp::Join { at: p[i + 1], th, color }),
    decreases n,
{
    if n == 1 {
        assert(joints(p, th, color, 0).len() == 0);
    } else if i < n - 1 {
        lemma_joints(p, th, color, n - 1, i);
    } else {
        lemma_joints(p, th, color, n - 1, 0);
    }
}

/// A polyline is drawn as a line from each of its points to the next, in its
/// color and thickness, and its inner points are joined.
pub proof fn law_polyline_joins_its_points<F, S>(
    points: Seq<(i64, i64)>,
    color: u32,
    thick: i64,
    s: OnScreen,
    export: bool,
    i: int,
)
    requires
        s.points@.len() == points.len(),
        0 <= i,
        i + 1 < points.len(),
    ensures
        ({
            let ops = item_ops(Item::<F, S>::Polyline { points, color, thick }, s, export);
            let p = s.points@;
            &&& ops.contains(PaintOp::Line { a: p[i], b: p[i + 1], th: s.th, color })
            &&& i > 0 ==> ops.contains(PaintOp::Join { at: p[i], th: s.th, color })
            &&& ops.len() == 2 * points.len() - 3
        }),
{
    let p = s.points@;
    let n = p.len() as int;
    let ops = polyline_ops(p, s.th, color);
    lemma_segments(p, s.th, color, n - 1, i);
    assert(ops[i] == (PaintOp::Line { a: p[i], b: p[i + 1], th: s.th, color }));
    if n > 2 {
        lemma_joints(p, s.th, color, n - 2, 0);
    }
    if i > 0 {
        lemma_joints(p, s.th, color, n - 2, i - 1);
        assert(ops[n - 1 + (i - 1)] == (PaintOp::Join { at: p[i], th: s.th, color }));
    }
}

/// A rectangle is filled with its color, or outlined in it: each corner is
/// joined to the next by a line of its thickness.
pub proof fn law_rect_has_four_sides<F, S>(
    r: (F, F, F, F),
    color: u32,
    thick: i64,
    rot: F,
    s: OnScreen,
    export: bool,
    i: int,
)
    requires
        s.points@.len() == 4,
        0 <= i < 4,
    ensures
        item_ops(Item::<F, S>::Rect { r, color, thick, rot, filled: true }, s, export) == seq![
            PaintOp::FillRect { color },
        ],
        ({
            let ops = item_ops(
                Item::<F, S>::Rect { r, color, thick, rot, filled: false },
                s,
                export,
            );
            let c = s.points@;
            &&& ops.contains(PaintOp::Line { a: c[i], b: c[(i + 1) % 4], th: s.th, color })
            &&& ops.contains(PaintOp::Join { at: c[i], th: s.th, color })
            &&& ops.len() == 8
        }),
{
    let ops = item_ops(Item::<F, S>::Rect { r, color, thick, rot, filled: false }, s, export);
    let c = s.points@;
    assert(ops[2 * i] == (PaintOp::Line { a: c[i], b: c[(i + 1) % 4], th: s.th, color }));
    assert(ops[2 * i + 1] == (PaintOp::Join { at: c[i], th: s.th, color }));
}

/// The other kinds: an ellipse is filled with its color or ringed in it, a
/// picture and a mosaic are themselves, a text stands at its place in its
/// color, and a marker is a disc of its color with its number on it.
pub proof fn law_items_look_their_kind<F, S>(
    r: (F, F, F, F),
    rot: F,
    pos: (i64, i64),
    text: Seq<char>,
    color: u32,
    thick: i64,
    number: u32,
    size: S,
    s: OnScreen,
    export: bool,
)
    requires
        s.points@.len() == 1,
    ensures
        item_ops(Item::<F, S>::Ellipse { r, color, thick, rot, filled: true }, s, export) == seq![
            PaintOp::FillOval { color },
        ],
        item_ops(Item::<F, S>::Ellipse { r, color, thick, rot, filled: false }, s, export) == seq![
            PaintOp::Ring { th: s.th, color },
        ],
        forall|w: i64, h: i64, pixels: Seq<u32>|
            #[trigger] item_ops(
                Item::<F, S>::Image { r, src_w: w, src_h: h, pixels, rot },
                s,
                export,
            ) == seq![PaintOp::Picture],
        forall|block: S, mode: crate::annotation::MosaicMode, seed: u32|
            #[trigger] item_ops(Item::<F, S>::Mosaic { r, rot, block, mode, seed }, s, export)
                == seq![PaintOp::Coarse],
        s.text ==> item_ops(Item::<F, S>::Text { pos, text, color, size, rot }, s, export) == seq![
            PaintOp::Glyphs { at: s.points@[0], color },
        ],
        ({
            let ops = item_ops(Item::<F, S>::NumberMarker { pos, number, color, size }, s, export);
            &&& ops.len() > 0 && ops[0] == (PaintOp::Disc { at: s.points@[0], color })
            &&& s.text ==> ops.len() == 2 && (ops[1] matches PaintOp::Number {
                at,
                number: n,
                color: ink,
            } && at == s.points@[0] && n == number && (ink == 0 || ink == 0xFFFFFF))
        }),
{
}

/// A marker's number is black on a bright disc and white on a dark one:
/// brightness is the sum of the channels, weighted by 299, 587 and 114.
pub proof fn law_marker_number_is_readable<F, S>(
    pos: (i64, i64),
    number: u32,
    color: u32,
    size: S,
    s: OnScreen,
    export: bool,
)
    requires
        s.points@.len() == 1,
        s.text,
    ensures
        ({
            let ops = item_ops(Item::<F, S>::NumberMarker { pos, number, color, size }, s, export);
            let brightness = 299 * (color / 65536 % 256) + 587 * (color / 256 % 256) + 114 * (color
                % 256);
            ops[1] == (PaintOp::Number {
                at: s.points@[0],
                number,
                color: if brightness > 140_000 {
                    0x0000_0000u32
                } else {
                    0x00FF_FFFFu32
                },
            })
        }),
{
    law_channels_are_rgb(color);
}

/// The guide's border goes around its rectangle: each corner of it is joined
/// by a black dot of the border's thickness, just outside the rectangle, and
/// along each side there is a line from one corner to the next, as far as the
/// canvas shows it.
pub proof fn law_guide_is_bordered<F, S>(r: (i64, i64, i64, i64), s: OnScreen)
    requires
        s.points@.len() == 2,
        1 <= s.th <= 0x1000_0000,
        0 <= s.canvas.0 <= 0x1000_0000,
        0 <= s.canvas.1 <= 0x1000_0000,
        0 <= s.points@[0].0 - s.th,
        0 <= s.points@[0].1 - s.th,
        s.points@[1].0 + s.th <= s.canvas.0,
        s.points@[1].1 + s.th <= s.canvas.1,
        s.points@[0].0 <= s.points@[1].0,
        s.points@[0].1 <= s.points@[1].1,
    ensures
        ({
            let ops = item_ops(Item::<F, S>::Guide { r }, s, false);
            let d = s.th / 2 + 1;
            let x0 = (s.points@[0].0 - d) as i64;
            let y0 = (s.points@[0].1 - d) as i64;
            let x1 = (s.points@[1].0 + d) as i64;
            let y1 = (s.points@[1].1 + d) as i64;
            let th = s.th;
            &&& ops.contains(PaintOp::Line { a: (x0, y0), b: (x1, y0), th, color: 0 })
            &&& ops.contains(PaintOp::Line { a: (x0, y1), b: (x1, y1), th, color: 0 })
            &&& ops.contains(PaintOp::Line { a: (x0, y0), b: (x0, y1), th, color: 0 })
            &&& ops.contains(PaintOp::Line { a: (x1, y0), b: (x1, y1), th, color: 0 })
            &&& ops.contains(PaintOp::Join { at: (x0, y0), th, color: 0 })
            &&& ops.contains(PaintOp::Join { at: (x1, y0), th, color: 0 })
            &&& ops.contains(PaintOp::Join { at: (x1, y1), th, color: 0 })
            &&& ops.contains(PaintOp::Join { at: (x0, y1), th, color: 0 })
        }),
{
    let ops = item_ops(Item::<F, S>::Guide { r }, s, false);
    let d = s.th / 2 + 1;
    let x0 = (s.points@[0].0 - d) as i64;
    let y0 = (s.points@[0].1 - d) as i64;
    let x1 = (s.points@[1].0 + d) as i64;
    let y1 = (s.points@[1].1 + d) as i64;
    let th = s.th;
    assert(guide_half(th as int) == d);
    assert(ops[0] == (PaintOp::Line { a: (x0, y0), b: (x1, y0), th, color: 0 }));
    assert(ops[1] == (PaintOp::Line { a: (x0, y1), b: (x1, y1), th, color: 0 }));
    assert(ops[2] == (PaintOp::Line { a: (x0, y0), b: (x0, y1), th, color: 0 }));
    assert(ops[3] == (PaintOp::Line { a: (x1, y0), b: (x1, y1), th, color: 0 }));
    assert(ops[4] == (PaintOp::Join { at: (x0, y0), th, color: 0 }));
    assert(ops[5] == (PaintOp::Join { at: (x1, y0), th, color: 0 }));
    assert(ops[6] == (PaintOp::Join { at: (x1, y1), th, color: 0 }));
    assert(ops[7] == (PaintOp::Join { at: (x0, y1), th, color: 0 }));
}

} // verus!

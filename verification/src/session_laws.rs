//! How a session starts, what it measures and merges, and what the settings
//! and the window's events lead to.

use vstd::prelude::*;

use crate::annotation::{items_of, Item};
use crate::bake::{check_color, in_guide, sampled, source_pixel};
use crate::editor::Model;
use crate::events::{EditorEvent, Turn};
use crate::fields::{all_digits, digits_value, is_digit, kept_within, spelled_number};
use crate::grid::at;
use crate::measure::{
    drawable, drawn_box, guide_from, guide_rect, marquee_takes, overlaps, points_box, tight_box,
    Outline,
};
use crate::opening::{first_items, first_size, shot_pixels, EditorInit};
use crate::overlay::{Mode, OverlayModel};
use crate::pixels::{packed_alpha, Shot};
use crate::pure::result;
use crate::rect::Rect;
use crate::resident::{lines_of, AppModel, Start};
use crate::settings::{KeptConfig, SavedSettings};
use crate::stroke::{inked, local_points, merged_area, stroke_area};
use crate::style::{present, summed, PropVal};

verus! {

// ---- The start of a session ----

/// An editor opened on a captured picture holds that picture alone: unturned,
/// at the canvas's origin, as large as it was captured, and with each pixel's
/// channels where they belong.
pub proof fn law_editor_opens_the_picture<F, S, L: Fn(i64) -> F>(
    s: Shot,
    zero: F,
    lift: L,
    k: int,
)
    requires
        0 <= k < s.width * s.height,
    ensures
        ({
            let items = first_items(EditorInit::<F, S>::Shot(s), zero, lift);
            &&& first_size(EditorInit::<F, S>::Shot(s)) == Some(
                (s.width as usize, s.height as usize),
            )
            &&& items.len() == 1
            &&& items[0] matches Item::Image { r, src_w, src_h, pixels, rot } && r == (
                result(lift, 0i64),
                result(lift, 0i64),
                result(lift, s.width as i64),
                result(lift, s.height as i64),
            ) && src_w == s.width && src_h == s.height && rot == zero && pixels.len() == s.width
                * s.height && pixels[k] == s.rgba@[4 * k + 3] * 0x100_0000 + s.rgba@[4 * k]
                * 0x1_0000 + s.rgba@[4 * k + 1] * 0x100 + s.rgba@[4 * k + 2]
        }),
{
    let a = s.rgba@[4 * k + 3];
    let r = s.rgba@[4 * k];
    let g = s.rgba@[4 * k + 1];
    let b = s.rgba@[4 * k + 2];
    lemma_packed_alpha(a as u32, r as u32, g as u32, b as u32);
    assert(shot_pixels(s)[k] == packed_alpha(a as u32, r as u32, g as u32, b as u32));
}

proof fn lemma_packed_alpha(a: u32, r: u32, g: u32, b: u32)
    requires
        a < 256,
        r < 256,
        g < 256,
        b < 256,
    ensures
        packed_alpha(a, r, g, b) == a * 0x100_0000 + r * 0x1_0000 + g * 0x100 + b,
{
    assert(((a << 24u32) | (r << 16u32) | (g << 8u32) | b) == a * 0x100_0000 + r * 0x1_0000 + g
        * 0x100 + b) by (bit_vector)
        requires
            a < 256,
            r < 256,
            g < 256,
            b < 256,
    ;
}

/// A saved session starts with its items and size, and a blank editor with
/// nothing.
pub proof fn law_session_is_resumed<F, S, L: Fn(i64) -> F>(
    width: usize,
    height: usize,
    annotations: Vec<crate::annotation::Annotation<F, S>>,
    zero: F,
    lift: L,
)
    ensures
        ({
            let init = EditorInit::Session { width, height, annotations };
            &&& first_items(init, zero, lift) == items_of(annotations@)
            &&& first_size(init) == Some((width, height))
        }),
        first_items(EditorInit::<F, S>::Blank, zero, lift).len() == 0,
        first_size(EditorInit::<F, S>::Blank) is None,
{
}

// ---- Measuring ----

/// The box of an arrow has both its ends in its corners, the box of a guide
/// both its corners, and the box of a marker reaches its radius on every side
/// of its position.
pub proof fn law_boxes_hold_the_ends<F, S>(item: Item<F, S>, o: Outline)
    ensures
        item matches Item::Arrow { a, b, .. } ==> ({
            let t = tight_box(item, o);
            t.0 <= a.0 <= t.2 && t.0 <= b.0 <= t.2 && t.1 <= a.1 <= t.3 && t.1 <= b.1 <= t.3 && (t.0
                == a.0 || t.0 == b.0) && (t.2 == a.0 || t.2 == b.0) && (t.1 == a.1 || t.1 == b.1)
                && (t.3 == a.1 || t.3 == b.1)
        }),
        (item matches Item::NumberMarker { pos, .. } && drawable(item, o)) ==> ({
            let pos = item->NumberMarker_pos;
            let t = tight_box(item, o);
            pos.0 - t.0 == o.radius && t.2 - pos.0 == o.radius && pos.1 - t.1 == o.radius && t.3
                - pos.1 == o.radius
        }),
        item is Ellipse ==> tight_box(item, o) == o.oval,
{
}

proof fn lemma_points_box(points: Seq<(i64, i64)>, i: int)
    requires
        0 <= i < points.len(),
    ensures
        ({
            let t = points_box(points);
            t.0 <= points[i].0 <= t.2 && t.1 <= points[i].1 <= t.3
        }),
    decreases points.len(),
{
    if i < points.len() - 1 {
        lemma_points_box(points.drop_last(), i);
    }
}

proof fn lemma_points_box_tight(points: Seq<(i64, i64)>) -> (at: (int, int, int, int))
    requires
        points.len() > 0,
    ensures
        0 <= at.0 < points.len() && points_box(points).0 == points[at.0].0,
        0 <= at.1 < points.len() && points_box(points).1 == points[at.1].1,
        0 <= at.2 < points.len() && points_box(points).2 == points[at.2].0,
        0 <= at.3 < points.len() && points_box(points).3 == points[at.3].1,
    decreases points.len(),
{
    let rest = points.drop_last();
    let last = points.len() - 1;
    if rest.len() == 0 {
        assert(points_box(rest) == (i64::MAX, i64::MAX, i64::MIN, i64::MIN));
        (0, 0, 0, 0)
    } else {
        let at = lemma_points_box_tight(rest);
        let t = points_box(points);
        (
            if t.0 == points[last].0 {
                last
            } else {
                at.0
            },
            if t.1 == points[last].1 {
                last
            } else {
                at.1
            },
            if t.2 == points[last].0 {
                last
            } else {
                at.2
            },
            if t.3 == points[last].1 {
                last
            } else {
                at.3
            },
        )
    }
}

/// The box of a polyline holds each of its points, and each of its sides
/// touches one.
pub proof fn law_polyline_box_is_tight<F, S>(
    points: Seq<(i64, i64)>,
    color: u32,
    thick: i64,
    o: Outline,
)
    requires
        points.len() > 0,
    ensures
        ({
            let t = tight_box(Item::<F, S>::Polyline { points, color, thick }, o);
            &&& forall|i: int|
                0 <= i < points.len() ==> t.0 <= (#[trigger] points[i]).0 <= t.2 && t.1
                    <= points[i].1 <= t.3
            &&& exists|i: int| 0 <= i < points.len() && (#[trigger] points[i]).0 == t.0
            &&& exists|i: int| 0 <= i < points.len() && (#[trigger] points[i]).1 == t.1
            &&& exists|i: int| 0 <= i < points.len() && (#[trigger] points[i]).0 == t.2
            &&& exists|i: int| 0 <= i < points.len() && (#[trigger] points[i]).1 == t.3
        }),
{
    assert forall|i: int| 0 <= i < points.len() implies points_box(points).0 <= (
    #[trigger] points[i]).0 <= points_box(points).2 && points_box(points).1 <= points[i].1
        <= points_box(points).3 by {
        lemma_points_box(points, i);
    }
    let at = lemma_points_box_tight(points);
    assert(points[at.0].0 == points_box(points).0);
    assert(points[at.1].1 == points_box(points).1);
    assert(points[at.2].0 == points_box(points).2);
    assert(points[at.3].1 == points_box(points).3);
}

/// The box of a turned rectangle, picture, mosaic or text holds each of its
/// corners, and each of its sides touches one.
pub proof fn law_turned_box_holds_the_corners<F, S>(item: Item<F, S>, o: Outline, i: int)
    requires
        item is Image || item is Rect || item is Mosaic || item is Text,
        0 <= i < 4,
    ensures
        ({
            let t = tight_box(item, o);
            let c = o.corners@;
            &&& t.0 <= c[i].0 <= t.2 && t.1 <= c[i].1 <= t.3
            &&& t.0 == c[0].0 || t.0 == c[1].0 || t.0 == c[2].0 || t.0 == c[3].0
            &&& t.1 == c[0].1 || t.1 == c[1].1 || t.1 == c[2].1 || t.1 == c[3].1
            &&& t.2 == c[0].0 || t.2 == c[1].0 || t.2 == c[2].0 || t.2 == c[3].0
            &&& t.3 == c[0].1 || t.3 == c[1].1 || t.3 == c[2].1 || t.3 == c[3].1
        }),
{
}

/// What is drawn of an arrow, a polyline or an outlined shape goes half its
/// thickness, rounded up, beyond its box, and an arrow's head is inside.
pub proof fn law_drawn_box_has_the_thickness<F, S>(item: Item<F, S>, o: Outline, thick: i64)
    requires
        drawable(item, o),
        thick >= 1,
        (item matches Item::Arrow { thick: t, .. } && t == thick) || (
        item matches Item::Polyline { thick: t, .. } && t == thick) || (item matches Item::Rect {
            thick: t,
            filled,
            ..
        } && t == thick && !filled) || (item matches Item::Ellipse { thick: t, filled, .. } && t
            == thick && !filled),
    ensures
        ({
            let t = tight_box(item, o);
            let d = drawn_box(item, o);
            let pad = (thick + 1) / 2;
            &&& d.0 <= t.0 - pad && d.1 <= t.1 - pad && d.2 >= t.2 + pad && d.3 >= t.3 + pad
            &&& !(item is Arrow) ==> d.0 == t.0 - pad && d.1 == t.1 - pad && d.2 == t.2 + pad
                && d.3 == t.3 + pad
            &&& (item is Arrow && o.barbs is Some) ==> {
                let (e, f) = o.barbs->0;
                d.0 <= e.0 - pad && d.0 <= f.0 - pad && d.2 >= e.2 + pad && d.2 >= f.2 + pad && d.1
                    <= e.1 - pad && d.1 <= f.1 - pad && d.3 >= e.3 + pad && d.3 >= f.3 + pad
            }
        }),
{
}

proof fn lemma_guide_from<F, S>(items: Seq<Item<F, S>>, k: int, i: int)
    requires
        0 <= i <= k < items.len(),
        items[k] is Guide,
        forall|j: int| i <= j < k ==> !((#[trigger] items[j]) is Guide),
    ensures
        guide_from(items, i) == Some(k),
    decreases k - i,
{
    if i < k {
        assert(!(items[i] is Guide));
        lemma_guide_from(items, k, i + 1);
    }
}

/// The guide is the one among the items, wherever it lies.
pub proof fn law_guide_is_found<F, S>(items: Seq<Item<F, S>>, k: int, r: (i64, i64, i64, i64))
    requires
        0 <= k < items.len(),
        items[k] == (Item::<F, S>::Guide { r }),
        forall|j: int| 0 <= j < items.len() && j != k ==> !((#[trigger] items[j]) is Guide),
    ensures
        guide_rect(items) == Some(r),
{
    lemma_guide_from(items, k, 0);
}

/// Two boxes overlap exactly if a pixel lies in both.
pub proof fn law_overlap_shares_a_pixel(
    p: (i64, i64, i64, i64),
    q: (i64, i64, i64, i64),
    x: int,
    y: int,
)
    requires
        p.0 < p.2 && p.1 < p.3,
        q.0 < q.2 && q.1 < q.3,
    ensures
        p.0 <= x < p.2 && p.1 <= y < p.3 && q.0 <= x < q.2 && q.1 <= y < q.3 ==> overlaps(p, q),
        overlaps(p, q) ==> {
            let cx = if p.0 >= q.0 {
                p.0
            } else {
                q.0
            };
            let cy = if p.1 >= q.1 {
                p.1
            } else {
                q.1
            };
            p.0 <= cx < p.2 && p.1 <= cy < p.3 && q.0 <= cx < q.2 && q.1 <= cy < q.3
        },
        overlaps(p, q) == overlaps(q, p),
{
}

/// A frame dragged out takes each shape that it crosses and each line or
/// marker whose box it overlaps, but never the guide.
pub proof fn law_frame_takes_what_it_meets<F, S>(
    item: Item<F, S>,
    o: Outline,
    crosses: bool,
    r: (i64, i64, i64, i64),
)
    ensures
        item is Guide ==> !marquee_takes(item, o, crosses, r),
        item is Rect || item is Ellipse || item is Image || item is Mosaic || item is Text
            ==> marquee_takes(item, o, crosses, r) == crosses,
        item matches Item::Arrow { a, b, .. } ==> (a.0 < b.0 && a.1 < b.1 ==> (marquee_takes(
            item,
            o,
            crosses,
            r,
        ) <==> a.0 < r.2 && b.0 > r.0 && a.1 < r.3 && b.1 > r.1)),
{
}

// ---- What the selection has in common ----

/// A property shown for a selection is the default if no item has it, the
/// items' value if all that have it agree, and mixed if two differ.
pub proof fn law_shown_value_is_common<T>(vals: Seq<Option<T>>, default: T, v: T)
    ensures
        (forall|i: int| 0 <= i < vals.len() ==> (#[trigger] vals[i]) is None) ==> summed(
            vals,
            default,
        ) == PropVal::Uniform(default),
        (exists|i: int| 0 <= i < vals.len() && (#[trigger] vals[i]) is Some) && (forall|i: int|
            0 <= i < vals.len() ==> (#[trigger] vals[i]) is None || vals[i] == Some(v)) ==> summed(
            vals,
            default,
        ) == PropVal::Uniform(v),
        (exists|i: int, j: int|
            0 <= i < vals.len() && 0 <= j < vals.len() && (#[trigger] vals[i]) is Some && (
            #[trigger] vals[j]) is Some && vals[i] != vals[j]) ==> summed(vals, default) is Mixed,
{
    if forall|i: int| 0 <= i < vals.len() ==> (#[trigger] vals[i]) is None {
        lemma_none_present(vals);
    }
    if (exists|i: int| 0 <= i < vals.len() && (#[trigger] vals[i]) is Some) && (forall|i: int|
        0 <= i < vals.len() ==> (#[trigger] vals[i]) is None || vals[i] == Some(v)) {
        let i = choose|i: int| 0 <= i < vals.len() && (#[trigger] vals[i]) is Some;
        let k = lemma_is_present(vals, i);
        lemma_all_present(vals, v);
        assert(present(vals)[0] == v);
    }
    if exists|i: int, j: int|
        0 <= i < vals.len() && 0 <= j < vals.len() && (#[trigger] vals[i]) is Some && (
        #[trigger] vals[j]) is Some && vals[i] != vals[j] {
        let (i, j) = choose|i: int, j: int|
            0 <= i < vals.len() && 0 <= j < vals.len() && (#[trigger] vals[i]) is Some && (
            #[trigger] vals[j]) is Some && vals[i] != vals[j];
        let a = lemma_is_present(vals, i);
        let b = lemma_is_present(vals, j);
        let vs = present(vals);
        assert(vs[a] != vs[b]);
        assert(vs[a] != vs[0] || vs[b] != vs[0]);
    }
}

proof fn lemma_none_present<T>(vals: Seq<Option<T>>)
    requires
        forall|i: int| 0 <= i < vals.len() ==> (#[trigger] vals[i]) is None,
    ensures
        present(vals).len() == 0,
    decreases vals.len(),
{
    if vals.len() > 0 {
        assert(vals.last() == vals[vals.len() - 1]);
        assert forall|i: int| 0 <= i < vals.drop_last().len() implies (
        #[trigger] vals.drop_last()[i]) is None by {
            assert(vals.drop_last()[i] == vals[i]);
        }
        lemma_none_present(vals.drop_last());
    }
}

proof fn lemma_all_present<T>(vals: Seq<Option<T>>, v: T)
    requires
        forall|i: int| 0 <= i < vals.len() ==> (#[trigger] vals[i]) is None || vals[i] == Some(v),
    ensures
        forall|k: int| 0 <= k < present(vals).len() ==> #[trigger] present(vals)[k] == v,
    decreases vals.len(),
{
    if vals.len() > 0 {
        assert(vals.last() == vals[vals.len() - 1]);
        assert forall|i: int| 0 <= i < vals.drop_last().len() implies (
        #[trigger] vals.drop_last()[i]) is None || vals.drop_last()[i] == Some(v) by {
            assert(vals.drop_last()[i] == vals[i]);
        }
        lemma_all_present(vals.drop_last(), v);
        let rest = present(vals.drop_last());
        assert forall|k: int| 0 <= k < present(vals).len() implies #[trigger] present(vals)[k]
            == v by {
            assert(k < rest.len() ==> rest[k] == v);
        }
    }
}

proof fn lemma_is_present<T>(vals: Seq<Option<T>>, i: int) -> (k: int)
    requires
        0 <= i < vals.len(),
        vals[i] is Some,
    ensures
        0 <= k < present(vals).len(),
        Some(present(vals)[k]) == vals[i],
    decreases vals.len(),
{
    if i == vals.len() - 1 {
        present(vals).len() - 1
    } else {
        assert(vals.drop_last()[i] == vals[i]);
        lemma_is_present(vals.drop_last(), i)
    }
}

// ---- Numbers ----

/// A text of digits is read in the decimal system, and a sign in front turns
/// it; the number taken is the nearest in the field's range.
pub proof fn law_numbers_are_decimal(s: Seq<char>, d: char, range: (i64, i64), n: int)
    requires
        all_digits(s),
        s.len() > 0,
        is_digit(d),
        range.0 <= range.1,
    ensures
        digits_value(s.push(d)) == 10 * digits_value(s) + (d as int - '0' as int),
        spelled_number(s) == Some(digits_value(s)),
        spelled_number(seq!['-'] + s) == Some(-digits_value(s)),
        spelled_number(seq!['+'] + s) == Some(digits_value(s)),
        range.0 <= n <= range.1 ==> kept_within(n, range) == n,
        n < range.0 ==> kept_within(n, range) == range.0,
        n > range.1 ==> kept_within(n, range) == range.1,
{
    assert(s.push(d).drop_last() =~= s);
    assert(is_digit(s[0]));
    let minus = seq!['-'] + s;
    let plus = seq!['+'] + s;
    assert(minus.drop_first() =~= s);
    assert(plus.drop_first() =~= s);
}

// ---- Pixels ----

/// A stroke's pixel has the stroke's color and is as opaque as it is covered.
pub proof fn law_ink_has_color_and_cover(cover: u32, color: u32)
    requires
        cover < 256,
        color < 0x100_0000,
    ensures
        inked(cover, color) == cover * 0x100_0000 + color,
{
    assert((((cover & 0xff) << 24u32) | (color & 0x00FF_FFFF)) == cover * 0x100_0000 + color)
        by (bit_vector)
        requires
            cover < 256,
            color < 0x100_0000,
    ;
}

/// A stroke's picture is its points' box and, on every side, half the
/// thickness and two pixels more; a point keeps its place relative to it.
pub proof fn law_stroke_has_room(points: Seq<(i64, i64)>, thick: int, i: int)
    requires
        0 <= i < points.len(),
        thick >= 1,
        crate::stroke::stroke_fits(points, thick),
    ensures
        ({
            let (ox, oy, w, h) = stroke_area(points, thick);
            let pad = thick / 2 + 2;
            let p = local_points(points, ox, oy)[i];
            &&& p.0 + ox == points[i].0 && p.1 + oy == points[i].1
            &&& pad <= p.0 && p.0 + pad <= w
            &&& pad <= p.1 && p.1 + pad <= h
        }),
{
    lemma_points_box(points, i);
}

/// Merged pictures cover their common box, at least one pixel each way.
pub proof fn law_merged_picture_is_the_box(b: (i64, i64, i64, i64))
    requires
        b.0 < b.2,
        b.1 < b.3,
    ensures
        ({
            let (x, y, w, h) = merged_area(b);
            x == b.0 && y == b.1 && x + w == b.2 && y + h == b.3
        }),
{
}

/// The checkerboard's squares are ten pixels a side, and neighbors differ.
pub proof fn law_checkerboard_alternates(x: int, y: int)
    requires
        0 <= x,
        0 <= y,
    ensures
        check_color(x, y) == 0x001C_1C1Cu32 || check_color(x, y) == 0x0026_2626u32,
        check_color(x + 10, y) != check_color(x, y),
        check_color(x, y + 10) != check_color(x, y),
        x % 10 < 9 ==> check_color(x + 1, y) == check_color(x, y),
        y % 10 < 9 ==> check_color(x, y + 1) == check_color(x, y),
        x < 10 && y < 10 ==> check_color(x, y) == 0x001C_1C1Cu32,
{
    assert((x + 10) / 10 == x / 10 + 1);
    assert((y + 10) / 10 == y / 10 + 1);
    if x % 10 < 9 {
        assert((x + 1) / 10 == x / 10);
    }
    if y % 10 < 9 {
        assert((y + 1) / 10 == y / 10);
    }
}

/// A guide holds the pixels between its edges, whichever corner it was drawn
/// from.
pub proof fn law_guide_holds_its_inside(g: (i64, i64, i64, i64), x: int, y: int)
    ensures
        g.0 <= g.2 && g.1 <= g.3 ==> (in_guide(g, x, y) <==> g.0 <= x < g.2 && g.1 <= y < g.3),
        in_guide(g, x, y) == in_guide((g.2, g.1, g.0, g.3), x, y),
        in_guide(g, x, y) == in_guide((g.0, g.3, g.2, g.1), x, y),
{
}

/// A picture is sampled at the pixel that is named, and beside the picture at
/// the nearest one.
pub proof fn law_sample_is_the_nearest_pixel(
    pixels: Seq<u32>,
    sw: int,
    sh: int,
    s: (i64, i64),
    clip: Rect,
)
    requires
        0 < sw,
        0 < sh,
        clip.nonempty(),
    ensures
        0 <= s.0 < sw && 0 <= s.1 < sh ==> source_pixel(pixels, sw, sh, s) == pixels[s.1 * sw
            + s.0],
        s.0 < 0 && 0 <= s.1 < sh ==> source_pixel(pixels, sw, sh, s) == pixels[s.1 * sw],
        s.0 >= sw && 0 <= s.1 < sh ==> source_pixel(pixels, sw, sh, s) == pixels[s.1 * sw + sw - 1],
        0 <= s.0 < sw && s.1 < 0 ==> source_pixel(pixels, sw, sh, s) == pixels[s.0 as int],
        0 <= s.0 < sw && s.1 >= sh ==> source_pixel(pixels, sw, sh, s) == pixels[(sh - 1) * sw
            + s.0],
        clip.x0 <= s.0 < clip.x1 && clip.y0 <= s.1 < clip.y1 ==> sampled(pixels, sw, clip, s)
            == pixels[s.1 * sw + s.0],
        s.0 < clip.x0 && clip.y0 <= s.1 < clip.y1 ==> sampled(pixels, sw, clip, s) == pixels[s.1
            * sw + clip.x0],
        s.0 >= clip.x1 && clip.y0 <= s.1 < clip.y1 ==> sampled(pixels, sw, clip, s) == pixels[s.1
            * sw + clip.x1 - 1],
{
    assert(0 * sw == 0) by (nonlinear_arith);
}

// ---- Settings ----

/// Saved settings are what the settings screen shows, each in its place.
pub proof fn law_settings_are_saved_as_shown<U>(s: SavedSettings<U>, kept: KeptConfig)
    ensures
        ({
            let c = s.config(kept);
            &&& c.save_dir_png == s.save_dir_png
            &&& c.save_dir_mp4 == s.save_dir_mp4
            &&& c.save_dir_gif == s.save_dir_gif
            &&& c.external_editor == s.external_editor
            &&& c.record_show_cursor == s.record_show_cursor
            &&& c.record_bitrate_mbps == s.record_bitrate_mbps
            &&& c.record_max_width == s.record_max_width
            &&& c.record_max_height == s.record_max_height
            &&& c.record_show_click_ripple == s.record_show_click_ripple
            &&& c.record_click_color_left == s.record_click_color_left
            &&& c.record_click_color_right == s.record_click_color_right
            &&& c.record_audio_output_device == s.record_audio_output_device
            &&& c.record_audio_input_device == s.record_audio_input_device
            &&& c.record_audio_sample_rate == s.record_audio_sample_rate
            &&& c.record_strip_silent_audio == s.record_strip_silent_audio
            &&& c.session_history_limit == s.session_history_limit
            &&& c.launch_at_startup == s.launch_at_startup
            &&& c.filename_format == s.filename_format
            &&& c.kept == kept
        }),
        ({
            let h = s.hotkeys();
            &&& h.hotkey == s.hotkey
            &&& h.hotkey_undo == s.hotkey_undo
            &&& h.hotkey_redo == s.hotkey_redo
            &&& h.hotkey_reuse_region == s.hotkey_reuse_region
            &&& h.hotkey_clear_selection == s.hotkey_clear_selection
            &&& h.hotkey_save_as == s.hotkey_save_as
            &&& h.hotkey_edit_external == s.hotkey_edit_external
            &&& h.hotkey_quit == s.hotkey_quit
            &&& h.hotkey_menu_save == s.hotkey_menu_save
            &&& h.hotkey_menu_copy == s.hotkey_menu_copy
            &&& h.hotkey_menu_edit == s.hotkey_menu_edit
            &&& h.hotkey_menu_upload == s.hotkey_menu_upload
            &&& h.hotkey_menu_record == s.hotkey_menu_record
            &&& h.hotkey_editor_reset_zoom == s.hotkey_editor_reset_zoom
            &&& h.hotkey_editor_tool_select == s.hotkey_editor_tool_select
            &&& h.hotkey_editor_tool_arrow == s.hotkey_editor_tool_arrow
            &&& h.hotkey_editor_tool_polyline == s.hotkey_editor_tool_polyline
            &&& h.hotkey_editor_tool_draw == s.hotkey_editor_tool_draw
            &&& h.hotkey_editor_tool_rect == s.hotkey_editor_tool_rect
            &&& h.hotkey_editor_tool_ellipse == s.hotkey_editor_tool_ellipse
            &&& h.hotkey_editor_tool_text == s.hotkey_editor_tool_text
            &&& h.hotkey_editor_tool_number_marker == s.hotkey_editor_tool_number_marker
        }),
{
}

// ---- The resident program ----

/// A capture can start while none runs. Beside a recording, or one being
/// prepared, one screenshot can be taken; while a region is being selected
/// nothing starts.
pub proof fn law_one_capture_at_a_time(app: AppModel, m: OverlayModel)
    ensures
        app.session is None ==> app.startable() == Start::Main,
        app.session == Some(m) && m.scene.mode == Mode::Selecting ==> app.startable() == Start::No,
        app.session == Some(m) && m.scene.mode != Mode::Selecting && app.shot is None
            ==> app.startable() == Start::Shot,
        app.session is Some && app.shot is Some ==> app.startable() == Start::No,
{
}

/// The addresses of uploads are listed in their order, one a line.
pub proof fn law_addresses_are_listed(texts: Seq<String>, n: int)
    requires
        1 <= n < texts.len(),
    ensures
        lines_of(texts, 1) == texts[0]@,
        ({
            let shorter = lines_of(texts, n);
            let all = lines_of(texts, n + 1);
            &&& all.len() == shorter.len() + 1 + texts[n]@.len()
            &&& all.take(shorter.len() as int) == shorter
            &&& all[shorter.len() as int] == '\n'
            &&& all.skip(shorter.len() + 1int) == texts[n]@
        }),
{
    let shorter = lines_of(texts, n);
    let all = lines_of(texts, n + 1);
    assert(all == shorter.push('\n') + texts[n]@);
    assert(all.take(shorter.len() as int) =~= shorter);
    assert(all.skip(shorter.len() + 1int) =~= texts[n]@);
}

// ---- The editor's events ----

/// The left button presses and releases, the middle one pans, a key that goes
/// down is a key, and closing the window closes the session; a motion pans
/// while the picture is grabbed, else drags the picker, else the edit in
/// progress, else only hovers.
pub proof fn law_events_mean_what_they_say<F, S>(m: Model<F, S>, panning: bool)
    ensures
        m.turn(EditorEvent::Close, panning) == Turn::Close,
        m.turn(EditorEvent::LeftButton { down: true }, panning) == Turn::Press,
        m.turn(EditorEvent::LeftButton { down: false }, panning) == Turn::Release,
        m.turn(EditorEvent::MiddleButton { down: true }, panning) == Turn::PanStart,
        m.turn(EditorEvent::MiddleButton { down: false }, panning) == Turn::PanEnd,
        m.turn(EditorEvent::Key { down: true }, panning) == Turn::Key,
        m.turn(EditorEvent::Key { down: false }, panning) == Turn::Nothing,
        m.turn(EditorEvent::Wheel { turned: true }, panning) == Turn::Zoom,
        m.turn(EditorEvent::Wheel { turned: false }, panning) == Turn::Nothing,
        m.turn(EditorEvent::Dropped, panning) == Turn::Drop,
        m.turn(EditorEvent::Redraw, panning) == Turn::Draw,
        m.turn(EditorEvent::Moved, true) == Turn::Pan,
        m.picker_drag is Some ==> m.turn(EditorEvent::Moved, false) == Turn::Pick,
        m.picker_drag is None && !(m.edit is Idle) ==> m.turn(EditorEvent::Moved, false)
            == Turn::Edit,
        m.picker_drag is None && m.edit is Idle ==> m.turn(EditorEvent::Moved, false)
            == Turn::Hover,
{
}

/// The modifier keys are known as they are held. What the input method commits
/// is put behind the text being typed, and what it only shows is not.
pub proof fn law_input_method_commits_text<F, S>(
    m: Model<F, S>,
    ctrl: bool,
    shift: bool,
    alt: bool,
    text: String,
    pos: (i64, i64),
    buf: Seq<char>,
    panning: bool,
)
    ensures
        ({
            let after = m.after_event(EditorEvent::Modifiers { ctrl, shift, alt }, panning);
            after.ctrl == ctrl && after.shift == shift && after.alt == alt && after.items == m.items
        }),
        m.editing == Some((pos, buf)) ==> ({
            let after = m.after_event(EditorEvent::ImeCommit(text), panning);
            after.editing == Some((pos, buf + text@)) && after.ime_preedit.len() == 0
        }),
        ({
            let after = m.after_event(EditorEvent::ImePreedit(text), panning);
            after.ime_preedit == text@ && after.editing == m.editing
        }),
        m.after_event(EditorEvent::ImeDisabled, panning).ime_preedit.len() == 0,
{
}

} // verus!

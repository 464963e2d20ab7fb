//! What moving, resizing, turning, restyling and dragging do to an item, kind
//! by kind.

use vstd::prelude::*;

use crate::annotation::{Handle, Item, MosaicMode};
use crate::drag::{Follow, Ratio};
use crate::editor::{Drag, Model};
use crate::pure::{result, result2};
use crate::style::Restyle;
use crate::transform::{item_movable, point_movable, rotated, scaled, translated};

verus! {

// ---- Moving ----

/// A move moves every point of an item by `(dx, dy)`, and every edge of a
/// display rectangle by what `shift` makes of it, to the right by `dx` and
/// down by `dy`. Everything else about the item stays.
pub proof fn law_move_moves_every_point<F, S, P: Fn(F, i64) -> F>(
    shift: P,
    a: Item<F, S>,
    b: Item<F, S>,
    dx: i64,
    dy: i64,
)
    requires
        item_movable(a, dx as int, dy as int),
        translated(shift, a, b, dx, dy),
    ensures
        match a {
            Item::Arrow { a: p, b: q, color, thick } => b matches Item::Arrow {
                a: p1,
                b: q1,
                color: c1,
                thick: t1,
            } && p1.0 == p.0 + dx && p1.1 == p.1 + dy && q1.0 == q.0 + dx && q1.1 == q.1 + dy && c1
                == color && t1 == thick,
            Item::Polyline { points, color, thick } => b matches Item::Polyline {
                points: ps,
                color: c1,
                thick: t1,
            } && ps.len() == points.len() && c1 == color && t1 == thick && forall|i: int|
                0 <= i < points.len() ==> (#[trigger] ps[i]).0 == points[i].0 + dx && ps[i].1
                    == points[i].1 + dy,
            Item::Text { pos, text, color, size, rot } => b matches Item::Text {
                pos: p1,
                text: t1,
                color: c1,
                size: s1,
                rot: r1,
            } && p1.0 == pos.0 + dx && p1.1 == pos.1 + dy && t1 == text && c1 == color && s1 == size
                && r1 == rot,
            Item::NumberMarker { pos, number, color, size } => b matches Item::NumberMarker {
                pos: p1,
                number: n1,
                color: c1,
                size: s1,
            } && p1.0 == pos.0 + dx && p1.1 == pos.1 + dy && n1 == number && c1 == color && s1
                == size,
            Item::Guide { r } => b matches Item::Guide { r: q } && q.0 == r.0 + dx && q.1 == r.1
                + dy && q.2 == r.2 + dx && q.3 == r.3 + dy,
            Item::Rect { r, color, thick, rot, filled } => b matches Item::Rect {
                r: q,
                color: c1,
                thick: t1,
                rot: r1,
                filled: f1,
            } && call_ensures(shift, (r.0, dx), q.0) && call_ensures(shift, (r.1, dy), q.1)
                && call_ensures(shift, (r.2, dx), q.2) && call_ensures(shift, (r.3, dy), q.3) && c1
                == color && t1 == thick && r1 == rot && f1 == filled,
            Item::Ellipse { r, color, thick, rot, filled } => b matches Item::Ellipse {
                r: q,
                color: c1,
                thick: t1,
                rot: r1,
                filled: f1,
            } && call_ensures(shift, (r.0, dx), q.0) && call_ensures(shift, (r.1, dy), q.1)
                && call_ensures(shift, (r.2, dx), q.2) && call_ensures(shift, (r.3, dy), q.3) && c1
                == color && t1 == thick && r1 == rot && f1 == filled,
            Item::Image { r, src_w, src_h, pixels, rot } => b matches Item::Image {
                r: q,
                src_w: w1,
                src_h: h1,
                pixels: px1,
                rot: r1,
            } && call_ensures(shift, (r.0, dx), q.0) && call_ensures(shift, (r.1, dy), q.1)
                && call_ensures(shift, (r.2, dx), q.2) && call_ensures(shift, (r.3, dy), q.3) && w1
                == src_w && h1 == src_h && px1 == pixels && r1 == rot,
            Item::Mosaic { r, rot, block, mode, seed } => b matches Item::Mosaic {
                r: q,
                rot: r1,
                block: b1,
                mode: m1,
                seed: s1,
            } && call_ensures(shift, (r.0, dx), q.0) && call_ensures(shift, (r.1, dy), q.1)
                && call_ensures(shift, (r.2, dx), q.2) && call_ensures(shift, (r.3, dy), q.3) && r1
                == rot && b1 == block && m1 == mode && s1 == seed,
        },
{
    if let Item::Polyline { points, .. } = a {
        assert forall|i: int| 0 <= i < points.len() implies point_movable(
            #[trigger] points[i],
            dx as int,
            dy as int,
        ) by {}
        assert(b is Polyline);
        assert forall|i: int| 0 <= i < points.len() implies (#[trigger] b->Polyline_points[i]).0
            == points[i].0 + dx && b->Polyline_points[i].1 == points[i].1 + dy by {
            assert(point_movable(points[i], dx as int, dy as int));
        }
    }
}

// ---- Resizing ----

/// Resizing takes every point of an item where `point` takes it, every
/// display rectangle where `rect` takes it at the item's angle, and the size
/// of a text and of a marker alike to what `size` makes of it. Everything
/// else about the item stays.
pub proof fn law_resize_takes_everything_along<F, S, G, R, Z>(
    point: G,
    rect: R,
    size: Z,
    with_guide: bool,
    a: Item<F, S>,
    b: Item<F, S>,
) where
    G: Fn((i64, i64)) -> (i64, i64),
    R: Fn((F, F, F, F), F) -> (F, F, F, F),
    Z: Fn(S) -> S,

    requires
        scaled(point, rect, size, with_guide, a, b),
    ensures
        match a {
            Item::Arrow { a: p, b: q, color, thick } => b matches Item::Arrow {
                a: p1,
                b: q1,
                color: c1,
                thick: t1,
            } && call_ensures(point, (p,), p1) && call_ensures(point, (q,), q1) && c1 == color && t1
                == thick,
            Item::Polyline { points, color, thick } => b matches Item::Polyline {
                points: ps,
                color: c1,
                thick: t1,
            } && ps.len() == points.len() && c1 == color && t1 == thick && forall|i: int|
                0 <= i < points.len() ==> call_ensures(point, (points[i],), #[trigger] ps[i]),
            Item::Text { pos, text, color, size: s0, rot } => b matches Item::Text {
                pos: p1,
                text: t1,
                color: c1,
                size: s1,
                rot: r1,
            } && call_ensures(point, (pos,), p1) && call_ensures(size, (s0,), s1) && t1 == text && c1
                == color && r1 == rot,
            Item::NumberMarker { pos, number, color, size: s0 } => b matches Item::NumberMarker {
                pos: p1,
                number: n1,
                color: c1,
                size: s1,
            } && call_ensures(point, (pos,), p1) && call_ensures(size, (s0,), s1) && n1 == number
                && c1 == color,
            Item::Guide { r } => b matches Item::Guide { r: q } && (if with_guide {
                call_ensures(point, ((r.0, r.1),), (q.0, q.1)) && call_ensures(
                    point,
                    ((r.2, r.3),),
                    (q.2, q.3),
                )
            } else {
                q == r
            }),
            Item::Rect { r, color, thick, rot, filled } => b matches Item::Rect {
                r: q,
                color: c1,
                thick: t1,
                rot: r1,
                filled: f1,
            } && call_ensures(rect, (r, rot), q) && c1 == color && t1 == thick && r1 == rot && f1
                == filled,
            Item::Ellipse { r, color, thick, rot, filled } => b matches Item::Ellipse {
                r: q,
                color: c1,
                thick: t1,
                rot: r1,
                filled: f1,
            } && call_ensures(rect, (r, rot), q) && c1 == color && t1 == thick && r1 == rot && f1
                == filled,
            Item::Image { r, src_w, src_h, pixels, rot } => b matches Item::Image {
                r: q,
                src_w: w1,
                src_h: h1,
                pixels: px1,
                rot: r1,
            } && call_ensures(rect, (r, rot), q) && w1 == src_w && h1 == src_h && px1 == pixels && r1
                == rot,
            Item::Mosaic { r, rot, block, mode, seed } => b matches Item::Mosaic {
                r: q,
                rot: r1,
                block: b1,
                mode: m1,
                seed: s1,
            } && call_ensures(rect, (r, rot), q) && r1 == rot && b1 == block && m1 == mode && s1
                == seed,
        },
{
}

// ---- Turning ----

/// Turning takes every point of a line and of a marker where `point` takes
/// it, a display rectangle where `orbit` takes it, a text to `text_at`, and
/// every angle to what `turn` makes of it. A marker stays upright, the guide
/// stays where it is, and everything else about the item stays.
pub proof fn law_turn_takes_everything_along<F, S, G, R, T>(
    point: G,
    orbit: R,
    turn: T,
    text_at: (i64, i64),
    a: Item<F, S>,
    b: Item<F, S>,
) where
    G: Fn((i64, i64)) -> (i64, i64),
    R: Fn((F, F, F, F)) -> (F, F, F, F),
    T: Fn(F) -> F,

    requires
        rotated(point, orbit, turn, text_at, a, b),
    ensures
        match a {
            Item::Arrow { a: p, b: q, color, thick } => b matches Item::Arrow {
                a: p1,
                b: q1,
                color: c1,
                thick: t1,
            } && call_ensures(point, (p,), p1) && call_ensures(point, (q,), q1) && c1 == color && t1
                == thick,
            Item::Polyline { points, color, thick } => b matches Item::Polyline {
                points: ps,
                color: c1,
                thick: t1,
            } && ps.len() == points.len() && c1 == color && t1 == thick && forall|i: int|
                0 <= i < points.len() ==> call_ensures(point, (points[i],), #[trigger] ps[i]),
            Item::Text { pos, text, color, size, rot } => b matches Item::Text {
                pos: p1,
                text: t1,
                color: c1,
                size: s1,
                rot: r1,
            } && p1 == text_at && call_ensures(turn, (rot,), r1) && t1 == text && c1 == color && s1
                == size,
            Item::NumberMarker { pos, number, color, size } => b matches Item::NumberMarker {
                pos: p1,
                number: n1,
                color: c1,
                size: s1,
            } && call_ensures(point, (pos,), p1) && n1 == number && c1 == color && s1 == size,
            Item::Guide { r } => b == a,
            Item::Rect { r, color, thick, rot, filled } => b matches Item::Rect {
                r: q,
                color: c1,
                thick: t1,
                rot: r1,
                filled: f1,
            } && call_ensures(orbit, (r,), q) && call_ensures(turn, (rot,), r1) && c1 == color && t1
                == thick && f1 == filled,
            Item::Ellipse { r, color, thick, rot, filled } => b matches Item::Ellipse {
                r: q,
                color: c1,
                thick: t1,
                rot: r1,
                filled: f1,
            } && call_ensures(orbit, (r,), q) && call_ensures(turn, (rot,), r1) && c1 == color && t1
                == thick && f1 == filled,
            Item::Image { r, src_w, src_h, pixels, rot } => b matches Item::Image {
                r: q,
                src_w: w1,
                src_h: h1,
                pixels: px1,
                rot: r1,
            } && call_ensures(orbit, (r,), q) && call_ensures(turn, (rot,), r1) && w1 == src_w && h1
                == src_h && px1 == pixels,
            Item::Mosaic { r, rot, block, mode, seed } => b matches Item::Mosaic {
                r: q,
                rot: r1,
                block: b1,
                mode: m1,
                seed: s1,
            } && call_ensures(orbit, (r,), q) && call_ensures(turn, (rot,), r1) && b1 == block && m1
                == mode && s1 == seed,
        },
{
}

// ---- Restyling ----

/// A change of color colors every line, shape, text and marker, and nothing
/// else of it; a picture, a mosaic and a guide have no color.
pub proof fn law_color_colors<F, S>(a: Item<F, S>, c: u32)
    ensures
        ({
            let b = Restyle::<S>::Color(c).of(a);
            match a {
                Item::Arrow { a: p, b: q, thick, .. } => b == (Item::<F, S>::Arrow {
                    a: p,
                    b: q,
                    color: c,
                    thick,
                }),
                Item::Polyline { points, thick, .. } => b == (Item::<F, S>::Polyline {
                    points,
                    color: c,
                    thick,
                }),
                Item::Rect { r, thick, rot, filled, .. } => b == (Item::<F, S>::Rect {
                    r,
                    color: c,
                    thick,
                    rot,
                    filled,
                }),
                Item::Ellipse { r, thick, rot, filled, .. } => b == (Item::<F, S>::Ellipse {
                    r,
                    color: c,
                    thick,
                    rot,
                    filled,
                }),
                Item::Text { pos, text, size, rot, .. } => b == (Item::<F, S>::Text {
                    pos,
                    text,
                    color: c,
                    size,
                    rot,
                }),
                Item::NumberMarker { pos, number, size, .. } => b == (Item::<F, S>::NumberMarker {
                    pos,
                    number,
                    color: c,
                    size,
                }),
                _ => b == a,
            }
        }),
{
}

/// A change of thickness reaches every line and shape, a change of fill every
/// shape, and nothing else of it.
pub proof fn law_thickness_and_fill<F, S>(a: Item<F, S>, t: i64, f: bool)
    ensures
        ({
            let b = Restyle::<S>::Thick(t).of(a);
            match a {
                Item::Arrow { a: p, b: q, color, .. } => b == (Item::<F, S>::Arrow {
                    a: p,
                    b: q,
                    color,
                    thick: t,
                }),
                Item::Polyline { points, color, .. } => b == (Item::<F, S>::Polyline {
                    points,
                    color,
                    thick: t,
                }),
                Item::Rect { r, color, rot, filled, .. } => b == (Item::<F, S>::Rect {
                    r,
                    color,
                    thick: t,
                    rot,
                    filled,
                }),
                Item::Ellipse { r, color, rot, filled, .. } => b == (Item::<F, S>::Ellipse {
                    r,
                    color,
                    thick: t,
                    rot,
                    filled,
                }),
                _ => b == a,
            }
        }),
        ({
            let b = Restyle::<S>::Filled(f).of(a);
            match a {
                Item::Rect { r, color, thick, rot, .. } => b == (Item::<F, S>::Rect {
                    r,
                    color,
                    thick,
                    rot,
                    filled: f,
                }),
                Item::Ellipse { r, color, thick, rot, .. } => b == (Item::<F, S>::Ellipse {
                    r,
                    color,
                    thick,
                    rot,
                    filled: f,
                }),
                _ => b == a,
            }
        }),
{
}

/// A change of size reaches every text and marker; a change of the block
/// length and of blurring every mosaic; and nothing else of it.
pub proof fn law_size_and_mosaic<F, S>(a: Item<F, S>, s: S, blur: bool)
    ensures
        ({
            let b = Restyle::<S>::Size(s).of(a);
            match a {
                Item::Text { pos, text, color, rot, .. } => b == (Item::<F, S>::Text {
                    pos,
                    text,
                    color,
                    size: s,
                    rot,
                }),
                Item::NumberMarker { pos, number, color, .. } => b == (Item::<F, S>::NumberMarker {
                    pos,
                    number,
                    color,
                    size: s,
                }),
                _ => b == a,
            }
        }),
        ({
            let b = Restyle::<S>::Block(s).of(a);
            match a {
                Item::Mosaic { r, rot, mode, seed, .. } => b == (Item::<F, S>::Mosaic {
                    r,
                    rot,
                    block: s,
                    mode,
                    seed,
                }),
                _ => b == a,
            }
        }),
        ({
            let b = Restyle::<S>::Blur(blur).of(a);
            match a {
                Item::Mosaic { r, rot, block, mode, seed } => b matches Item::Mosaic {
                    r: q,
                    rot: r1,
                    block: b1,
                    mode: m1,
                    seed: s1,
                } && q == r && r1 == rot && b1 == block && s1 == seed && (m1 == MosaicMode::Blur
                    <==> blur),
                _ => b == a,
            }
        }),
{
}

/// A change of style sets the one property of new items that it names, and
/// leaves the other five.
pub proof fn law_new_items_take_the_style<F, S>(
    m: Model<F, S>,
    c: u32,
    t: i64,
    s: S,
    f: bool,
)
    ensures
        ({
            let n = m.restyle(Restyle::Color(c)).style;
            n.color == c && n.thick == m.style.thick && n.size == m.style.size && n.filled
                == m.style.filled && n.block == m.style.block && n.blur == m.style.blur
        }),
        ({
            let n = m.restyle(Restyle::Thick(t)).style;
            n.color == m.style.color && n.thick == t && n.size == m.style.size && n.filled
                == m.style.filled && n.block == m.style.block && n.blur == m.style.blur
        }),
        ({
            let n = m.restyle(Restyle::Size(s)).style;
            n.color == m.style.color && n.thick == m.style.thick && n.size == s && n.filled
                == m.style.filled && n.block == m.style.block && n.blur == m.style.blur
        }),
        ({
            let n = m.restyle(Restyle::Filled(f)).style;
            n.color == m.style.color && n.thick == m.style.thick && n.size == m.style.size
                && n.filled == f && n.block == m.style.block && n.blur == m.style.blur
        }),
        ({
            let n = m.restyle(Restyle::Block(s)).style;
            n.color == m.style.color && n.thick == m.style.thick && n.size == m.style.size
                && n.filled == m.style.filled && n.block == s && n.blur == m.style.blur
        }),
        ({
            let n = m.restyle(Restyle::Blur(f)).style;
            n.color == m.style.color && n.thick == m.style.thick && n.size == m.style.size
                && n.filled == m.style.filled && n.block == m.style.block && n.blur == f
        }),
{
}

/// A change of style reaches every selected item and no other.
pub proof fn law_restyle_reaches_the_selected<F, S>(m: Model<F, S>, change: Restyle<S>, i: int)
    requires
        0 <= i < m.items.len(),
    ensures
        m.restyle(change).items.len() == m.items.len(),
        (exists|t: int| 0 <= t < m.selected.len() && #[trigger] m.selected[t] == i)
            ==> m.restyle(change).items[i] == change.of(m.items[i]),
        (forall|t: int| 0 <= t < m.selected.len() ==> #[trigger] m.selected[t] != i)
            ==> m.restyle(change).items[i] == m.items[i],
        m.restyle(change).selected == m.selected,
{
}

// ---- Dragging ----

/// A dragged arrow end goes to the pointer; the other end, the color and the
/// thickness stay.
pub proof fn law_arrow_end_follows<F, S, P, R, A, G>(
    m: Model<F, S>,
    i: usize,
    from: (i64, i64),
    to: (i64, i64),
    color: u32,
    thick: i64,
    tip: bool,
    p: (i64, i64),
    shift: P,
    resize: R,
    aim: A,
    swing: G,
) where
    P: Fn(F, i64) -> F,
    R: Fn(((F, F, F, F), Handle, F, Ratio)) -> (F, F, F, F),
    A: Fn(((F, F), bool)) -> Option<F>,
    G: Fn(((F, F), F, bool)) -> F,

    requires
        m.selected == seq![i],
        i < m.items.len(),
        m.items[i as int] == (Item::<F, S>::Arrow { a: from, b: to, color, thick }),
        m.edit == (Drag::<F, S>::ArrowEnd { end_b: tip }),
    ensures
        m.apply_edit(p, shift, resize, aim, swing).0.items == m.items.update(
            i as int,
            if tip {
                Item::Arrow { a: from, b: p, color, thick }
            } else {
                Item::Arrow { a: p, b: to, color, thick }
            },
        ),
{
}

/// A dragged vertex goes to the pointer; the other vertices stay.
pub proof fn law_vertex_follows<F, S, P, R, A, G>(
    m: Model<F, S>,
    i: usize,
    points: Seq<(i64, i64)>,
    color: u32,
    thick: i64,
    k: usize,
    p: (i64, i64),
    shift: P,
    resize: R,
    aim: A,
    swing: G,
) where
    P: Fn(F, i64) -> F,
    R: Fn(((F, F, F, F), Handle, F, Ratio)) -> (F, F, F, F),
    A: Fn(((F, F), bool)) -> Option<F>,
    G: Fn(((F, F), F, bool)) -> F,

    requires
        m.selected == seq![i],
        i < m.items.len(),
        k < points.len(),
        m.items[i as int] == (Item::<F, S>::Polyline { points, color, thick }),
        m.edit == (Drag::<F, S>::PolylinePoint { index: k }),
    ensures
        m.apply_edit(p, shift, resize, aim, swing).0.items[i as int] matches Item::Polyline {
            points: after,
            color: c,
            thick: t,
        } && c == color && t == thick && after.len() == points.len() && after[k as int] == p
            && forall|j: int| 0 <= j < points.len() && j != k ==> #[trigger] after[j] == points[j],
{
}

/// A dragged item is where it was when grabbed, moved by the way of the
/// pointer: written out for an arrow, a text, a marker and a guide. With
/// Shift it moves along the longer way only.
pub proof fn law_dragged_item_follows<F, S, P, R, A, G>(
    m: Model<F, S>,
    i: usize,
    grab: (i64, i64),
    orig: Item<F, S>,
    p: (i64, i64),
    shift: P,
    resize: R,
    aim: A,
    swing: G,
) where
    P: Fn(F, i64) -> F,
    R: Fn(((F, F, F, F), Handle, F, Ratio)) -> (F, F, F, F),
    A: Fn(((F, F), bool)) -> Option<F>,
    G: Fn(((F, F), F, bool)) -> F,

    requires
        m.selected == seq![i],
        i < m.items.len(),
        m.edit == (Drag::<F, S>::Move { grab, orig }),
        m.edit_fits(p),
    ensures
        ({
            let wide = p.0 - grab.0;
            let high = p.1 - grab.1;
            let along = (if wide < 0 {
                -wide
            } else {
                wide
            }) >= (if high < 0 {
                -high
            } else {
                high
            });
            let dx = if m.shift && !along {
                0
            } else {
                wide
            };
            let dy = if m.shift && along {
                0
            } else {
                high
            };
            let after = m.apply_edit(p, shift, resize, aim, swing).0.items;
            &&& after.len() == m.items.len()
            &&& forall|j: int| 0 <= j < after.len() && j != i ==> #[trigger] after[j] == m.items[j]
            &&& match orig {
                Item::Arrow { a, b, color, thick } => after[i as int] matches Item::Arrow {
                    a: a1,
                    b: b1,
                    color: c1,
                    thick: t1,
                } && a1.0 == a.0 + dx && a1.1 == a.1 + dy && b1.0 == b.0 + dx && b1.1 == b.1 + dy
                    && c1 == color && t1 == thick,
                Item::Text { pos, text, .. } => after[i as int] matches Item::Text {
                    pos: p1,
                    text: t1,
                    ..
                } && p1.0 == pos.0 + dx && p1.1 == pos.1 + dy && t1 == text,
                Item::NumberMarker { pos, number, .. } => after[i as int] matches Item::NumberMarker {
                    pos: p1,
                    number: n1,
                    ..
                } && p1.0 == pos.0 + dx && p1.1 == pos.1 + dy && n1 == number,
                Item::Guide { r } => after[i as int] matches Item::Guide { r: q } && q.0 == r.0 + dx
                    && q.1 == r.1 + dy && q.2 == r.2 + dx && q.3 == r.3 + dy,
                Item::Rect { r, .. } => after[i as int] matches Item::Rect { r: q, .. } && q == (
                    result2(shift, r.0, dx as i64),
                    result2(shift, r.1, dy as i64),
                    result2(shift, r.2, dx as i64),
                    result2(shift, r.3, dy as i64),
                ),
                _ => true,
            }
        }),
{
}

/// A dragged handle of the guide pulls the edges it belongs to and no other:
/// a corner stretches the box between the pointer and the opposite corner, and
/// an edge moves alone.
pub proof fn law_guide_handle_pulls<F, S, P, R, A, G>(
    m: Model<F, S>,
    i: usize,
    r: (i64, i64, i64, i64),
    h: Handle,
    o: (i64, i64, i64, i64),
    p: (i64, i64),
    shift: P,
    resize: R,
    aim: A,
    swing: G,
) where
    P: Fn(F, i64) -> F,
    R: Fn(((F, F, F, F), Handle, F, Ratio)) -> (F, F, F, F),
    A: Fn(((F, F), bool)) -> Option<F>,
    G: Fn(((F, F), F, bool)) -> F,

    requires
        m.selected == seq![i],
        i < m.items.len(),
        m.items[i as int] == (Item::<F, S>::Guide { r }),
        m.edit == (Drag::<F, S>::RectHandle { h, orig: o }),
    ensures
        ({
            let fixed_x = match h {
                Handle::TopLeft | Handle::Left | Handle::BottomLeft => o.2,
                _ => o.0,
            };
            let fixed_y = match h {
                Handle::TopLeft | Handle::Top | Handle::TopRight => o.3,
                _ => o.1,
            };
            let x = match h {
                Handle::Top | Handle::Bottom => o.2,
                _ => p.0,
            };
            let y = match h {
                Handle::Left | Handle::Right => o.3,
                _ => p.1,
            };
            m.apply_edit(p, shift, resize, aim, swing).0.items[i as int] matches Item::Guide {
                r: q,
            } && q.0 <= q.2 && q.1 <= q.3 && ((q.0 == fixed_x && q.2 == x) || (q.0 == x && q.2
                == fixed_x)) && ((q.1 == fixed_y && q.3 == y) || (q.1 == y && q.3 == fixed_y))
        }),
{
}

/// A dragged handle of a shape, picture or mosaic resizes its own rectangle,
/// at its own angle, and nothing else of it.
pub proof fn law_shape_handle_resizes<F, S, P, R, A, G>(
    m: Model<F, S>,
    i: usize,
    r: (F, F, F, F),
    color: u32,
    thick: i64,
    rot: F,
    filled: bool,
    h: Handle,
    o: (F, F, F, F),
    p: (i64, i64),
    shift: P,
    resize: R,
    aim: A,
    swing: G,
) where
    P: Fn(F, i64) -> F,
    R: Fn(((F, F, F, F), Handle, F, Ratio)) -> (F, F, F, F),
    A: Fn(((F, F), bool)) -> Option<F>,
    G: Fn(((F, F), F, bool)) -> F,

    requires
        m.selected == seq![i],
        i < m.items.len(),
        m.edit == (Drag::<F, S>::RotatedHandle { h, orig: o }),
    ensures
        ({
            let ratio = if m.shift {
                Ratio::Own
            } else {
                Ratio::Free
            };
            let q = result(resize, (o, h, rot, ratio));
            let after = m.apply_edit(p, shift, resize, aim, swing).0.items[i as int];
            &&& m.items[i as int] == (Item::<F, S>::Rect { r, color, thick, rot, filled }) ==> after
                == (Item::<F, S>::Rect { r: q, color, thick, rot, filled })
            &&& m.items[i as int] == (Item::<F, S>::Ellipse { r, color, thick, rot, filled })
                ==> after == (Item::<F, S>::Ellipse { r: q, color, thick, rot, filled })
            &&& forall|block: S, mode: MosaicMode, seed: u32|
                m.items[i as int] == #[trigger] mosaic::<F, S>(r, rot, block, mode, seed) ==> after
                    == mosaic::<F, S>(q, rot, block, mode, seed)
        }),
        forall|w: i64, hh: i64, pixels: Seq<u32>|
            m.items[i as int] == #[trigger] picture::<F, S>(r, w, hh, pixels, rot) && hh > 0
                ==> m.apply_edit(p, shift, resize, aim, swing).0.items[i as int] == picture::<F, S>(
                result(
                    resize,
                    (
                        o,
                        h,
                        rot,
                        if m.shift {
                            Ratio::Source(w, hh)
                        } else {
                            Ratio::Free
                        },
                    ),
                ),
                w,
                hh,
                pixels,
                rot,
            ),
{
}

/// A mosaic.
pub open spec fn mosaic<F, S>(
    r: (F, F, F, F),
    rot: F,
    block: S,
    mode: MosaicMode,
    seed: u32,
) -> Item<F, S> {
    Item::Mosaic { r, rot, block, mode, seed }
}

/// A picture.
pub open spec fn picture<F, S>(
    r: (F, F, F, F),
    src_w: i64,
    src_h: i64,
    pixels: Seq<u32>,
    rot: F,
) -> Item<F, S> {
    Item::Image { r, src_w, src_h, pixels, rot }
}

/// A dragged rotate handle turns a shape or a text to where the pointer aims,
/// and changes nothing else of it.
pub proof fn law_rotate_handle_turns<F, S, P, R, A, G>(
    m: Model<F, S>,
    i: usize,
    center: (F, F),
    angle: F,
    p: (i64, i64),
    shift: P,
    resize: R,
    aim: A,
    swing: G,
) where
    P: Fn(F, i64) -> F,
    R: Fn(((F, F, F, F), Handle, F, Ratio)) -> (F, F, F, F),
    A: Fn(((F, F), bool)) -> Option<F>,
    G: Fn(((F, F), F, bool)) -> F,

    requires
        m.selected == seq![i],
        i < m.items.len(),
        m.edit == (Drag::<F, S>::Rotate { center }),
        result(aim, (center, m.shift)) == Some(angle),
    ensures
        ({
            let after = m.apply_edit(p, shift, resize, aim, swing).0.items[i as int];
            match m.items[i as int] {
                Item::Rect { r, color, thick, filled, .. } => after == (Item::<F, S>::Rect {
                    r,
                    color,
                    thick,
                    rot: angle,
                    filled,
                }),
                Item::Ellipse { r, color, thick, filled, .. } => after == (Item::<F, S>::Ellipse {
                    r,
                    color,
                    thick,
                    rot: angle,
                    filled,
                }),
                Item::Text { pos, text, color, size, .. } => after == (Item::<F, S>::Text {
                    pos,
                    text,
                    color,
                    size,
                    rot: angle,
                }),
                Item::Image { r, src_w, src_h, pixels, .. } => after == (Item::<F, S>::Image {
                    r,
                    src_w,
                    src_h,
                    pixels,
                    rot: angle,
                }),
                Item::Mosaic { r, block, mode, seed, .. } => after == (Item::<F, S>::Mosaic {
                    r,
                    rot: angle,
                    block,
                    mode,
                    seed,
                }),
                _ => after == m.items[i as int],
            }
        }),
{
}

/// A dragged handle of a group's frame asks for every grabbed item to go from
/// the frame as it was to the frame as it is pulled, keeping its proportions
/// with Shift; a dragged rotate handle asks for every grabbed item to turn
/// about the frame's center by the pointer's swing.
pub proof fn law_group_handles<F, S, P, R, A, G>(
    m: Model<F, S>,
    h: Handle,
    frame: (F, F, F, F),
    rot: F,
    center: (F, F),
    start: F,
    origs: Seq<(usize, Item<F, S>)>,
    p: (i64, i64),
    shift: P,
    resize: R,
    aim: A,
    swing: G,
) where
    P: Fn(F, i64) -> F,
    R: Fn(((F, F, F, F), Handle, F, Ratio)) -> (F, F, F, F),
    A: Fn(((F, F), bool)) -> Option<F>,
    G: Fn(((F, F), F, bool)) -> F,

    requires
        m.selected.len() > 0,
        m.selected[0] < m.items.len(),
    ensures
        m.edit == (Drag::<F, S>::GroupHandle { h, orig_rect: frame, rot, origs }) ==> m.apply_edit(
            p,
            shift,
            resize,
            aim,
            swing,
        ).1 == (Follow::Scale {
            from: frame,
            to: result(
                resize,
                (
                    frame,
                    h,
                    rot,
                    if m.shift {
                        Ratio::Own
                    } else {
                        Ratio::Free
                    },
                ),
            ),
            rot,
        }),
        m.edit == (Drag::<F, S>::GroupRotate {
            center,
            start_angle: start,
            orig_rect: frame,
            orig_rot: rot,
            origs,
        }) ==> m.apply_edit(p, shift, resize, aim, swing).1 == (Follow::Turn {
            center,
            delta: result(swing, (center, start, m.shift)),
        }),
{
}

} // verus!

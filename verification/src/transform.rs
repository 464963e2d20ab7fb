//! Copies of items moved, scaled and turned. Style never changes.

use vstd::prelude::*;

use crate::annotation::{Annotation, Item};

verus! {

/// A coordinate moved by `d` fits.
pub open spec fn movable(v: int, d: int) -> bool {
    i64::MIN <= v + d <= i64::MAX
}

/// A point moved by `(dx, dy)` fits.
pub open spec fn point_movable(p: (i64, i64), dx: int, dy: int) -> bool {
    movable(p.0 as int, dx) && movable(p.1 as int, dy)
}

/// Every point moved by `(dx, dy)` fits.
pub open spec fn points_movable(points: Seq<(i64, i64)>, dx: int, dy: int) -> bool {
    forall|i: int| 0 <= i < points.len() ==> point_movable(#[trigger] points[i], dx, dy)
}

/// Every whole-numbered coordinate of the item fits after the move.
pub open spec fn item_movable<F, S>(a: Item<F, S>, dx: int, dy: int) -> bool {
    match a {
        Item::Arrow { a, b, .. } => point_movable(a, dx, dy) && point_movable(b, dx, dy),
        Item::Polyline { points, .. } => points_movable(points, dx, dy),
        Item::NumberMarker { pos, .. } => point_movable(pos, dx, dy),
        Item::Text { pos, .. } => point_movable(pos, dx, dy),
        Item::Guide { r } => movable(r.0 as int, dx) && movable(r.1 as int, dy) && movable(
            r.2 as int,
            dx,
        ) && movable(r.3 as int, dy),
        _ => true,
    }
}

/// Whether every whole-numbered coordinate of the item fits after the move.
pub fn can_translate<F: Copy, S: Copy>(ann: &Annotation<F, S>, dx: i64, dy: i64) -> (r: bool)
    ensures
        r == item_movable(ann@, dx as int, dy as int),
{
    match ann {
        Annotation::Arrow { a, b, .. } => a.0.checked_add(dx).is_some() && a.1.checked_add(
            dy,
        ).is_some() && b.0.checked_add(dx).is_some() && b.1.checked_add(dy).is_some(),
        Annotation::Polyline { points, .. } => {
            let mut i: usize = 0;
            while i < points.len()
                invariant
                    i <= points.len(),
                    item_movable(ann@, dx as int, dy as int) == points_movable(
                        points@,
                        dx as int,
                        dy as int,
                    ),
                    forall|k: int|
                        0 <= k < i ==> point_movable(#[trigger] points@[k], dx as int, dy as int),
                decreases points.len() - i,
            {
                if points[i].0.checked_add(dx).is_none() || points[i].1.checked_add(dy).is_none() {
                    assert(!point_movable(points@[i as int], dx as int, dy as int));
                    return false;
                }
                i += 1;
            }
            true
        },
        Annotation::NumberMarker { pos, .. } => pos.0.checked_add(dx).is_some()
            && pos.1.checked_add(dy).is_some(),
        Annotation::Text { pos, .. } => pos.0.checked_add(dx).is_some() && pos.1.checked_add(
            dy,
        ).is_some(),
        Annotation::Guide { r } => r.0.checked_add(dx).is_some() && r.1.checked_add(dy).is_some()
            && r.2.checked_add(dx).is_some() && r.3.checked_add(dy).is_some(),
        _ => true,
    }
}

/// The point moved by `(dx, dy)`.
pub open spec fn shifted_point(p: (i64, i64), dx: int, dy: int) -> (i64, i64) {
    ((p.0 + dx) as i64, (p.1 + dy) as i64)
}

/// The points moved by `(dx, dy)`.
pub open spec fn shifted_points(points: Seq<(i64, i64)>, dx: int, dy: int) -> Seq<(i64, i64)> {
    points.map_values(|p: (i64, i64)| shifted_point(p, dx, dy))
}

/// Whether `q` is the rectangle `r` with each coordinate moved by what
/// `shift` makes of it.
pub open spec fn shifted_rect<F, P: Fn(F, i64) -> F>(
    shift: P,
    r: (F, F, F, F),
    q: (F, F, F, F),
    dx: i64,
    dy: i64,
) -> bool {
    &&& call_ensures(shift, (r.0, dx), q.0)
    &&& call_ensures(shift, (r.1, dy), q.1)
    &&& call_ensures(shift, (r.2, dx), q.2)
    &&& call_ensures(shift, (r.3, dy), q.3)
}

/// The item moved by `(dx, dy)`, for the kinds that have whole-numbered
/// coordinates only.
pub open spec fn shifted_plain<F, S>(a: Item<F, S>, dx: int, dy: int) -> Item<F, S> {
    match a {
        Item::Arrow { a: from, b: to, color, thick } => Item::Arrow {
            a: shifted_point(from, dx, dy),
            b: shifted_point(to, dx, dy),
            color,
            thick,
        },
        Item::Polyline { points, color, thick } => Item::Polyline {
            points: shifted_points(points, dx, dy),
            color,
            thick,
        },
        Item::Text { pos, text, color, size, rot } => Item::Text {
            pos: shifted_point(pos, dx, dy),
            text,
            color,
            size,
            rot,
        },
        Item::NumberMarker { pos, number, color, size } => Item::NumberMarker {
            pos: shifted_point(pos, dx, dy),
            number,
            color,
            size,
        },
        Item::Guide { r } => Item::Guide {
            r: ((r.0 + dx) as i64, (r.1 + dy) as i64, (r.2 + dx) as i64, (r.3 + dy) as i64),
        },
        _ => a,
    }
}

/// Whether `b` is `a` moved by `(dx, dy)`, with its style, content and angle
/// kept.
pub open spec fn translated<F, S, P: Fn(F, i64) -> F>(
    shift: P,
    a: Item<F, S>,
    b: Item<F, S>,
    dx: i64,
    dy: i64,
) -> bool {
    match a.frame() {
        Some(r) => exists|q: (F, F, F, F)| #[trigger]
            shifted_rect(shift, r, q, dx, dy) && b == a.with_frame(q),
        None => b == shifted_plain(a, dx as int, dy as int),
    }
}

/// The rectangle with each coordinate moved by `shift`.
fn shift_rect<F: Copy, P: Fn(F, i64) -> F>(
    r: (F, F, F, F),
    dx: i64,
    dy: i64,
    shift: &P,
) -> (q: (F, F, F, F))
    requires
        forall|v: F, d: i64| call_requires(*shift, (v, d)),
    ensures
        shifted_rect(*shift, r, q, dx, dy),
{
    (shift(r.0, dx), shift(r.1, dy), shift(r.2, dx), shift(r.3, dy))
}

/// The points moved by `(dx, dy)`.
fn shift_points(points: &Vec<(i64, i64)>, dx: i64, dy: i64) -> (out: Vec<(i64, i64)>)
    requires
        points_movable(points@, dx as int, dy as int),
    ensures
        out@ == shifted_points(points@, dx as int, dy as int),
{
    let mut out: Vec<(i64, i64)> = Vec::new();
    let mut i: usize = 0;
    while i < points.len()
        invariant
            i <= points.len(),
            points_movable(points@, dx as int, dy as int),
            out@.len() == i,
            forall|k: int|
                0 <= k < i ==> #[trigger] out@[k] == shifted_point(
                    points@[k],
                    dx as int,
                    dy as int,
                ),
        decreases points.len() - i,
    {
        let p = points[i];
        assert(point_movable(points@[i as int], dx as int, dy as int));
        out.push((p.0 + dx, p.1 + dy));
        i += 1;
    }
    assert(out@ =~= shifted_points(points@, dx as int, dy as int));
    out
}

/// A copy of the item moved by `(dx, dy)`, style unchanged. `shift` moves one
/// coordinate of a rotatable shape by a whole number.
pub fn translate_annotation<F: Copy, S: Copy, P: Fn(F, i64) -> F>(
    ann: &Annotation<F, S>,
    dx: i64,
    dy: i64,
    shift: &P,
) -> (out: Annotation<F, S>)
    requires
        item_movable(ann@, dx as int, dy as int),
        forall|v: F, d: i64| call_requires(*shift, (v, d)),
    ensures
        translated(*shift, ann@, out@, dx, dy),
{
    if let Some(r) = ann.get_frame() {
        let q = shift_rect(r, dx, dy, shift);
        let mut out = ann.clone();
        out.set_frame(q);
        assert(shifted_rect(*shift, r, q, dx, dy));
        return out;
    }
    match ann {
        Annotation::Arrow { a, b, color, thick } => Annotation::Arrow {
            a: (a.0 + dx, a.1 + dy),
            b: (b.0 + dx, b.1 + dy),
            color: *color,
            thick: *thick,
        },
        Annotation::Polyline { points, color, thick } => Annotation::Polyline {
            points: shift_points(points, dx, dy),
            color: *color,
            thick: *thick,
        },
        Annotation::Text { pos, text, color, size, rot } => Annotation::Text {
            pos: (pos.0 + dx, pos.1 + dy),
            text: text.clone(),
            color: *color,
            size: *size,
            rot: *rot,
        },
        Annotation::NumberMarker { pos, number, color, size } => Annotation::NumberMarker {
            pos: (pos.0 + dx, pos.1 + dy),
            number: *number,
            color: *color,
            size: *size,
        },
        Annotation::Guide { r } => Annotation::Guide {
            r: (r.0 + dx, r.1 + dy, r.2 + dx, r.3 + dy),
        },
        _ => ann.clone(),
    }
}

// ---- Scaling ----

/// Whether `q` holds what `point` makes of each point of `p`, in order.
pub open spec fn mapped_points<G: Fn((i64, i64)) -> (i64, i64)>(
    point: G,
    p: Seq<(i64, i64)>,
    q: Seq<(i64, i64)>,
) -> bool {
    q.len() == p.len() && forall|i: int|
        0 <= i < p.len() ==> call_ensures(point, (p[i],), #[trigger] q[i])
}

/// The points that `point` makes of a point list, in order.
fn map_points<G: Fn((i64, i64)) -> (i64, i64)>(points: &Vec<(i64, i64)>, point: &G) -> (out: Vec<
    (i64, i64),
>)
    requires
        forall|p: (i64, i64)| call_requires(*point, (p,)),
    ensures
        mapped_points(*point, points@, out@),
{
    let mut out: Vec<(i64, i64)> = Vec::new();
    let mut i: usize = 0;
    while i < points.len()
        invariant
            i <= points.len(),
            forall|p: (i64, i64)| call_requires(*point, (p,)),
            out@.len() == i,
            forall|k: int| 0 <= k < i ==> call_ensures(*point, (points@[k],), #[trigger] out@[k]),
        decreases points.len() - i,
    {
        out.push(point(points[i]));
        i += 1;
    }
    out
}

/// Whether `b` is `a` with its geometry put through a scaling: the display
/// rectangle through `rect`, every point through `point`, a text's or
/// marker's size through `size`. Style, content and angle are kept. A guide
/// goes through `point` only where `with_guide` holds.
pub open spec fn scaled<F, S, G, R, Z>(
    point: G,
    rect: R,
    size: Z,
    with_guide: bool,
    a: Item<F, S>,
    b: Item<F, S>,
) -> bool where
    G: Fn((i64, i64)) -> (i64, i64),
    R: Fn((F, F, F, F), F) -> (F, F, F, F),
    Z: Fn(S) -> S,
 {
    match (a, b) {
        (Item::Image { r, rot, .. }, Item::Image { r: q, .. }) => call_ensures(rect, (r, rot), q)
            && b == a.with_frame(q),
        (Item::Rect { r, rot, .. }, Item::Rect { r: q, .. }) => call_ensures(rect, (r, rot), q)
            && b == a.with_frame(q),
        (Item::Mosaic { r, rot, .. }, Item::Mosaic { r: q, .. }) => call_ensures(rect, (r, rot), q)
            && b == a.with_frame(q),
        (Item::Ellipse { r, rot, .. }, Item::Ellipse { r: q, .. }) => call_ensures(
            rect,
            (r, rot),
            q,
        ) && b == a.with_frame(q),
        (
            Item::Arrow { a: p0, b: p1, color, thick },
            Item::Arrow { a: q0, b: q1, color: c, thick: t },
        ) => call_ensures(point, (p0,), q0) && call_ensures(point, (p1,), q1) && c == color && t
            == thick,
        (
            Item::Polyline { points, color, thick },
            Item::Polyline { points: qs, color: c, thick: t },
        ) => mapped_points(point, points, qs) && c == color && t == thick,
        (
            Item::Text { pos, text, color, size: s0, rot },
            Item::Text { pos: q, text: tx, color: c, size: s1, rot: ro },
        ) => call_ensures(point, (pos,), q) && call_ensures(size, (s0,), s1) && tx == text && c
            == color && ro == rot,
        (
            Item::NumberMarker { pos, number, color, size: s0 },
            Item::NumberMarker { pos: q, number: n, color: c, size: s1 },
        ) => call_ensures(point, (pos,), q) && call_ensures(size, (s0,), s1) && n == number && c
            == color,
        (Item::Guide { r }, Item::Guide { r: q }) => if with_guide {
            call_ensures(point, ((r.0, r.1),), (q.0, q.1)) && call_ensures(
                point,
                ((r.2, r.3),),
                (q.2, q.3),
            )
        } else {
            q == r
        },
        _ => false,
    }
}

/// A copy of the item scaled along the axes: the item's part of resizing a
/// multi-selection whose frame is upright. `point` and `rect` carry a place
/// from the old frame to the new one, `size` scales a text or marker size.
pub fn scale_annotation<F: Copy, S: Copy, G, R, Z>(
    ann: &Annotation<F, S>,
    point: &G,
    rect: &R,
    size: &Z,
) -> (out: Annotation<F, S>) where
    G: Fn((i64, i64)) -> (i64, i64),
    R: Fn((F, F, F, F), F) -> (F, F, F, F),
    Z: Fn(S) -> S,

    requires
        forall|p: (i64, i64)| call_requires(*point, (p,)),
        forall|r: (F, F, F, F), t: F| call_requires(*rect, (r, t)),
        forall|s: S| call_requires(*size, (s,)),
    ensures
        scaled(*point, *rect, *size, true, ann@, out@),
{
    scale_item(ann, point, rect, size, true)
}

/// The rotation-aware scaling: the item's part of resizing a multi-selection
/// in the frame's own coordinates. For an upright frame this is
/// [`scale_annotation`]; in a rotated frame a guide stays as it is.
pub fn scale_annotation_rotated<F: Copy, S: Copy, G, R, Z>(
    ann: &Annotation<F, S>,
    upright: bool,
    point: &G,
    rect: &R,
    size: &Z,
) -> (out: Annotation<F, S>) where
    G: Fn((i64, i64)) -> (i64, i64),
    R: Fn((F, F, F, F), F) -> (F, F, F, F),
    Z: Fn(S) -> S,

    requires
        forall|p: (i64, i64)| call_requires(*point, (p,)),
        forall|r: (F, F, F, F), t: F| call_requires(*rect, (r, t)),
        forall|s: S| call_requires(*size, (s,)),
    ensures
        scaled(*point, *rect, *size, upright, ann@, out@),
{
    scale_item(ann, point, rect, size, upright)
}

fn scale_item<F: Copy, S: Copy, G, R, Z>(
    ann: &Annotation<F, S>,
    point: &G,
    rect: &R,
    size: &Z,
    with_guide: bool,
) -> (out: Annotation<F, S>) where
    G: Fn((i64, i64)) -> (i64, i64),
    R: Fn((F, F, F, F), F) -> (F, F, F, F),
    Z: Fn(S) -> S,

    requires
        forall|p: (i64, i64)| call_requires(*point, (p,)),
        forall|r: (F, F, F, F), t: F| call_requires(*rect, (r, t)),
        forall|s: S| call_requires(*size, (s,)),
    ensures
        scaled(*point, *rect, *size, with_guide, ann@, out@),
{
    match ann {
        Annotation::Image { r, rot, .. } | Annotation::Rect { r, rot, .. } | Annotation::Mosaic {
            r,
            rot,
            ..
        } | Annotation::Ellipse { r, rot, .. } => {
            let q = rect(*r, *rot);
            let mut out = ann.clone();
            out.set_frame(q);
            out
        },
        Annotation::Arrow { a, b, color, thick } => Annotation::Arrow {
            a: point(*a),
            b: point(*b),
            color: *color,
            thick: *thick,
        },
        Annotation::Polyline { points, color, thick } => Annotation::Polyline {
            points: map_points(points, point),
            color: *color,
            thick: *thick,
        },
        Annotation::Text { pos, text, color, size: old_size, rot } => Annotation::Text {
            pos: point(*pos),
            text: text.clone(),
            color: *color,
            size: size(*old_size),
            rot: *rot,
        },
        Annotation::NumberMarker { pos, number, color, size: old_size } => {
            Annotation::NumberMarker {
                pos: point(*pos),
                number: *number,
                color: *color,
                size: size(*old_size),
            }
        },
        Annotation::Guide { r } => {
            if with_guide {
                let (x0, y0) = point((r.0, r.1));
                let (x1, y1) = point((r.2, r.3));
                Annotation::Guide { r: (x0, y0, x1, y1) }
            } else {
                Annotation::Guide { r: *r }
            }
        },
    }
}

// ---- Turning ----

/// Whether `b` is `a` turned as part of a group: the display rectangle
/// through `orbit`, the angle through `turn`, every point through `point`. A
/// text goes to `text_at`. A guide stays.
pub open spec fn rotated<F, S, G, R, T>(
    point: G,
    orbit: R,
    turn: T,
    text_at: (i64, i64),
    a: Item<F, S>,
    b: Item<F, S>,
) -> bool where
    G: Fn((i64, i64)) -> (i64, i64),
    R: Fn((F, F, F, F)) -> (F, F, F, F),
    T: Fn(F) -> F,
 {
    match (a, b) {
        (Item::Image { r, rot, .. }, Item::Image { r: q, rot: ro, .. }) => call_ensures(
            orbit,
            (r,),
            q,
        ) && call_ensures(turn, (rot,), ro) && b == a.with_frame(q).with_angle(ro),
        (Item::Rect { r, rot, .. }, Item::Rect { r: q, rot: ro, .. }) => call_ensures(
            orbit,
            (r,),
            q,
        ) && call_ensures(turn, (rot,), ro) && b == a.with_frame(q).with_angle(ro),
        (Item::Mosaic { r, rot, .. }, Item::Mosaic { r: q, rot: ro, .. }) => call_ensures(
            orbit,
            (r,),
            q,
        ) && call_ensures(turn, (rot,), ro) && b == a.with_frame(q).with_angle(ro),
        (Item::Ellipse { r, rot, .. }, Item::Ellipse { r: q, rot: ro, .. }) => call_ensures(
            orbit,
            (r,),
            q,
        ) && call_ensures(turn, (rot,), ro) && b == a.with_frame(q).with_angle(ro),
        (
            Item::Arrow { a: p0, b: p1, color, thick },
            Item::Arrow { a: q0, b: q1, color: c, thick: t },
        ) => call_ensures(point, (p0,), q0) && call_ensures(point, (p1,), q1) && c == color && t
            == thick,
        (
            Item::Polyline { points, color, thick },
            Item::Polyline { points: qs, color: c, thick: t },
        ) => mapped_points(point, points, qs) && c == color && t == thick,
        (
            Item::Text { pos: _, text, color, size, rot },
            Item::Text { pos: q, text: tx, color: c, size: s, rot: ro },
        ) => q == text_at && call_ensures(turn, (rot,), ro) && tx == text && c == color && s
            == size,
        (
            Item::NumberMarker { pos, number, color, size },
            Item::NumberMarker { pos: q, number: n, color: c, size: s },
        ) => call_ensures(point, (pos,), q) && n == number && c == color && s == size,
        (Item::Guide { r }, Item::Guide { r: q }) => q == r,
        _ => false,
    }
}

/// A copy of the item turned about a group's center. `point` turns a point
/// and rounds it, `orbit` carries a display rectangle along the orbit of its
/// own center, `turn` adds the angle. Arrows and polylines have no angle:
/// turning their points turns them. `text_at` is where a text's near corner
/// lands, which depends on its measured width.
pub fn rotate_annotation_around<F: Copy, S: Copy, G, R, T>(
    ann: &Annotation<F, S>,
    point: &G,
    orbit: &R,
    turn: &T,
    text_at: (i64, i64),
) -> (out: Annotation<F, S>) where
    G: Fn((i64, i64)) -> (i64, i64),
    R: Fn((F, F, F, F)) -> (F, F, F, F),
    T: Fn(F) -> F,

    requires
        forall|p: (i64, i64)| call_requires(*point, (p,)),
        forall|r: (F, F, F, F)| call_requires(*orbit, (r,)),
        forall|t: F| call_requires(*turn, (t,)),
    ensures
        rotated(*point, *orbit, *turn, text_at, ann@, out@),
{
    match ann {
        Annotation::Image { r, rot, .. } | Annotation::Rect { r, rot, .. } | Annotation::Mosaic {
            r,
            rot,
            ..
        } | Annotation::Ellipse { r, rot, .. } => {
            let q = orbit(*r);
            let ro = turn(*rot);
            let mut out = ann.clone();
            out.set_frame(q);
            out.set_angle(ro);
            out
        },
        Annotation::Arrow { a, b, color, thick } => Annotation::Arrow {
            a: point(*a),
            b: point(*b),
            color: *color,
            thick: *thick,
        },
        Annotation::Polyline { points, color, thick } => Annotation::Polyline {
            points: map_points(points, point),
            color: *color,
            thick: *thick,
        },
        Annotation::Text { pos: _, text, color, size, rot } => Annotation::Text {
            pos: text_at,
            text: text.clone(),
            color: *color,
            size: *size,
            rot: turn(*rot),
        },
        Annotation::NumberMarker { pos, number, color, size } => Annotation::NumberMarker {
            pos: point(*pos),
            number: *number,
            color: *color,
            size: *size,
        },
        Annotation::Guide { r } => Annotation::Guide { r: *r },
    }
}

// ---- Laws ----

/// The kind of an item, in the order of its declaration.
pub open spec fn kind<F, S>(a: Item<F, S>) -> int {
    match a {
        Item::Image { .. } => 0,
        Item::Arrow { .. } => 1,
        Item::Polyline { .. } => 2,
        Item::NumberMarker { .. } => 3,
        Item::Rect { .. } => 4,
        Item::Mosaic { .. } => 5,
        Item::Ellipse { .. } => 6,
        Item::Text { .. } => 7,
        Item::Guide { .. } => 8,
    }
}

/// The color, thickness and fill of an item, where it has them.
pub open spec fn paint_style<F, S>(a: Item<F, S>) -> (Option<u32>, Option<i64>, Option<bool>) {
    match a {
        Item::Arrow { color, thick, .. } => (Some(color), Some(thick), None),
        Item::Polyline { color, thick, .. } => (Some(color), Some(thick), None),
        Item::Rect { color, thick, filled, .. } => (Some(color), Some(thick), Some(filled)),
        Item::Ellipse { color, thick, filled, .. } => (Some(color), Some(thick), Some(filled)),
        Item::Text { color, .. } => (Some(color), None, None),
        Item::NumberMarker { color, .. } => (Some(color), None, None),
        _ => (None, None, None),
    }
}

/// Moving an item keeps its kind, style and angle.
pub proof fn law_move_keeps_style<F, S, P: Fn(F, i64) -> F>(
    shift: P,
    a: Item<F, S>,
    b: Item<F, S>,
    dx: i64,
    dy: i64,
)
    requires
        translated(shift, a, b, dx, dy),
    ensures
        kind(b) == kind(a),
        paint_style(b) == paint_style(a),
        b.angle() == a.angle(),
{
}

/// Scaling an item keeps its kind, style and angle.
pub proof fn law_scale_keeps_style<F, S, G, R, Z>(
    point: G,
    rect: R,
    size: Z,
    with_guide: bool,
    a: Item<F, S>,
    b: Item<F, S>,
) where
    G: Fn((i64, i64)) -> (i64, i64),
    R: Fn((F, F, F, F), F) -> (F, F, F, F),
    Z: Fn(S) -> S,

    requires
        scaled(point, rect, size, with_guide, a, b),
    ensures
        kind(b) == kind(a),
        paint_style(b) == paint_style(a),
        b.angle() == a.angle(),
{
}

/// Turning an item keeps its kind and style.
pub proof fn law_turn_keeps_style<F, S, G, R, T>(
    point: G,
    orbit: R,
    turn: T,
    text_at: (i64, i64),
    a: Item<F, S>,
    b: Item<F, S>,
) where
    G: Fn((i64, i64)) -> (i64, i64),
    R: Fn((F, F, F, F)) -> (F, F, F, F),
    T: Fn(F) -> F,

    requires
        rotated(point, orbit, turn, text_at, a, b),
    ensures
        kind(b) == kind(a),
        paint_style(b) == paint_style(a),
{
}

/// Moving an item without a display rectangle by `(dx, dy)` and then back
/// gives the item itself.
proof fn lemma_plain_move_back<F, S>(a: Item<F, S>, dx: int, dy: int)
    requires
        a.frame() is None,
        item_movable(a, dx, dy),
    ensures
        item_movable(shifted_plain(a, dx, dy), -dx, -dy),
        shifted_plain(shifted_plain(a, dx, dy), -dx, -dy) == a,
{
    match a {
        Item::Polyline { points, .. } => {
            assert forall|i: int| 0 <= i < points.len() implies #[trigger] shifted_points(
                shifted_points(points, dx, dy),
                -dx,
                -dy,
            )[i] == points[i] by {
                assert(point_movable(points[i], dx, dy));
            }
            assert(shifted_points(shifted_points(points, dx, dy), -dx, -dy) =~= points);
            assert forall|i: int|
                0 <= i < points.len() implies point_movable(
                #[trigger] shifted_points(points, dx, dy)[i],
                -dx,
                -dy,
            ) by {
                assert(point_movable(points[i], dx, dy));
            }
        },
        _ => {},
    }
}

/// Two moves of an item without a display rectangle amount to one move by
/// their sum.
proof fn lemma_plain_moves_add_up<F, S>(a: Item<F, S>, dx: int, dy: int, ex: int, ey: int)
    requires
        a.frame() is None,
        item_movable(a, dx, dy),
        item_movable(shifted_plain(a, dx, dy), ex, ey),
    ensures
        item_movable(a, dx + ex, dy + ey),
        shifted_plain(shifted_plain(a, dx, dy), ex, ey) == shifted_plain(a, dx + ex, dy + ey),
{
    match a {
        Item::Polyline { points, .. } => {
            assert forall|i: int| 0 <= i < points.len() implies point_movable(
                #[trigger] points[i],
                dx + ex,
                dy + ey,
            ) && shifted_points(shifted_points(points, dx, dy), ex, ey)[i] == shifted_points(
                points,
                dx + ex,
                dy + ey,
            )[i] by {
                assert(point_movable(points[i], dx, dy));
                assert(point_movable(shifted_points(points, dx, dy)[i], ex, ey));
            }
            assert(shifted_points(shifted_points(points, dx, dy), ex, ey) =~= shifted_points(
                points,
                dx + ex,
                dy + ey,
            ));
        },
        _ => {},
    }
}

// ---- Moves taken together ----

/// Whether a coordinate that `shift` moves by `d`, and then by `back`, is the
/// same again.
pub open spec fn shift_comes_back<F, P: Fn(F, i64) -> F>(
    shift: P,
    v: F,
    d: i64,
    back: i64,
) -> bool {
    forall|w: F, u: F| #[trigger]
        call_ensures(shift, (v, d), w) && #[trigger] call_ensures(shift, (w, back), u) ==> u == v
}

/// Whether moving a coordinate by `d` and then by `e` is moving it by `sum`.
pub open spec fn shifts_add_up<F, P: Fn(F, i64) -> F>(
    shift: P,
    v: F,
    d: i64,
    e: i64,
    sum: i64,
) -> bool {
    forall|w: F, u: F, s: F| #[trigger]
        call_ensures(shift, (v, d), w) && #[trigger] call_ensures(shift, (w, e), u)
            && #[trigger] call_ensures(shift, (v, sum), s) ==> u == s
}

/// Moving an item by `(dx, dy)` and then back gives the item itself, of
/// whatever kind it is. `shift` has to come back to each coordinate of a
/// display rectangle.
pub proof fn law_move_back<F, S, P: Fn(F, i64) -> F>(
    shift: P,
    a: Item<F, S>,
    b: Item<F, S>,
    c: Item<F, S>,
    dx: i64,
    dy: i64,
)
    requires
        dx > i64::MIN,
        dy > i64::MIN,
        item_movable(a, dx as int, dy as int),
        a.frame() matches Some(r) ==> {
            &&& shift_comes_back(shift, r.0, dx, (-dx) as i64)
            &&& shift_comes_back(shift, r.1, dy, (-dy) as i64)
            &&& shift_comes_back(shift, r.2, dx, (-dx) as i64)
            &&& shift_comes_back(shift, r.3, dy, (-dy) as i64)
        },
        translated(shift, a, b, dx, dy),
        translated(shift, b, c, (-dx) as i64, (-dy) as i64),
    ensures
        item_movable(b, -dx, -dy),
        c == a,
{
    match a.frame() {
        Some(r) => {
            let q = choose|q: (F, F, F, F)| #[trigger]
                shifted_rect(shift, r, q, dx, dy) && b == a.with_frame(q);
            assert(b.frame() == Some(q));
            let u = choose|u: (F, F, F, F)| #[trigger]
                shifted_rect(shift, q, u, (-dx) as i64, (-dy) as i64) && c == b.with_frame(u);
            assert(u == r);
        },
        None => lemma_plain_move_back(a, dx as int, dy as int),
    }
}

/// Two moves of an item amount to one move by their sum, of whatever kind it
/// is. `shift` has to add up on each coordinate of a display rectangle.
pub proof fn law_moves_add_up<F, S, P: Fn(F, i64) -> F>(
    shift: P,
    a: Item<F, S>,
    b: Item<F, S>,
    c: Item<F, S>,
    once: Item<F, S>,
    d: (i64, i64),
    e: (i64, i64),
)
    requires
        movable(d.0 as int, e.0 as int),
        movable(d.1 as int, e.1 as int),
        item_movable(a, d.0 as int, d.1 as int),
        item_movable(b, e.0 as int, e.1 as int),
        a.frame() matches Some(r) ==> {
            &&& shifts_add_up(shift, r.0, d.0, e.0, (d.0 + e.0) as i64)
            &&& shifts_add_up(shift, r.1, d.1, e.1, (d.1 + e.1) as i64)
            &&& shifts_add_up(shift, r.2, d.0, e.0, (d.0 + e.0) as i64)
            &&& shifts_add_up(shift, r.3, d.1, e.1, (d.1 + e.1) as i64)
        },
        translated(shift, a, b, d.0, d.1),
        translated(shift, b, c, e.0, e.1),
        translated(shift, a, once, (d.0 + e.0) as i64, (d.1 + e.1) as i64),
    ensures
        item_movable(a, d.0 + e.0, d.1 + e.1),
        c == once,
{
    match a.frame() {
        Some(r) => {
            let q = choose|q: (F, F, F, F)| #[trigger]
                shifted_rect(shift, r, q, d.0, d.1) && b == a.with_frame(q);
            assert(b.frame() == Some(q));
            let u = choose|u: (F, F, F, F)| #[trigger]
                shifted_rect(shift, q, u, e.0, e.1) && c == b.with_frame(u);
            let s = choose|s: (F, F, F, F)| #[trigger]
                shifted_rect(shift, r, s, (d.0 + e.0) as i64, (d.1 + e.1) as i64) && once
                    == a.with_frame(s);
            assert(u == s);
        },
        None => lemma_plain_moves_add_up(
            a,
            d.0 as int,
            d.1 as int,
            e.0 as int,
            e.1 as int,
        ),
    }
}

/// Whether `shift` is exact on coordinates that stand for whole numbers up to
/// `most`: it adds, and a whole number is written in one way. `whole` tells
/// the number a coordinate stands for. Floating point is exact so far as its
/// digits reach.
pub open spec fn shifts_exactly<F, P: Fn(F, i64) -> F>(
    shift: P,
    whole: spec_fn(F) -> Option<int>,
    most: int,
) -> bool {
    &&& forall|v: F, d: i64, w: F| #[trigger]
        call_ensures(shift, (v, d), w) ==> match whole(v) {
            Some(n) => -most <= n <= most && -most <= d <= most ==> whole(w) == Some(n + d),
            None => true,
        }
    &&& forall|v: F, w: F| #[trigger] whole(v) is Some && #[trigger] whole(w) == whole(v) ==> v == w
}

/// Whether a coordinate stands for a whole number up to `most`.
pub open spec fn whole_within<F>(v: F, whole: spec_fn(F) -> Option<int>, most: int) -> bool {
    whole(v) matches Some(n) && -most <= n <= most
}

/// Whether every coordinate of a display rectangle stands for a whole number
/// up to `most`.
pub open spec fn whole_rect<F>(
    r: (F, F, F, F),
    whole: spec_fn(F) -> Option<int>,
    most: int,
) -> bool {
    whole_within(r.0, whole, most) && whole_within(r.1, whole, most) && whole_within(
        r.2,
        whole,
        most,
    ) && whole_within(r.3, whole, most)
}

/// Where `shift` is exact, a move moves every coordinate of a display
/// rectangle by `(dx, dy)`, moving back gives the item itself, and two moves
/// amount to one by their sum. Coordinates and moves stay below half of what
/// is exact.
pub proof fn law_exact_moves<F, S, P: Fn(F, i64) -> F>(
    shift: P,
    whole: spec_fn(F) -> Option<int>,
    most: int,
    a: Item<F, S>,
    r: (F, F, F, F),
    d: (i64, i64),
    e: (i64, i64),
)
    requires
        0 <= most <= i64::MAX,
        shifts_exactly(shift, whole, most),
        a.frame() == Some(r),
        whole_rect(r, whole, most / 2),
        -(most / 2) <= d.0 <= most / 2,
        -(most / 2) <= d.1 <= most / 2,
        -(most / 2) <= e.0 <= most / 2,
        -(most / 2) <= e.1 <= most / 2,
    ensures
        forall|b: Item<F, S>| #[trigger]
            translated(shift, a, b, d.0, d.1) ==> (b.frame() matches Some(q) && whole(q.0) == Some(
                whole(r.0)->0 + d.0,
            ) && whole(q.1) == Some(whole(r.1)->0 + d.1) && whole(q.2) == Some(
                whole(r.2)->0 + d.0,
            ) && whole(q.3) == Some(whole(r.3)->0 + d.1)),
        forall|b: Item<F, S>, c: Item<F, S>|
            #![trigger translated(shift, a, b, d.0, d.1), translated(
                shift,
                b,
                c,
                (-d.0) as i64,
                (-d.1) as i64,
            )]
            translated(shift, a, b, d.0, d.1) && translated(
                shift,
                b,
                c,
                (-d.0) as i64,
                (-d.1) as i64,
            ) ==> c == a,
        forall|b: Item<F, S>, c: Item<F, S>, once: Item<F, S>|
            #![trigger translated(shift, a, b, d.0, d.1), translated(
                shift,
                b,
                c,
                e.0,
                e.1,
            ), translated(shift, a, once, (d.0 + e.0) as i64, (d.1 + e.1) as i64)]
            translated(shift, a, b, d.0, d.1) && translated(shift, b, c, e.0, e.1) && translated(
                shift,
                a,
                once,
                (d.0 + e.0) as i64,
                (d.1 + e.1) as i64,
            ) ==> c == once,
{
    assert forall|b: Item<F, S>, c: Item<F, S>|
        #![trigger translated(shift, a, b, d.0, d.1), translated(
            shift,
            b,
            c,
            (-d.0) as i64,
            (-d.1) as i64,
        )]
        translated(shift, a, b, d.0, d.1) && translated(
            shift,
            b,
            c,
            (-d.0) as i64,
            (-d.1) as i64,
        ) implies c == a by {
        law_move_back(shift, a, b, c, d.0, d.1);
    }
    assert forall|b: Item<F, S>, c: Item<F, S>, once: Item<F, S>|
        #![trigger translated(shift, a, b, d.0, d.1), translated(
            shift,
            b,
            c,
            e.0,
            e.1,
        ), translated(shift, a, once, (d.0 + e.0) as i64, (d.1 + e.1) as i64)]
        translated(shift, a, b, d.0, d.1) && translated(shift, b, c, e.0, e.1) && translated(
            shift,
            a,
            once,
            (d.0 + e.0) as i64,
            (d.1 + e.1) as i64,
        ) implies c == once by {
        law_moves_add_up(shift, a, b, c, once, d, e);
    }
}

} // verus!

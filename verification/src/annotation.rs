//! Annotation items and the geometry of theirs that is whole-numbered.
//!
//! An item's rotatable shape and its angle are kept in a number type `F`,
//! its size and block length in a number type `S`. Both are only carried
//! here: an operation on them comes in as a closure.

use std::rc::Rc;
use vstd::prelude::*;

verus! {

/// A rectangle's handles: four corners and four edge midpoints.
#[derive(Clone, Copy, Debug, PartialEq, Eq, Structural)]
pub enum Handle {
    TopLeft,
    Top,
    TopRight,
    Right,
    BottomRight,
    Bottom,
    BottomLeft,
    Left,
}

/// How a mosaic obscures what lies beneath it.
#[derive(Clone, Copy, Debug, PartialEq, Eq, Structural)]
pub enum MosaicMode {
    /// Coarse blocks.
    Pixelate,
    /// A blur with seeded jitter.
    Blur,
}

/// One item, in absolute world coordinates. Each carries its own style.
#[derive(Debug)]
#[allow(inconsistent_fields)]
pub enum Annotation<F, S> {
    /// A picture. `r` is the display rectangle as two opposite corners,
    /// `pixels` the source pixels as 0xAARRGGBB, shared between copies.
    Image { r: (F, F, F, F), src_w: i64, src_h: i64, pixels: Rc<Vec<u32>>, rot: F },
    Arrow { a: (i64, i64), b: (i64, i64), color: u32, thick: i64 },
    /// A line that joins points in order.
    Polyline { points: Vec<(i64, i64)>, color: u32, thick: i64 },
    /// A numbered round badge of radius `size`.
    NumberMarker { pos: (i64, i64), number: u32, color: u32, size: S },
    Rect { r: (F, F, F, F), color: u32, thick: i64, rot: F, filled: bool },
    /// A rectangle that shows a coarsened copy of what lies beneath it.
    Mosaic { r: (F, F, F, F), rot: F, block: S, mode: MosaicMode, seed: u32 },
    /// The ellipse inscribed in `r`.
    Ellipse { r: (F, F, F, F), color: u32, thick: i64, rot: F, filled: bool },
    /// `pos` is the near corner before rotation.
    Text { pos: (i64, i64), text: String, color: u32, size: S, rot: F },
    /// The export bounds. Never part of the exported picture.
    Guide { r: (i64, i64, i64, i64) },
}

/// What an [`Annotation`] stands for: the same item with its points, text
/// and pixels as sequences.
#[verifier::ext_equal]
#[allow(inconsistent_fields)]
pub enum Item<F, S> {
    Image { r: (F, F, F, F), src_w: i64, src_h: i64, pixels: Seq<u32>, rot: F },
    Arrow { a: (i64, i64), b: (i64, i64), color: u32, thick: i64 },
    Polyline { points: Seq<(i64, i64)>, color: u32, thick: i64 },
    NumberMarker { pos: (i64, i64), number: u32, color: u32, size: S },
    Rect { r: (F, F, F, F), color: u32, thick: i64, rot: F, filled: bool },
    Mosaic { r: (F, F, F, F), rot: F, block: S, mode: MosaicMode, seed: u32 },
    Ellipse { r: (F, F, F, F), color: u32, thick: i64, rot: F, filled: bool },
    Text { pos: (i64, i64), text: Seq<char>, color: u32, size: S, rot: F },
    Guide { r: (i64, i64, i64, i64) },
}

impl<F, S> View for Annotation<F, S> {
    type V = Item<F, S>;

    open spec fn view(&self) -> Item<F, S> {
        match *self {
            Annotation::Image { r, src_w, src_h, pixels, rot } => Item::Image {
                r,
                src_w,
                src_h,
                pixels: pixels@,
                rot,
            },
            Annotation::Arrow { a, b, color, thick } => Item::Arrow { a, b, color, thick },
            Annotation::Polyline { points, color, thick } => Item::Polyline {
                points: points@,
                color,
                thick,
            },
            Annotation::NumberMarker { pos, number, color, size } => Item::NumberMarker {
                pos,
                number,
                color,
                size,
            },
            Annotation::Rect { r, color, thick, rot, filled } => Item::Rect {
                r,
                color,
                thick,
                rot,
                filled,
            },
            Annotation::Mosaic { r, rot, block, mode, seed } => Item::Mosaic {
                r,
                rot,
                block,
                mode,
                seed,
            },
            Annotation::Ellipse { r, color, thick, rot, filled } => Item::Ellipse {
                r,
                color,
                thick,
                rot,
                filled,
            },
            Annotation::Text { pos, text, color, size, rot } => Item::Text {
                pos,
                text: text@,
                color,
                size,
                rot,
            },
            Annotation::Guide { r } => Item::Guide { r },
        }
    }
}

/// What a list of annotations stands for.
pub open spec fn items_of<F, S>(list: Seq<Annotation<F, S>>) -> Seq<Item<F, S>> {
    list.map_values(|a: Annotation<F, S>| a@)
}

/// `Rc::clone`: a second pointer to the same pixels, so the two hold the same
/// sequence.
#[verifier::external_body]
fn share_pixels(pixels: &Rc<Vec<u32>>) -> (out: Rc<Vec<u32>>)
    ensures
        out@ == pixels@,
{
    Rc::clone(pixels)
}

impl<F: Copy, S: Copy> Clone for Annotation<F, S> {
    /// A copy that stands for the same item. Pixels are shared, not copied.
    fn clone(&self) -> (out: Self)
        ensures
            out@ == self@,
    {
        match self {
            Annotation::Image { r, src_w, src_h, pixels, rot } => Annotation::Image {
                r: *r,
                src_w: *src_w,
                src_h: *src_h,
                pixels: share_pixels(pixels),
                rot: *rot,
            },
            Annotation::Arrow { a, b, color, thick } => Annotation::Arrow {
                a: *a,
                b: *b,
                color: *color,
                thick: *thick,
            },
            Annotation::Polyline { points, color, thick } => Annotation::Polyline {
                points: copy_points(points),
                color: *color,
                thick: *thick,
            },
            Annotation::NumberMarker { pos, number, color, size } => Annotation::NumberMarker {
                pos: *pos,
                number: *number,
                color: *color,
                size: *size,
            },
            Annotation::Rect { r, color, thick, rot, filled } => Annotation::Rect {
                r: *r,
                color: *color,
                thick: *thick,
                rot: *rot,
                filled: *filled,
            },
            Annotation::Mosaic { r, rot, block, mode, seed } => Annotation::Mosaic {
                r: *r,
                rot: *rot,
                block: *block,
                mode: *mode,
                seed: *seed,
            },
            Annotation::Ellipse { r, color, thick, rot, filled } => Annotation::Ellipse {
                r: *r,
                color: *color,
                thick: *thick,
                rot: *rot,
                filled: *filled,
            },
            Annotation::Text { pos, text, color, size, rot } => Annotation::Text {
                pos: *pos,
                text: text.clone(),
                color: *color,
                size: *size,
                rot: *rot,
            },
            Annotation::Guide { r } => Annotation::Guide { r: *r },
        }
    }
}

/// A copy of a point list.
pub fn copy_points(points: &Vec<(i64, i64)>) -> (out: Vec<(i64, i64)>)
    ensures
        out@ == points@,
{
    let mut out: Vec<(i64, i64)> = Vec::new();
    let mut i: usize = 0;
    while i < points.len()
        invariant
            i <= points.len(),
            out@ =~= points@.take(i as int),
        decreases points.len() - i,
    {
        out.push(points[i]);
        i += 1;
    }
    assert(points@.take(points@.len() as int) =~= points@);
    out
}

/// A copy of an item list.
pub fn copy_items<F: Copy, S: Copy>(list: &Vec<Annotation<F, S>>) -> (out: Vec<Annotation<F, S>>)
    ensures
        items_of(out@) == items_of(list@),
{
    let mut out: Vec<Annotation<F, S>> = Vec::new();
    let mut i: usize = 0;
    while i < list.len()
        invariant
            i <= list.len(),
            out@.len() == i,
            forall|k: int| 0 <= k < i ==> #[trigger] out@[k]@ == list@[k]@,
        decreases list.len() - i,
    {
        out.push(list[i].clone());
        i += 1;
    }
    assert(items_of(out@) =~= items_of(list@));
    out
}

impl<F, S> Item<F, S> {
    /// The item's own angle, for the kinds that rotate.
    pub open spec fn angle(self) -> Option<F> {
        match self {
            Item::Rect { rot, .. } => Some(rot),
            Item::Ellipse { rot, .. } => Some(rot),
            Item::Image { rot, .. } => Some(rot),
            Item::Mosaic { rot, .. } => Some(rot),
            Item::Text { rot, .. } => Some(rot),
            _ => None,
        }
    }

    /// The display rectangle, for the kinds that keep one.
    pub open spec fn frame(self) -> Option<(F, F, F, F)> {
        match self {
            Item::Rect { r, .. } => Some(r),
            Item::Ellipse { r, .. } => Some(r),
            Item::Image { r, .. } => Some(r),
            Item::Mosaic { r, .. } => Some(r),
            _ => None,
        }
    }

    /// The item with its display rectangle replaced, where it keeps one.
    pub open spec fn with_frame(self, q: (F, F, F, F)) -> Item<F, S> {
        match self {
            Item::Rect { r: _, color, thick, rot, filled } => Item::Rect {
                r: q,
                color,
                thick,
                rot,
                filled,
            },
            Item::Ellipse { r: _, color, thick, rot, filled } => Item::Ellipse {
                r: q,
                color,
                thick,
                rot,
                filled,
            },
            Item::Image { r: _, src_w, src_h, pixels, rot } => Item::Image {
                r: q,
                src_w,
                src_h,
                pixels,
                rot,
            },
            Item::Mosaic { r: _, rot, block, mode, seed } => Item::Mosaic {
                r: q,
                rot,
                block,
                mode,
                seed,
            },
            _ => self,
        }
    }

    /// The item with its angle replaced, where it has one.
    pub open spec fn with_angle(self, turn: F) -> Item<F, S> {
        match self {
            Item::Rect { r, color, thick, rot: _, filled } => Item::Rect {
                r,
                color,
                thick,
                rot: turn,
                filled,
            },
            Item::Ellipse { r, color, thick, rot: _, filled } => Item::Ellipse {
                r,
                color,
                thick,
                rot: turn,
                filled,
            },
            Item::Image { r, src_w, src_h, pixels, rot: _ } => Item::Image {
                r,
                src_w,
                src_h,
                pixels,
                rot: turn,
            },
            Item::Mosaic { r, rot: _, block, mode, seed } => Item::Mosaic {
                r,
                rot: turn,
                block,
                mode,
                seed,
            },
            Item::Text { pos, text, color, size, rot: _ } => Item::Text {
                pos,
                text,
                color,
                size,
                rot: turn,
            },
            _ => self,
        }
    }
}

impl<F: Copy, S: Copy> Annotation<F, S> {
    /// Replaces the display rectangle, where the item keeps one.
    pub fn set_frame(&mut self, q: (F, F, F, F))
        ensures
            final(self)@ == old(self)@.with_frame(q),
    {
        match self {
            Annotation::Rect { r, .. } => {
                *r = q;
            },
            Annotation::Ellipse { r, .. } => {
                *r = q;
            },
            Annotation::Image { r, .. } => {
                *r = q;
            },
            Annotation::Mosaic { r, .. } => {
                *r = q;
            },
            _ => {},
        }
    }

    /// Replaces the angle, where the item has one.
    pub fn set_angle(&mut self, turn: F)
        ensures
            final(self)@ == old(self)@.with_angle(turn),
    {
        match self {
            Annotation::Rect { rot, .. } => {
                *rot = turn;
            },
            Annotation::Ellipse { rot, .. } => {
                *rot = turn;
            },
            Annotation::Image { rot, .. } => {
                *rot = turn;
            },
            Annotation::Mosaic { rot, .. } => {
                *rot = turn;
            },
            Annotation::Text { rot, .. } => {
                *rot = turn;
            },
            _ => {},
        }
    }

    /// The display rectangle, for the kinds that keep one.
    pub fn get_frame(&self) -> (out: Option<(F, F, F, F)>)
        ensures
            out == self@.frame(),
    {
        match self {
            Annotation::Rect { r, .. } => Some(*r),
            Annotation::Ellipse { r, .. } => Some(*r),
            Annotation::Image { r, .. } => Some(*r),
            Annotation::Mosaic { r, .. } => Some(*r),
            _ => None,
        }
    }

    /// The item's own angle, for the kinds that rotate.
    pub fn get_angle(&self) -> (out: Option<F>)
        ensures
            out == self@.angle(),
    {
        match self {
            Annotation::Rect { rot, .. } => Some(*rot),
            Annotation::Ellipse { rot, .. } => Some(*rot),
            Annotation::Image { rot, .. } => Some(*rot),
            Annotation::Mosaic { rot, .. } => Some(*rot),
            Annotation::Text { rot, .. } => Some(*rot),
            _ => None,
        }
    }
}

// ---- Whole-number rectangles ----

/// The smaller of two integers.
pub open spec fn lesser(a: int, b: int) -> int {
    if a <= b {
        a
    } else {
        b
    }
}

/// The larger of two integers.
pub open spec fn greater(a: int, b: int) -> int {
    if a >= b {
        a
    } else {
        b
    }
}

/// The smaller of two numbers.
pub fn min_i(a: i64, b: i64) -> (r: i64)
    ensures
        r == lesser(a as int, b as int),
{
    if a <= b {
        a
    } else {
        b
    }
}

/// The larger of two numbers.
pub fn max_i(a: i64, b: i64) -> (r: i64)
    ensures
        r == greater(a as int, b as int),
{
    if a >= b {
        a
    } else {
        b
    }
}

/// The rectangle with its corners in order.
pub open spec fn normalized(r: (i64, i64, i64, i64)) -> (i64, i64, i64, i64) {
    (
        lesser(r.0 as int, r.2 as int) as i64,
        lesser(r.1 as int, r.3 as int) as i64,
        greater(r.0 as int, r.2 as int) as i64,
        greater(r.1 as int, r.3 as int) as i64,
    )
}

/// The smallest rectangle that holds both.
pub open spec fn joined(p: (i64, i64, i64, i64), q: (i64, i64, i64, i64)) -> (i64, i64, i64, i64) {
    (
        lesser(p.0 as int, q.0 as int) as i64,
        lesser(p.1 as int, q.1 as int) as i64,
        greater(p.2 as int, q.2 as int) as i64,
        greater(p.3 as int, q.3 as int) as i64,
    )
}

/// Whether `inner` lies within `outer`.
pub open spec fn spans(outer: (i64, i64, i64, i64), inner: (i64, i64, i64, i64)) -> bool {
    outer.0 <= inner.0 && outer.1 <= inner.1 && outer.2 >= inner.2 && outer.3 >= inner.3
}

/// Puts a rectangle's corners in order.
pub fn rect_norm(r: (i64, i64, i64, i64)) -> (n: (i64, i64, i64, i64))
    ensures
        n == normalized(r),
        n.0 <= n.2,
        n.1 <= n.3,
{
    (min_i(r.0, r.2), min_i(r.1, r.3), max_i(r.0, r.2), max_i(r.1, r.3))
}

/// The smallest rectangle that holds both.
pub fn rect_join(p: (i64, i64, i64, i64), q: (i64, i64, i64, i64)) -> (j: (i64, i64, i64, i64))
    ensures
        j == joined(p, q),
        spans(j, p),
        spans(j, q),
{
    (min_i(p.0, q.0), min_i(p.1, q.1), max_i(p.2, q.2), max_i(p.3, q.3))
}

/// The rectangle spanned by two points.
pub fn rect_of(a: (i64, i64), b: (i64, i64)) -> (r: (i64, i64, i64, i64))
    ensures
        r == normalized((a.0, a.1, b.0, b.1)),
{
    rect_norm((a.0, a.1, b.0, b.1))
}

/// Whether two points are within `tol` of each other on each axis.
pub open spec fn close_by(p: (i64, i64), q: (i64, i64), tol: int) -> bool {
    -tol <= p.0 - q.0 <= tol && -tol <= p.1 - q.1 <= tol
}

/// Whether two points are within `tol` on each axis: the test for grabbing a
/// handle or an endpoint. `tol` is in whole world px; a fractional tolerance
/// is rounded down, which decides the same for whole-numbered points.
pub fn near(p: (i64, i64), q: (i64, i64), tol: i64) -> (r: bool)
    ensures
        r == close_by(p, q, tol as int),
{
    let dx: i128 = p.0 as i128 - q.0 as i128;
    let dy: i128 = p.1 as i128 - q.1 as i128;
    let t: i128 = tol as i128;
    -t <= dx && dx <= t && -t <= dy && dy <= t
}

/// The midpoint between two ordered coordinates, rounded toward zero.
pub open spec fn middle(a: int, b: int) -> int {
    if a + b >= 0 {
        (a + b) / 2
    } else {
        -((-(a + b)) / 2)
    }
}

/// The eight handles of a rectangle with their places, corners first.
pub open spec fn handle_places(r: (i64, i64, i64, i64)) -> Seq<(Handle, (i64, i64))> {
    let n = normalized(r);
    let mx = middle(n.0 as int, n.2 as int) as i64;
    let my = middle(n.1 as int, n.3 as int) as i64;
    seq![
        (Handle::TopLeft, (n.0, n.1)),
        (Handle::TopRight, (n.2, n.1)),
        (Handle::BottomRight, (n.2, n.3)),
        (Handle::BottomLeft, (n.0, n.3)),
        (Handle::Top, (mx, n.1)),
        (Handle::Right, (n.2, my)),
        (Handle::Bottom, (mx, n.3)),
        (Handle::Left, (n.0, my)),
    ]
}

/// The midpoint between two coordinates, rounded toward zero.
fn mid(a: i64, b: i64) -> (m: i64)
    ensures
        m == middle(a as int, b as int),
{
    let sum: i128 = a as i128 + b as i128;
    let half: i128 = if sum >= 0 {
        sum / 2
    } else {
        -((-sum) / 2)
    };
    half as i64
}

/// A rectangle's handles, corners first, so that grabbing prefers corners.
pub fn rect_handles(r: (i64, i64, i64, i64)) -> (out: Vec<(Handle, (i64, i64))>)
    ensures
        out@ == handle_places(r),
{
    let (x0, y0, x1, y1) = rect_norm(r);
    let mx: i64 = mid(x0, x1);
    let my: i64 = mid(y0, y1);
    let mut out: Vec<(Handle, (i64, i64))> = Vec::new();
    out.push((Handle::TopLeft, (x0, y0)));
    out.push((Handle::TopRight, (x1, y0)));
    out.push((Handle::BottomRight, (x1, y1)));
    out.push((Handle::BottomLeft, (x0, y1)));
    out.push((Handle::Top, (mx, y0)));
    out.push((Handle::Right, (x1, my)));
    out.push((Handle::Bottom, (mx, y1)));
    out.push((Handle::Left, (x0, my)));
    assert(out@ =~= handle_places(r));
    out
}

/// The first of the handles within reach of `p`, from the `k`-th on.
pub open spec fn grabbed(r: (i64, i64, i64, i64), p: (i64, i64), tol: int, k: int) -> Option<Handle>
    decreases 8 - k,
{
    if k >= 8 {
        None
    } else if close_by(p, handle_places(r)[k].1, tol) {
        Some(handle_places(r)[k].0)
    } else {
        grabbed(r, p, tol, k + 1)
    }
}

/// The handle of `r` within `tol` of `p`, if any. Corners win over edges.
pub fn hit_rect_handle(r: (i64, i64, i64, i64), p: (i64, i64), tol: i64) -> (h: Option<Handle>)
    ensures
        h == grabbed(r, p, tol as int, 0),
{
    let handles = rect_handles(r);
    let mut k: usize = 0;
    while k < handles.len()
        invariant
            k <= handles@.len(),
            handles@ == handle_places(r),
            grabbed(r, p, tol as int, 0) == grabbed(r, p, tol as int, k as int),
        decreases handles.len() - k,
    {
        if near(p, handles[k].1, tol) {
            return Some(handles[k].0);
        }
        k += 1;
    }
    None
}

/// Whether the handle moves the near vertical edge.
pub open spec fn pulls_x0(h: Handle) -> bool {
    h == Handle::TopLeft || h == Handle::Left || h == Handle::BottomLeft
}

/// Whether the handle moves the far vertical edge.
pub open spec fn pulls_x1(h: Handle) -> bool {
    h == Handle::TopRight || h == Handle::Right || h == Handle::BottomRight
}

/// Whether the handle moves the near horizontal edge.
pub open spec fn pulls_y0(h: Handle) -> bool {
    h == Handle::TopLeft || h == Handle::Top || h == Handle::TopRight
}

/// Whether the handle moves the far horizontal edge.
pub open spec fn pulls_y1(h: Handle) -> bool {
    h == Handle::BottomLeft || h == Handle::Bottom || h == Handle::BottomRight
}

/// The rectangle after the edges of handle `h` were pulled to `p`, before its
/// corners are put in order.
pub open spec fn pulled(
    orig: (i64, i64, i64, i64),
    h: Handle,
    p: (i64, i64),
) -> (i64, i64, i64, i64) {
    (
        if pulls_x0(h) {
            p.0
        } else {
            orig.0
        },
        if pulls_y0(h) {
            p.1
        } else {
            orig.1
        },
        if pulls_x1(h) {
            p.0
        } else {
            orig.2
        },
        if pulls_y1(h) {
            p.1
        } else {
            orig.3
        },
    )
}

/// The rectangle after dragging handle `h` to `p`: only the handle's own
/// edges move. Flipping over is allowed.
pub fn resize_rect(orig: (i64, i64, i64, i64), h: Handle, p: (i64, i64)) -> (out: (
    i64,
    i64,
    i64,
    i64,
))
    ensures
        out == normalized(pulled(orig, h, p)),
{
    let (mut x0, mut y0, mut x1, mut y1) = orig;
    match h {
        Handle::TopLeft | Handle::Left | Handle::BottomLeft => {
            x0 = p.0;
        },
        Handle::TopRight | Handle::Right | Handle::BottomRight => {
            x1 = p.0;
        },
        Handle::Top | Handle::Bottom => {},
    }
    match h {
        Handle::TopLeft | Handle::Top | Handle::TopRight => {
            y0 = p.1;
        },
        Handle::BottomLeft | Handle::Bottom | Handle::BottomRight => {
            y1 = p.1;
        },
        Handle::Left | Handle::Right => {},
    }
    rect_norm((x0, y0, x1, y1))
}

/// Putting the corners in order a second time changes nothing.
pub proof fn law_norm_is_idempotent(r: (i64, i64, i64, i64))
    ensures
        normalized(normalized(r)) == normalized(r),
{
}

/// Dragging a handle to where its edges already are leaves an ordered
/// rectangle as it was.
pub proof fn law_resize_in_place(r: (i64, i64, i64, i64), h: Handle, p: (i64, i64))
    requires
        r.0 <= r.2,
        r.1 <= r.3,
        pulls_x0(h) ==> p.0 == r.0,
        pulls_x1(h) ==> p.0 == r.2,
        pulls_y0(h) ==> p.1 == r.1,
        pulls_y1(h) ==> p.1 == r.3,
    ensures
        normalized(pulled(r, h, p)) == r,
{
}

/// A handle placed on its rectangle is grabbed there: at the place of a
/// corner handle, a corner is found, whatever the tolerance.
pub proof fn law_corner_is_grabbed(r: (i64, i64, i64, i64), tol: int, k: int)
    requires
        0 <= tol,
        0 <= k < 4,
    ensures
        grabbed(r, handle_places(r)[k].1, tol, 0) is Some,
{
    reveal_with_fuel(grabbed, 5);
}

} // verus!

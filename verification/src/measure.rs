//! Bounding boxes, export bounds, and which items lie under a point or in a
//! marquee.

use vstd::prelude::*;

use crate::annotation::{
    greater, items_of, joined, lesser, max_i, normalized, rect_join, rect_norm, rect_of, spans, Annotation,
    Item,
};
use crate::order::{ascending, chosen, within};

verus! {

/// What floating-point geometry and font metrics tell of one item. Only the
/// part that belongs to the item's kind is read.
#[derive(Clone, Copy, Debug)]
pub struct Outline {
    /// The rounded corners of the rotated rectangle: the display rectangle
    /// of an image, rectangle or mosaic, the measured one of a text.
    pub corners: [(i64, i64); 4],
    /// The rounded bounding box of a rotated ellipse.
    pub oval: (i64, i64, i64, i64),
    /// A marker's radius in whole px, rounded down.
    pub radius: i64,
    /// How far from its position a marker is painted, disc and number, in
    /// whole px, rounded up.
    pub reach: i64,
    /// The pixel boxes around an arrow's two barb tips, or nothing for an
    /// arrow too short to have a head.
    pub barbs: Option<((i64, i64, i64, i64), (i64, i64, i64, i64))>,
}

/// The box of one point.
pub open spec fn dot(p: (i64, i64)) -> (i64, i64, i64, i64) {
    (p.0, p.1, p.0, p.1)
}

/// The box of four corners.
pub open spec fn corner_box(c: Seq<(i64, i64)>) -> (i64, i64, i64, i64) {
    joined(joined(joined(dot(c[0]), dot(c[1])), dot(c[2])), dot(c[3]))
}

/// The box of a point list. With no points it is inside out.
pub open spec fn points_box(points: Seq<(i64, i64)>) -> (i64, i64, i64, i64)
    decreases points.len(),
{
    if points.len() == 0 {
        (i64::MAX, i64::MAX, i64::MIN, i64::MIN)
    } else {
        joined(points_box(points.drop_last()), dot(points.last()))
    }
}

/// The tight box around an item's shape, without line thickness or barbs.
pub open spec fn tight_box<F, S>(a: Item<F, S>, o: Outline) -> (i64, i64, i64, i64) {
    match a {
        Item::Image { .. } => corner_box(o.corners@),
        Item::Rect { .. } => corner_box(o.corners@),
        Item::Mosaic { .. } => corner_box(o.corners@),
        Item::Text { .. } => corner_box(o.corners@),
        Item::Arrow { a: p, b: q, .. } => normalized((p.0, p.1, q.0, q.1)),
        Item::Polyline { points, .. } => points_box(points),
        Item::NumberMarker { pos, .. } => (
            (pos.0 - o.radius) as i64,
            (pos.1 - o.radius) as i64,
            (pos.0 + o.radius) as i64,
            (pos.1 + o.radius) as i64,
        ),
        Item::Guide { r } => normalized(r),
        Item::Ellipse { .. } => o.oval,
    }
}

/// Whether the tight box fits.
pub open spec fn boxable<F, S>(a: Item<F, S>, o: Outline) -> bool {
    a matches Item::NumberMarker { pos, .. } ==> i64::MIN <= pos.0 - o.radius <= i64::MAX
        && i64::MIN <= pos.1 - o.radius <= i64::MAX && i64::MIN <= pos.0 + o.radius <= i64::MAX
        && i64::MIN <= pos.1 + o.radius <= i64::MAX
}

/// Half a line's thickness, rounded up: how far a line is drawn beyond its
/// own center.
pub open spec fn half_thick(thick: int) -> int {
    (greater(thick, 1) + 1) / 2
}

/// A box grown by `pad` on each side.
pub open spec fn grown(b: (i64, i64, i64, i64), pad: int) -> (i64, i64, i64, i64) {
    ((b.0 - pad) as i64, (b.1 - pad) as i64, (b.2 + pad) as i64, (b.3 + pad) as i64)
}

/// Whether the grown box fits.
pub open spec fn growable(b: (i64, i64, i64, i64), pad: int) -> bool {
    b.0 - pad >= i64::MIN && b.1 - pad >= i64::MIN && b.2 + pad <= i64::MAX && b.3 + pad
        <= i64::MAX
}

/// The line thickness drawn beyond the item's shape, if any. A filled shape
/// ignores its thickness.
pub open spec fn outline_thick<F, S>(a: Item<F, S>) -> Option<i64> {
    match a {
        Item::Rect { thick, filled, .. } => if filled {
            None
        } else {
            Some(thick)
        },
        Item::Ellipse { thick, filled, .. } => if filled {
            None
        } else {
            Some(thick)
        },
        Item::Arrow { thick, .. } => Some(thick),
        Item::Polyline { thick, .. } => Some(thick),
        _ => None,
    }
}

/// The least radius that a marker's disc is painted with, in px.
pub const MARKER_LEAST: i64 = 6;

/// How far from its position a marker is drawn: as far as it is painted, and
/// no less than its own radius or the least one.
pub open spec fn marker_reach(o: Outline) -> int {
    greater(greater(o.reach as int, o.radius as int), MARKER_LEAST as int)
}

/// The square around a point, `d` away on each side.
pub open spec fn square(p: (i64, i64), d: int) -> (i64, i64, i64, i64) {
    ((p.0 - d) as i64, (p.1 - d) as i64, (p.0 + d) as i64, (p.1 + d) as i64)
}

/// Whether the square around a point fits.
pub open spec fn squarable(p: (i64, i64), d: int) -> bool {
    i64::MIN <= p.0 - d && i64::MIN <= p.1 - d && p.0 + d <= i64::MAX && p.1 + d <= i64::MAX
}

/// The item's shape with an arrow's barb tips.
pub open spec fn barbed_box<F, S>(a: Item<F, S>, o: Outline) -> (i64, i64, i64, i64) {
    match a {
        Item::Arrow { .. } => match o.barbs {
            Some(tips) => joined(joined(tight_box(a, o), tips.0), tips.1),
            None => tight_box(a, o),
        },
        _ => tight_box(a, o),
    }
}

/// The box around everything drawn for an item: its shape, an arrow's barb
/// tips, half the line thickness on each side, and all of a marker's disc and
/// number.
pub open spec fn drawn_box<F, S>(a: Item<F, S>, o: Outline) -> (i64, i64, i64, i64) {
    match (outline_thick(a), a) {
        (Some(thick), _) => grown(barbed_box(a, o), half_thick(thick as int)),
        (None, Item::NumberMarker { pos, .. }) => square(pos, marker_reach(o)),
        (None, _) => tight_box(a, o),
    }
}

/// Whether the drawn box fits.
pub open spec fn drawable<F, S>(a: Item<F, S>, o: Outline) -> bool {
    &&& boxable(a, o)
    &&& outline_thick(a) matches Some(thick) ==> thick < i64::MAX && growable(
        barbed_box(a, o),
        half_thick(thick as int),
    )
    &&& a matches Item::NumberMarker { pos, .. } ==> squarable(pos, marker_reach(o))
}

/// How far from its position a marker is drawn.
fn reach_of(o: &Outline) -> (d: i64)
    ensures
        d == marker_reach(*o),
{
    max_i(max_i(o.reach, o.radius), MARKER_LEAST)
}

/// The box of the four corners of a rotated rectangle.
pub fn rotated_rect_bbox(corners: &[(i64, i64); 4]) -> (b: (i64, i64, i64, i64))
    ensures
        b == corner_box(corners@),
{
    let c0 = corners[0];
    let c1 = corners[1];
    let c2 = corners[2];
    let c3 = corners[3];
    let j = rect_join((c0.0, c0.1, c0.0, c0.1), (c1.0, c1.1, c1.0, c1.1));
    let k = rect_join(j, (c2.0, c2.1, c2.0, c2.1));
    rect_join(k, (c3.0, c3.1, c3.0, c3.1))
}

/// The box of a point list. With no points it is inside out.
pub fn points_bbox(points: &Vec<(i64, i64)>) -> (b: (i64, i64, i64, i64))
    ensures
        b == points_box(points@),
{
    let mut b: (i64, i64, i64, i64) = (i64::MAX, i64::MAX, i64::MIN, i64::MIN);
    let mut i: usize = 0;
    while i < points.len()
        invariant
            i <= points.len(),
            b == points_box(points@.take(i as int)),
        decreases points.len() - i,
    {
        let p = points[i];
        b = rect_join(b, (p.0, p.1, p.0, p.1));
        assert(points@.take(i + 1).drop_last() =~= points@.take(i as int));
        assert(points@.take(i + 1).last() == p);
        i += 1;
    }
    assert(points@.take(points@.len() as int) =~= points@);
    b
}

/// An item's bounding box: the selection outline and marquee test use it. It
/// hugs the shape, without line thickness or arrowhead.
pub fn item_bbox<F: Copy, S: Copy>(ann: &Annotation<F, S>, o: &Outline) -> (b: (
    i64,
    i64,
    i64,
    i64,
))
    requires
        boxable(ann@, *o),
    ensures
        b == tight_box(ann@, *o),
{
    match ann {
        Annotation::Image { .. } | Annotation::Rect { .. } | Annotation::Mosaic { .. }
        | Annotation::Text { .. } => rotated_rect_bbox(&o.corners),
        Annotation::Arrow { a, b, .. } => rect_of(*a, *b),
        Annotation::Polyline { points, .. } => points_bbox(points),
        Annotation::NumberMarker { pos, .. } => {
            let r: i64 = o.radius;
            (pos.0 - r, pos.1 - r, pos.0 + r, pos.1 + r)
        },
        Annotation::Guide { r } => rect_norm(*r),
        Annotation::Ellipse { .. } => o.oval,
    }
}

/// A box grown by half the line thickness.
fn grow(b: (i64, i64, i64, i64), thick: i64) -> (g: (i64, i64, i64, i64))
    requires
        thick < i64::MAX,
        growable(b, half_thick(thick as int)),
    ensures
        g == grown(b, half_thick(thick as int)),
{
    let t: i64 = if thick >= 1 {
        thick
    } else {
        1
    };
    let pad: i64 = (t + 1) / 2;
    (b.0 - pad, b.1 - pad, b.2 + pad, b.3 + pad)
}

/// The box around everything drawn for an item: [`item_bbox`] with an
/// arrow's barb tips and half the line thickness, and for a marker as far as
/// its disc and number are painted. Only export bounds use it.
pub fn item_export_bbox<F: Copy, S: Copy>(ann: &Annotation<F, S>, o: &Outline) -> (b: (
    i64,
    i64,
    i64,
    i64,
))
    requires
        drawable(ann@, *o),
    ensures
        b == drawn_box(ann@, *o),
{
    match ann {
        Annotation::Rect { thick, filled, .. } | Annotation::Ellipse { thick, filled, .. } => {
            let b = item_bbox(ann, o);
            if *filled {
                b
            } else {
                grow(b, *thick)
            }
        },
        Annotation::Arrow { thick, .. } => {
            let mut b = item_bbox(ann, o);
            if let Some((t0, t1)) = o.barbs {
                b = rect_join(rect_join(b, t0), t1);
            }
            grow(b, *thick)
        },
        Annotation::Polyline { thick, .. } => grow(item_bbox(ann, o), *thick),
        Annotation::NumberMarker { pos, .. } => {
            let d: i64 = reach_of(o);
            (pos.0 - d, pos.1 - d, pos.0 + d, pos.1 + d)
        },
        _ => item_bbox(ann, o),
    }
}

/// Whether an item's bounding box fits.
pub fn is_boxable<F: Copy, S: Copy>(ann: &Annotation<F, S>, o: &Outline) -> (r: bool)
    ensures
        r == boxable(ann@, *o),
{
    match ann {
        Annotation::NumberMarker { pos, .. } => {
            let least: i128 = i64::MIN as i128;
            let most: i128 = i64::MAX as i128;
            let (x, y, d) = (pos.0 as i128, pos.1 as i128, o.radius as i128);
            least <= x - d && x - d <= most && least <= y - d && y - d <= most && least <= x + d
                && x + d <= most && least <= y + d && y + d <= most
        },
        _ => true,
    }
}

/// Whether a box grown by half the line thickness fits.
fn is_growable(b: (i64, i64, i64, i64), thick: i64) -> (r: bool)
    ensures
        r == (thick < i64::MAX && growable(b, half_thick(thick as int))),
{
    if thick == i64::MAX {
        return false;
    }
    let t: i64 = if thick >= 1 {
        thick
    } else {
        1
    };
    let pad: i64 = (t + 1) / 2;
    b.0 >= i64::MIN + pad && b.1 >= i64::MIN + pad && b.2 <= i64::MAX - pad && b.3 <= i64::MAX - pad
}

/// Whether the box around everything drawn for an item fits.
fn is_drawable<F: Copy, S: Copy>(ann: &Annotation<F, S>, o: &Outline) -> (r: bool)
    ensures
        r == drawable(ann@, *o),
{
    if !is_boxable(ann, o) {
        return false;
    }
    match ann {
        Annotation::Rect { thick, filled, .. } | Annotation::Ellipse { thick, filled, .. } => {
            *filled || is_growable(item_bbox(ann, o), *thick)
        },
        Annotation::Arrow { thick, .. } => {
            let mut b = item_bbox(ann, o);
            if let Some((t0, t1)) = o.barbs {
                b = rect_join(rect_join(b, t0), t1);
            }
            is_growable(b, *thick)
        },
        Annotation::Polyline { thick, .. } => is_growable(item_bbox(ann, o), *thick),
        Annotation::NumberMarker { pos, .. } => {
            let d: i64 = reach_of(o);
            pos.0 >= i64::MIN + d && pos.1 >= i64::MIN + d && pos.0 <= i64::MAX - d && pos.1
                <= i64::MAX - d
        },
        _ => true,
    }
}

/// Whether there is an outline for each item, with which everything drawn
/// for it fits.
pub fn all_drawable<F: Copy, S: Copy>(
    annotations: &Vec<Annotation<F, S>>,
    outlines: &Vec<Outline>,
) -> (r: bool)
    ensures
        r == (outlines@.len() == annotations@.len() && forall|i: int|
            0 <= i < annotations@.len() ==> drawable(#[trigger] annotations@[i]@, outlines@[i])),
{
    if outlines.len() != annotations.len() {
        return false;
    }
    let mut i: usize = 0;
    while i < annotations.len()
        invariant
            i <= annotations@.len() == outlines@.len(),
            forall|k: int| 0 <= k < i ==> drawable(#[trigger] annotations@[k]@, outlines@[k]),
        decreases annotations.len() - i,
    {
        if !is_drawable(&annotations[i], &outlines[i]) {
            return false;
        }
        i += 1;
    }
    true
}

// ---- Bounds of several items ----

/// The smallest rectangle that holds every box, or nothing for no boxes.
pub open spec fn union_of(boxes: Seq<(i64, i64, i64, i64)>) -> Option<(i64, i64, i64, i64)>
    decreases boxes.len(),
{
    if boxes.len() == 0 {
        None
    } else {
        match union_of(boxes.drop_last()) {
            None => Some(boxes.last()),
            Some(acc) => Some(joined(acc, boxes.last())),
        }
    }
}

/// The union holds every box.
pub proof fn law_union_holds_each(boxes: Seq<(i64, i64, i64, i64)>, i: int)
    requires
        0 <= i < boxes.len(),
    ensures
        union_of(boxes) is Some,
        spans(union_of(boxes).unwrap(), boxes[i]),
    decreases boxes.len(),
{
    if boxes.len() > 1 {
        if i < boxes.len() - 1 {
            law_union_holds_each(boxes.drop_last(), i);
        } else {
            law_union_holds_each(boxes.drop_last(), 0);
        }
    }
}

/// The union is the smallest: any rectangle that holds every box holds the
/// union.
pub proof fn law_union_is_smallest(boxes: Seq<(i64, i64, i64, i64)>, outer: (i64, i64, i64, i64))
    requires
        boxes.len() > 0,
        forall|i: int| 0 <= i < boxes.len() ==> spans(outer, #[trigger] boxes[i]),
    ensures
        union_of(boxes) is Some,
        spans(outer, union_of(boxes).unwrap()),
    decreases boxes.len(),
{
    assert(spans(outer, boxes[boxes.len() - 1]));
    if boxes.len() > 1 {
        assert forall|i: int| 0 <= i < boxes.drop_last().len() implies spans(
            outer,
            #[trigger] boxes.drop_last()[i],
        ) by {
            assert(boxes.drop_last()[i] == boxes[i]);
        }
        law_union_is_smallest(boxes.drop_last(), outer);
    }
}

/// The drawn boxes of a list of items.
pub open spec fn drawn_boxes<F, S>(items: Seq<Item<F, S>>, outlines: Seq<Outline>) -> Seq<
    (i64, i64, i64, i64),
> {
    Seq::new(items.len(), |i: int| drawn_box(items[i], outlines[i]))
}

/// The tight boxes of the selected items. An index beyond the items counts
/// for nothing.
pub open spec fn picked_boxes<F, S>(
    items: Seq<Item<F, S>>,
    outlines: Seq<Outline>,
    selected: Seq<usize>,
) -> Seq<(i64, i64, i64, i64)>
    decreases selected.len(),
{
    if selected.len() == 0 {
        Seq::empty()
    } else {
        let rest = picked_boxes(items, outlines, selected.drop_last());
        let i = selected.last() as int;
        if i < items.len() {
            rest.push(tight_box(items[i], outlines[i]))
        } else {
            rest
        }
    }
}

/// The rectangle that holds everything drawn, for the export bounds. Nothing
/// for no items.
pub fn annotations_bounds<F: Copy, S: Copy>(
    annotations: &Vec<Annotation<F, S>>,
    outlines: &Vec<Outline>,
) -> (b: Option<(i64, i64, i64, i64)>)
    requires
        outlines@.len() == annotations@.len(),
        forall|i: int|
            0 <= i < annotations@.len() ==> drawable(#[trigger] annotations@[i]@, outlines@[i]),
    ensures
        b == union_of(drawn_boxes(items_of(annotations@), outlines@)),
{
    let ghost boxes = drawn_boxes(items_of(annotations@), outlines@);
    let mut b: Option<(i64, i64, i64, i64)> = None;
    let mut i: usize = 0;
    while i < annotations.len()
        invariant
            i <= annotations.len(),
            outlines@.len() == annotations@.len(),
            boxes == drawn_boxes(items_of(annotations@), outlines@),
            forall|k: int|
                0 <= k < annotations@.len() ==> drawable(#[trigger] annotations@[k]@, outlines@[k]),
            b == union_of(boxes.take(i as int)),
        decreases annotations.len() - i,
    {
        assert(drawable(annotations@[i as int]@, outlines@[i as int]));
        let next = item_export_bbox(&annotations[i], &outlines[i]);
        assert(boxes.take(i + 1).drop_last() =~= boxes.take(i as int));
        assert(boxes.take(i + 1).last() == next);
        b = match b {
            None => Some(next),
            Some(acc) => Some(rect_join(acc, next)),
        };
        i += 1;
    }
    assert(boxes.take(boxes.len() as int) =~= boxes);
    b
}

/// The rectangle that holds the selected items' shapes, the reference for a
/// group transform. Nothing if no selected index names an item.
pub fn selection_bounds<F: Copy, S: Copy>(
    annotations: &Vec<Annotation<F, S>>,
    selected: &[usize],
    outlines: &Vec<Outline>,
) -> (b: Option<(i64, i64, i64, i64)>)
    requires
        outlines@.len() == annotations@.len(),
        forall|i: int|
            0 <= i < annotations@.len() ==> boxable(#[trigger] annotations@[i]@, outlines@[i]),
    ensures
        b == union_of(picked_boxes(items_of(annotations@), outlines@, selected@)),
{
    let ghost items = items_of(annotations@);
    let mut b: Option<(i64, i64, i64, i64)> = None;
    let mut t: usize = 0;
    while t < selected.len()
        invariant
            t <= selected.len(),
            outlines@.len() == annotations@.len(),
            items == items_of(annotations@),
            forall|k: int|
                0 <= k < annotations@.len() ==> boxable(#[trigger] annotations@[k]@, outlines@[k]),
            b == union_of(picked_boxes(items, outlines@, selected@.take(t as int))),
        decreases selected.len() - t,
    {
        let i: usize = selected[t];
        assert(selected@.take(t + 1).drop_last() =~= selected@.take(t as int));
        let ghost rest = picked_boxes(items, outlines@, selected@.take(t as int));
        if i < annotations.len() {
            assert(boxable(annotations@[i as int]@, outlines@[i as int]));
            let next = item_bbox(&annotations[i], &outlines[i]);
            assert(rest.push(next).drop_last() =~= rest);
            b = match b {
                None => Some(next),
                Some(acc) => Some(rect_join(acc, next)),
            };
        }
        t += 1;
    }
    assert(selected@.take(selected@.len() as int) =~= selected@);
    b
}

/// The drawn box holds the tight one: nothing of an item's shape is cut off
/// by the export bounds.
pub proof fn law_drawn_box_holds_shape<F, S>(a: Item<F, S>, o: Outline)
    requires
        drawable(a, o),
    ensures
        spans(drawn_box(a, o), tight_box(a, o)),
{
}

/// A marker's drawn box holds its disc and number as far as they are painted,
/// and a disc of the least radius however small the marker is.
pub proof fn law_drawn_box_holds_marker<F, S>(a: Item<F, S>, o: Outline)
    requires
        drawable(a, o),
        a is NumberMarker,
        o.reach >= 0,
    ensures
        a matches Item::NumberMarker { pos, .. } ==> {
            &&& spans(drawn_box(a, o), square(pos, o.reach as int))
            &&& spans(drawn_box(a, o), square(pos, MARKER_LEAST as int))
        },
{
}

/// Everything drawn for an item, and its shape, lies within the export bounds
/// of the whole list.
pub proof fn law_export_bounds_hold_every_item<F, S>(
    items: Seq<Item<F, S>>,
    outlines: Seq<Outline>,
    i: int,
)
    requires
        0 <= i < items.len(),
        drawable(items[i], outlines[i]),
    ensures
        union_of(drawn_boxes(items, outlines)) is Some,
        spans(union_of(drawn_boxes(items, outlines)).unwrap(), drawn_box(items[i], outlines[i])),
        spans(union_of(drawn_boxes(items, outlines)).unwrap(), tight_box(items[i], outlines[i])),
{
    law_union_holds_each(drawn_boxes(items, outlines), i);
    law_drawn_box_holds_shape(items[i], outlines[i]);
}

// ---- The guide ----

/// Whether the item is the export guide.
pub open spec fn is_guide<F, S>(a: Item<F, S>) -> bool {
    a is Guide
}

/// Whether the item is the export guide.
pub fn guide_item<F: Copy, S: Copy>(ann: &Annotation<F, S>) -> (r: bool)
    ensures
        r == is_guide(ann@),
{
    matches!(ann, Annotation::Guide { .. })
}

/// The place of the first guide at or after `k`.
pub open spec fn guide_from<F, S>(items: Seq<Item<F, S>>, k: int) -> Option<int>
    decreases items.len() - k,
{
    if k >= items.len() {
        None
    } else if is_guide(items[k]) {
        Some(k)
    } else {
        guide_from(items, k + 1)
    }
}

/// The rectangle of the first guide, as it is kept.
pub open spec fn guide_rect<F, S>(items: Seq<Item<F, S>>) -> Option<(i64, i64, i64, i64)> {
    match guide_from(items, 0) {
        Some(k) => Some(items[k]->Guide_r),
        None => None,
    }
}

/// The place of the first guide, if there is one.
pub fn guide_index<F: Copy, S: Copy>(annotations: &Vec<Annotation<F, S>>) -> (out: Option<usize>)
    ensures
        match out {
            Some(i) => guide_from(items_of(annotations@), 0) == Some(i as int) && i
                < annotations@.len() && is_guide(annotations@[i as int]@),
            None => guide_from(items_of(annotations@), 0) == None::<int>,
        },
{
    let ghost items = items_of(annotations@);
    let mut i: usize = 0;
    while i < annotations.len()
        invariant
            i <= annotations.len(),
            items == items_of(annotations@),
            guide_from(items, 0) == guide_from(items, i as int),
        decreases annotations.len() - i,
    {
        if guide_item(&annotations[i]) {
            return Some(i);
        }
        i += 1;
    }
    None
}

/// The first guide's rectangle with its corners in order.
pub fn guide_bounds<F: Copy, S: Copy>(annotations: &Vec<Annotation<F, S>>) -> (out: Option<
    (i64, i64, i64, i64),
>)
    ensures
        out == match guide_rect(items_of(annotations@)) {
            Some(r) => Some(normalized(r)),
            None => None,
        },
{
    match guide_index(annotations) {
        Some(i) => match &annotations[i] {
            Annotation::Guide { r } => Some(rect_norm(*r)),
            _ => None,
        },
        None => None,
    }
}

/// The export bounds: the guide's rectangle if there is one, else everything
/// drawn, else a single pixel.
pub fn export_bounds<F: Copy, S: Copy>(
    annotations: &Vec<Annotation<F, S>>,
    outlines: &Vec<Outline>,
) -> (b: (i64, i64, i64, i64))
    requires
        outlines@.len() == annotations@.len(),
        forall|i: int|
            0 <= i < annotations@.len() ==> drawable(#[trigger] annotations@[i]@, outlines@[i]),
    ensures
        b == match guide_rect(items_of(annotations@)) {
            Some(r) => normalized(r),
            None => match union_of(drawn_boxes(items_of(annotations@), outlines@)) {
                Some(u) => u,
                None => (0, 0, 1, 1),
            },
        },
{
    match guide_bounds(annotations) {
        Some(r) => r,
        None => match annotations_bounds(annotations, outlines) {
            Some(u) => u,
            None => (0, 0, 1, 1),
        },
    }
}

/// The longest side of an exported picture.
pub const EXPORT_MAX: usize = 20000;

/// The length of a side from `lo` to `hi`: at least one pixel.
pub open spec fn side(lo: int, hi: int) -> int {
    greater(hi - lo, 1)
}

/// The size of the exported picture: the bounds' size, at least one pixel and
/// at most [`EXPORT_MAX`] a side.
pub fn export_size(b: (i64, i64, i64, i64)) -> (s: (usize, usize))
    ensures
        s.0 == lesser(side(b.0 as int, b.2 as int), EXPORT_MAX as int),
        s.1 == lesser(side(b.1 as int, b.3 as int), EXPORT_MAX as int),
        1 <= s.0 <= EXPORT_MAX,
        1 <= s.1 <= EXPORT_MAX,
{
    (export_side(b.0, b.2), export_side(b.1, b.3))
}

fn export_side(lo: i64, hi: i64) -> (n: usize)
    ensures
        n == lesser(side(lo as int, hi as int), EXPORT_MAX as int),
        1 <= n <= EXPORT_MAX,
{
    let d: i128 = hi as i128 - lo as i128;
    if d < 1 {
        1
    } else if d > 20000 {
        EXPORT_MAX
    } else {
        d as usize
    }
}

// ---- Picking ----

/// The frontmost item the pointer touches. `touched` says of each item
/// whether the point lies on it. The guide is never picked.
pub fn hit_item<F: Copy, S: Copy>(annotations: &Vec<Annotation<F, S>>, touched: &Vec<bool>) -> (
    hit: Option<usize>)
    requires
        touched@.len() == annotations@.len(),
    ensures
        match hit {
            Some(i) => {
                &&& i < annotations@.len()
                &&& touched@[i as int]
                &&& !is_guide(annotations@[i as int]@)
                &&& forall|j: int|
                    i < j < annotations@.len() ==> !#[trigger] touched@[j] || is_guide(
                        annotations@[j]@,
                    )
            },
            None => forall|j: int|
                0 <= j < annotations@.len() ==> !#[trigger] touched@[j] || is_guide(
                    annotations@[j]@,
                ),
        },
{
    let mut n: usize = annotations.len();
    while n > 0
        invariant
            n <= annotations.len(),
            touched@.len() == annotations@.len(),
            forall|j: int|
                n <= j < annotations@.len() ==> !#[trigger] touched@[j] || is_guide(
                    annotations@[j]@,
                ),
        decreases n,
    {
        let i: usize = n - 1;
        if touched[i] && !guide_item(&annotations[i]) {
            return Some(i);
        }
        n = i;
    }
    None
}

/// Whether two rectangles overlap in more than an edge.
pub open spec fn overlaps(p: (i64, i64, i64, i64), q: (i64, i64, i64, i64)) -> bool {
    p.0 < q.2 && p.2 > q.0 && p.1 < q.3 && p.3 > q.1
}

/// Whether a marquee `rect` takes the item: by its rotated outline, for the
/// kinds that have one (`crosses`), by its tight box for the others. The
/// guide is never taken.
pub open spec fn marquee_takes<F, S>(
    a: Item<F, S>,
    o: Outline,
    crosses: bool,
    rect: (i64, i64, i64, i64),
) -> bool {
    match a {
        Item::Guide { .. } => false,
        Item::Rect { .. } => crosses,
        Item::Ellipse { .. } => crosses,
        Item::Image { .. } => crosses,
        Item::Mosaic { .. } => crosses,
        Item::Text { .. } => crosses,
        _ => overlaps(tight_box(a, o), rect),
    }
}

fn takes<F: Copy, S: Copy>(
    ann: &Annotation<F, S>,
    o: &Outline,
    crosses: bool,
    rect: (i64, i64, i64, i64),
) -> (r: bool)
    requires
        boxable(ann@, *o),
    ensures
        r == marquee_takes(ann@, *o, crosses, rect),
{
    match ann {
        Annotation::Guide { .. } => false,
        Annotation::Rect { .. } | Annotation::Ellipse { .. } | Annotation::Image { .. }
        | Annotation::Mosaic { .. } | Annotation::Text { .. } => crosses,
        _ => {
            let (x0, y0, x1, y1) = item_bbox(ann, o);
            x0 < rect.2 && x1 > rect.0 && y0 < rect.3 && y1 > rect.1
        },
    }
}

/// The places of the items that a marquee takes, ascending.
pub fn hit_items_in_rect<F: Copy, S: Copy>(
    annotations: &Vec<Annotation<F, S>>,
    rect: (i64, i64, i64, i64),
    outlines: &Vec<Outline>,
    crosses: &Vec<bool>,
) -> (hits: Vec<usize>)
    requires
        outlines@.len() == annotations@.len(),
        crosses@.len() == annotations@.len(),
        forall|i: int|
            0 <= i < annotations@.len() ==> boxable(#[trigger] annotations@[i]@, outlines@[i]),
    ensures
        ascending(hits@),
        within(hits@, annotations@.len() as int),
        forall|i: int|
            #[trigger] chosen(hits@, i) == (0 <= i < annotations@.len() && marquee_takes(
                annotations@[i]@,
                outlines@[i],
                crosses@[i],
                rect,
            )),
{
    let mut hits: Vec<usize> = Vec::new();
    let mut i: usize = 0;
    while i < annotations.len()
        invariant
            i <= annotations.len(),
            outlines@.len() == annotations@.len(),
            crosses@.len() == annotations@.len(),
            forall|k: int|
                0 <= k < annotations@.len() ==> boxable(#[trigger] annotations@[k]@, outlines@[k]),
            ascending(hits@),
            within(hits@, i as int),
            forall|k: int|
                #[trigger] chosen(hits@, k) == (0 <= k < i && marquee_takes(
                    annotations@[k]@,
                    outlines@[k],
                    crosses@[k],
                    rect,
                )),
        decreases annotations.len() - i,
    {
        assert(boxable(annotations@[i as int]@, outlines@[i as int]));
        let ghost before = hits@;
        if takes(&annotations[i], &outlines[i], crosses[i], rect) {
            hits.push(i);
            proof {
                assert(hits@[before.len() as int] == i as int);
                assert forall|k: int|
                    #[trigger] chosen(hits@, k) == (chosen(before, k) || k == i) by {
                    if chosen(before, k) {
                        let s = choose|s: int| 0 <= s < before.len() && before[s] == k;
                        assert(hits@[s] == k);
                    }
                    if chosen(hits@, k) {
                        let s = choose|s: int| 0 <= s < hits@.len() && hits@[s] == k;
                        if s < before.len() {
                            assert(before[s] == k);
                        }
                    }
                }
            }
        }
        i += 1;
    }
    hits
}

// ---- Common angle and next marker ----

/// The angle an item counts with in a group: its own, or `zero` for a kind
/// that does not rotate.
pub open spec fn effective_angle<F, S>(a: Item<F, S>, zero: F) -> F {
    match a.angle() {
        Some(t) => t,
        None => zero,
    }
}

/// The first selected index that names an item, from the `t`-th on.
pub open spec fn first_named(selected: Seq<usize>, len: int, t: int) -> Option<int>
    decreases selected.len() - t,
{
    if t >= selected.len() {
        None
    } else if selected[t] < len {
        Some(selected[t] as int)
    } else {
        first_named(selected, len, t + 1)
    }
}

/// The selected items' angle if they all agree with the first one by `same`,
/// else `zero`. Indices beyond the items are skipped.
pub fn common_rotation<F: Copy, S: Copy, E: Fn(F, F) -> bool>(
    annotations: &Vec<Annotation<F, S>>,
    selected: &[usize],
    zero: F,
    same: &E,
) -> (out: F)
    requires
        forall|p: F, q: F| call_requires(*same, (p, q)),
    ensures
        match first_named(selected@, annotations@.len() as int, 0) {
            None => out == zero,
            Some(k) => {
                let c = effective_angle(annotations@[k]@, zero);
                ||| out == c && forall|t: int|
                    0 <= t < selected@.len() && #[trigger] selected@[t] < annotations@.len()
                        && selected@[t] != k ==> call_ensures(
                        *same,
                        (c, effective_angle(annotations@[selected@[t] as int]@, zero)),
                        true,
                    )
                ||| out == zero && exists|t: int|
                    0 <= t < selected@.len() && #[trigger] selected@[t] < annotations@.len()
                        && call_ensures(
                        *same,
                        (c, effective_angle(annotations@[selected@[t] as int]@, zero)),
                        false,
                    )
            },
        },
{
    let ghost len = annotations@.len() as int;
    let mut common: Option<F> = None;
    let mut t: usize = 0;
    while t < selected.len()
        invariant
            t <= selected.len(),
            len == annotations@.len(),
            forall|p: F, q: F| call_requires(*same, (p, q)),
            match common {
                None => first_named(selected@, len, 0) == first_named(selected@, len, t as int),
                Some(c) => {
                    &&& first_named(selected@, len, 0) matches Some(k) && 0 <= k < len && c
                        == effective_angle(annotations@[k]@, zero) && forall|s: int|
                        0 <= s < t && #[trigger] selected@[s] < len && selected@[s] != k
                            ==> call_ensures(
                            *same,
                            (c, effective_angle(annotations@[selected@[s] as int]@, zero)),
                            true,
                        )
                },
            },
            common is None ==> forall|s: int| 0 <= s < t ==> #[trigger] selected@[s] >= len,
        decreases selected.len() - t,
    {
        let i: usize = selected[t];
        if i < annotations.len() {
            let r = match annotations[i].get_angle() {
                Some(v) => v,
                None => zero,
            };
            match common {
                None => {
                    common = Some(r);
                },
                Some(c) => {
                    if !same(c, r) {
                        assert(selected@[t as int] < len);
                        return zero;
                    }
                },
            }
        }
        t += 1;
    }
    match common {
        Some(c) => c,
        None => zero,
    }
}

/// The number of a marker.
pub open spec fn marker_number<F, S>(a: Item<F, S>) -> Option<u32> {
    match a {
        Item::NumberMarker { number, .. } => Some(number),
        _ => None,
    }
}

/// The number for the next marker: one more than the largest there is, or 1
/// without any. It is read off the items, so it stays right after an undo.
pub fn next_marker_number<F: Copy, S: Copy>(annotations: &Vec<Annotation<F, S>>) -> (n: u32)
    requires
        forall|i: int|
            0 <= i < annotations@.len() ==> marker_number(#[trigger] annotations@[i]@) != Some(
                u32::MAX,
            ),
    ensures
        forall|i: int|
            0 <= i < annotations@.len() ==> (marker_number(
                #[trigger] annotations@[i]@,
            ) matches Some(m) ==> m < n),
        n == 1 || exists|i: int|
            0 <= i < annotations@.len() && marker_number(#[trigger] annotations@[i]@) == Some(
                (n - 1) as u32,
            ),
        n >= 1,
{
    let mut best: Option<u32> = None;
    let mut i: usize = 0;
    while i < annotations.len()
        invariant
            i <= annotations.len(),
            forall|k: int|
                0 <= k < annotations@.len() ==> marker_number(#[trigger] annotations@[k]@) != Some(
                    u32::MAX,
                ),
            best is None ==> forall|k: int|
                0 <= k < i ==> marker_number(#[trigger] annotations@[k]@) is None,
            best matches Some(m) ==> m < u32::MAX && (exists|k: int|
                0 <= k < i && marker_number(#[trigger] annotations@[k]@) == Some(m)) && (forall|
                k: int,
            |
                0 <= k < i ==> (marker_number(#[trigger] annotations@[k]@) matches Some(v) ==> v
                    <= m)),
        decreases annotations.len() - i,
    {
        if let Annotation::NumberMarker { number, .. } = &annotations[i] {
            assert(marker_number(annotations@[i as int]@) == Some(*number));
            best = match best {
                None => Some(*number),
                Some(m) => if *number > m {
                    Some(*number)
                } else {
                    Some(m)
                },
            };
        }
        i += 1;
    }
    match best {
        Some(m) => m + 1,
        None => 1,
    }
}

} // verus!

//! What is drawn for each item, and in which order, as a list of strokes and
//! fills on whole-numbered screen places.

use vstd::prelude::*;

use crate::annotation::{
    handle_places, items_of, normalized, rect_handles, rect_norm, Annotation, Handle, Item,
};
use crate::grid::{clamp_i, clamped};
use crate::measure::{guide_item, is_guide};
use crate::pixels::{contrast_text_color, luminance};

verus! {

/// The guide's border color.
pub const GUIDE_COLOR: u32 = 0x0000_0000;

/// The guide's border thickness, in world px.
pub const GUIDE_THICK: i64 = 3;

/// The color of selection outlines and handles.
pub const SEL_COLOR: u32 = 0x004D_A6FF;

// ---- Order ----

/// What is drawn next: an item by its place, or the drag preview.
#[derive(Clone, Copy, Debug, PartialEq, Eq, Structural)]
pub enum Layer {
    Item(usize),
    Preview,
}

/// The places of the items that are guides, or those that are not, up to `n`,
/// ascending.
pub open spec fn layers_of<F, S>(items: Seq<Item<F, S>>, guides: bool, n: int) -> Seq<Layer>
    decreases n,
{
    if n <= 0 {
        Seq::empty()
    } else if is_guide(items[n - 1]) == guides {
        layers_of(items, guides, n - 1).push(Layer::Item((n - 1) as usize))
    } else {
        layers_of(items, guides, n - 1)
    }
}

/// The whole draw order: items, a preview that is no guide, guides, a preview
/// that is one. The guide is always on top, wherever it stands in the list.
pub open spec fn layered<F, S>(items: Seq<Item<F, S>>, preview: Option<bool>) -> Seq<Layer> {
    let below = layers_of(items, false, items.len() as int);
    let above = layers_of(items, true, items.len() as int);
    match preview {
        None => below + above,
        Some(is_guide) => if is_guide {
            below + above + seq![Layer::Preview]
        } else {
            below + seq![Layer::Preview] + above
        },
    }
}

fn push_layers<F: Copy, S: Copy>(
    annotations: &Vec<Annotation<F, S>>,
    guides: bool,
    out: &mut Vec<Layer>,
)
    ensures
        final(out)@ == old(out)@ + layers_of(
            items_of(annotations@),
            guides,
            annotations@.len() as int,
        ),
{
    let ghost start = out@;
    let ghost items = items_of(annotations@);
    let mut i: usize = 0;
    assert(start =~= start + layers_of(items, guides, 0));
    while i < annotations.len()
        invariant
            i <= annotations.len(),
            items == items_of(annotations@),
            out@ == start + layers_of(items, guides, i as int),
        decreases annotations.len() - i,
    {
        if guide_item(&annotations[i]) == guides {
            out.push(Layer::Item(i));
            assert(out@ =~= start + layers_of(items, guides, i + 1));
        }
        i += 1;
    }
}

/// The order in which items and the drag preview are drawn. `preview` says
/// whether the preview, if there is one, is a guide.
pub fn paint_annotations<F: Copy, S: Copy>(
    annotations: &Vec<Annotation<F, S>>,
    preview: Option<bool>,
) -> (order: Vec<Layer>)
    ensures
        order@ == layered(items_of(annotations@), preview),
{
    let mut order: Vec<Layer> = Vec::new();
    push_layers(annotations, false, &mut order);
    if preview == Some(false) {
        order.push(Layer::Preview);
    }
    push_layers(annotations, true, &mut order);
    if preview == Some(true) {
        order.push(Layer::Preview);
    }
    assert(order@ =~= layered(items_of(annotations@), preview));
    order
}

/// Whether a layer is drawn before another one of the order.
pub open spec fn drawn_before(order: Seq<Layer>, p: Layer, q: Layer) -> bool {
    exists|s: int, t: int|
        0 <= s < t < order.len() && #[trigger] order[s] == p && #[trigger] order[t] == q
}

proof fn lemma_layers_of<F, S>(items: Seq<Item<F, S>>, guides: bool, n: int)
    requires
        0 <= n <= items.len(),
        items.len() <= usize::MAX,
    ensures
        forall|t: int|
            0 <= t < layers_of(items, guides, n).len() ==> (#[trigger] layers_of(
                items,
                guides,
                n,
            )[t] matches Layer::Item(i) && i < n && is_guide(items[i as int]) == guides),
        forall|i: int|
            0 <= i < n && is_guide(#[trigger] items[i]) == guides ==> layers_of(
                items,
                guides,
                n,
            ).contains(Layer::Item(i as usize)),
    decreases n,
{
    if n > 0 {
        lemma_layers_of(items, guides, n - 1);
        let rest = layers_of(items, guides, n - 1);
        let all = layers_of(items, guides, n);
        assert forall|i: int|
            0 <= i < n && is_guide(#[trigger] items[i]) == guides implies all.contains(
            Layer::Item(i as usize),
        ) by {
            if i == n - 1 {
                assert(all[all.len() - 1] == Layer::Item(i as usize));
            } else {
                assert(rest.contains(Layer::Item(i as usize)));
                let t = choose|t: int| 0 <= t < rest.len() && rest[t] == Layer::Item(i as usize);
                assert(all[t] == rest[t]);
            }
        }
    }
}

/// A guide is drawn after every item that is not one, whatever their order in
/// the list.
pub proof fn law_guide_is_on_top<F, S>(
    items: Seq<Item<F, S>>,
    preview: Option<bool>,
    i: int,
    g: int,
)
    requires
        items.len() <= usize::MAX,
        0 <= i < items.len(),
        0 <= g < items.len(),
        !is_guide(items[i]),
        is_guide(items[g]),
    ensures
        drawn_before(layered(items, preview), Layer::Item(i as usize), Layer::Item(g as usize)),
{
    let n = items.len() as int;
    lemma_layers_of(items, false, n);
    lemma_layers_of(items, true, n);
    let below = layers_of(items, false, n);
    let above = layers_of(items, true, n);
    let order = layered(items, preview);
    let s = choose|s: int| 0 <= s < below.len() && below[s] == Layer::Item(i as usize);
    let t = choose|t: int| 0 <= t < above.len() && above[t] == Layer::Item(g as usize);
    assert(order[s] == below[s]);
    let shift = if preview == Some(false) {
        below.len() + 1
    } else {
        below.len()
    };
    assert(order[shift + t] == above[t]);
}

/// Every item is drawn.
pub proof fn law_every_item_is_drawn<F, S>(items: Seq<Item<F, S>>, preview: Option<bool>, i: int)
    requires
        items.len() <= usize::MAX,
        0 <= i < items.len(),
    ensures
        layered(items, preview).contains(Layer::Item(i as usize)),
{
    let n = items.len() as int;
    let g = is_guide(items[i]);
    lemma_layers_of(items, g, n);
    let below = layers_of(items, false, n);
    let above = layers_of(items, true, n);
    let order = layered(items, preview);
    let part = layers_of(items, g, n);
    let t = choose|t: int| 0 <= t < part.len() && part[t] == Layer::Item(i as usize);
    if !g {
        assert(order[t] == part[t]);
    } else {
        let shift = if preview == Some(false) {
            below.len() + 1
        } else {
            below.len()
        };
        assert(order[shift + t] == part[t]);
    }
}

// ---- Strokes of one item ----

/// One primitive of a drawing, in screen coordinates.
#[derive(Clone, Copy, Debug, PartialEq, Eq)]
pub enum PaintOp {
    /// A line of the given thickness.
    Line { a: (i64, i64), b: (i64, i64), th: i64, color: u32 },
    /// A round join where two lines meet.
    Join { at: (i64, i64), th: i64, color: u32 },
    /// The image's own pixels in its rotated display rectangle.
    Picture,
    /// The mosaic's coarsened copy of what lies beneath it.
    Coarse,
    /// The filled rotated rectangle.
    FillRect { color: u32 },
    /// The filled rotated ellipse.
    FillOval { color: u32 },
    /// The rotated ellipse's ring.
    Ring { th: i64, color: u32 },
    /// The text at its place.
    Glyphs { at: (i64, i64), color: u32 },
    /// The marker's disc.
    Disc { at: (i64, i64), color: u32 },
    /// The marker's number, centered on the disc.
    Number { at: (i64, i64), number: u32, color: u32 },
}

/// What is known of an item's place on screen.
#[derive(Debug)]
pub struct OnScreen {
    /// The item's own points: an arrow's ends, a polyline's points, a
    /// rectangle's four rotated corners, a text's or marker's position, a
    /// guide's two corners.
    pub points: Vec<(i64, i64)>,
    /// The ends of an arrow's barbs, if it has a head.
    pub barbs: Option<((i64, i64), (i64, i64))>,
    /// The line thickness in screen px.
    pub th: i64,
    /// The canvas size.
    pub canvas: (i64, i64),
    /// Whether text can be drawn.
    pub text: bool,
}

/// How many points an item has on screen.
pub open spec fn point_count<F, S>(a: Item<F, S>) -> int {
    match a {
        Item::Arrow { .. } => 2,
        Item::Polyline { points, .. } => points.len() as int,
        Item::Rect { filled, .. } => if filled {
            0
        } else {
            4
        },
        Item::Text { .. } => 1,
        Item::NumberMarker { .. } => 1,
        Item::Guide { .. } => 2,
        _ => 0,
    }
}

/// The lines that join points in order.
pub open spec fn segments(p: Seq<(i64, i64)>, th: i64, color: u32, n: int) -> Seq<PaintOp>
    decreases n,
{
    if n <= 0 {
        Seq::empty()
    } else {
        segments(p, th, color, n - 1).push(PaintOp::Line { a: p[n - 1], b: p[n], th, color })
    }
}

/// The joins at the points `1..=n`.
pub open spec fn joints(p: Seq<(i64, i64)>, th: i64, color: u32, n: int) -> Seq<PaintOp>
    decreases n,
{
    if n <= 0 {
        Seq::empty()
    } else {
        joints(p, th, color, n - 1).push(PaintOp::Join { at: p[n], th, color })
    }
}

/// A polyline: its segments, and a join at every inner point.
pub open spec fn polyline_ops(p: Seq<(i64, i64)>, th: i64, color: u32) -> Seq<PaintOp> {
    segments(p, th, color, p.len() - 1) + joints(p, th, color, p.len() - 2)
}

/// An arrow: the shaft, both barbs and a join at the tip.
pub open spec fn arrow_ops(
    a: (i64, i64),
    b: (i64, i64),
    barbs: Option<((i64, i64), (i64, i64))>,
    th: i64,
    color: u32,
) -> Seq<PaintOp> {
    let shaft = seq![PaintOp::Line { a, b, th, color }];
    match barbs {
        None => shaft,
        Some((e0, e1)) => shaft.push(PaintOp::Line { a: b, b: e0, th, color }).push(
            PaintOp::Line { a: b, b: e1, th, color },
        ).push(PaintOp::Join { at: b, th, color }),
    }
}

/// A closed outline through four corners: each side, then a join at its
/// start.
pub open spec fn frame_ops(c: Seq<(i64, i64)>, th: i64, color: u32) -> Seq<PaintOp> {
    seq![
        PaintOp::Line { a: c[0], b: c[1], th, color },
        PaintOp::Join { at: c[0], th, color },
        PaintOp::Line { a: c[1], b: c[2], th, color },
        PaintOp::Join { at: c[1], th, color },
        PaintOp::Line { a: c[2], b: c[3], th, color },
        PaintOp::Join { at: c[2], th, color },
        PaintOp::Line { a: c[3], b: c[0], th, color },
        PaintOp::Join { at: c[3], th, color },
    ]
}

/// How far outside its rectangle the guide's border is centered: half the
/// brush and one pixel, so that the border's inner edge lies on the boundary.
pub open spec fn guide_half(th: int) -> int {
    (if th >= 1 {
        th
    } else {
        1
    }) / 2 + 1
}

/// Whether the guide's border fits.
pub open spec fn guide_fits(p: (i64, i64), q: (i64, i64), th: int, canvas: (i64, i64)) -> bool {
    let half = guide_half(th);
    &&& 0 <= th <= i64::MAX - 2
    &&& 0 <= canvas.0 && canvas.0 + th + 2 <= i64::MAX
    &&& 0 <= canvas.1 && canvas.1 + th + 2 <= i64::MAX
    &&& p.0 - half >= i64::MIN && p.1 - half >= i64::MIN
    &&& q.0 + half <= i64::MAX && q.1 + half <= i64::MAX
}

/// The guide's border: four lines just outside the rectangle, cut to the
/// canvas with a margin along their length, and four joins at the true
/// corners.
pub open spec fn guide_ops(
    p: (i64, i64),
    q: (i64, i64),
    th: i64,
    canvas: (i64, i64),
) -> Seq<PaintOp> {
    let half = guide_half(th as int);
    let margin = th + 2;
    let x0 = (p.0 - half) as i64;
    let y0 = (p.1 - half) as i64;
    let x1 = (q.0 + half) as i64;
    let y1 = (q.1 + half) as i64;
    let cx0 = clamped(x0 as int, -margin, canvas.0 + margin) as i64;
    let cx1 = clamped(x1 as int, -margin, canvas.0 + margin) as i64;
    let cy0 = clamped(y0 as int, -margin, canvas.1 + margin) as i64;
    let cy1 = clamped(y1 as int, -margin, canvas.1 + margin) as i64;
    let color = GUIDE_COLOR;
    seq![
        PaintOp::Line { a: (cx0, y0), b: (cx1, y0), th, color },
        PaintOp::Line { a: (cx0, y1), b: (cx1, y1), th, color },
        PaintOp::Line { a: (x0, cy0), b: (x0, cy1), th, color },
        PaintOp::Line { a: (x1, cy0), b: (x1, cy1), th, color },
        PaintOp::Join { at: (x0, y0), th, color },
        PaintOp::Join { at: (x1, y0), th, color },
        PaintOp::Join { at: (x1, y1), th, color },
        PaintOp::Join { at: (x0, y1), th, color },
    ]
}

/// Everything drawn for one item. On export the guide is left out.
pub open spec fn item_ops<F, S>(a: Item<F, S>, s: OnScreen, export: bool) -> Seq<PaintOp> {
    let p = s.points@;
    match a {
        Item::Image { .. } => seq![PaintOp::Picture],
        Item::Arrow { color, .. } => arrow_ops(p[0], p[1], s.barbs, s.th, color),
        Item::Polyline { color, .. } => polyline_ops(p, s.th, color),
        Item::Mosaic { .. } => seq![PaintOp::Coarse],
        Item::Rect { color, filled, .. } => if filled {
            seq![PaintOp::FillRect { color }]
        } else {
            frame_ops(p, s.th, color)
        },
        Item::Ellipse { color, filled, .. } => if filled {
            seq![PaintOp::FillOval { color }]
        } else {
            seq![PaintOp::Ring { th: s.th, color }]
        },
        Item::Text { color, .. } => if s.text {
            seq![PaintOp::Glyphs { at: p[0], color }]
        } else {
            Seq::empty()
        },
        Item::NumberMarker { number, color, .. } => {
            let disc = seq![PaintOp::Disc { at: p[0], color }];
            if s.text {
                disc.push(
                    PaintOp::Number {
                        at: p[0],
                        number,
                        color: if luminance(color) > 140_000 {
                            0x0000_0000u32
                        } else {
                            0x00FF_FFFFu32
                        },
                    },
                )
            } else {
                disc
            }
        },
        Item::Guide { .. } => if export {
            Seq::empty()
        } else {
            guide_ops(p[0], p[1], s.th, s.canvas)
        },
    }
}

/// The strokes of a polyline: its segments, and a join at every inner point.
pub fn draw_polyline(points: &Vec<(i64, i64)>, th: i64, color: u32) -> (ops: Vec<PaintOp>)
    requires
        points@.len() >= 2,
    ensures
        ops@ == polyline_ops(points@, th, color),
{
    let mut ops: Vec<PaintOp> = Vec::new();
    let n: usize = points.len();
    let mut i: usize = 0;
    while i < n - 1
        invariant
            n == points@.len() >= 2,
            i < n,
            ops@ == segments(points@, th, color, i as int),
        decreases n - i,
    {
        ops.push(PaintOp::Line { a: points[i], b: points[i + 1], th, color });
        i += 1;
    }
    let ghost lines = ops@;
    let mut k: usize = 1;
    assert(ops@ =~= lines + joints(points@, th, color, 0));
    while k < n - 1
        invariant
            n == points@.len() >= 2,
            1 <= k < n,
            ops@ == lines + joints(points@, th, color, k - 1),
        decreases n - k,
    {
        ops.push(PaintOp::Join { at: points[k], th, color });
        assert(ops@ =~= lines + joints(points@, th, color, k as int));
        k += 1;
    }
    ops
}

/// The strokes of an arrow.
pub fn draw_arrow(
    a: (i64, i64),
    b: (i64, i64),
    barbs: Option<((i64, i64), (i64, i64))>,
    th: i64,
    color: u32,
) -> (ops: Vec<PaintOp>)
    ensures
        ops@ == arrow_ops(a, b, barbs, th, color),
{
    let mut ops: Vec<PaintOp> = Vec::new();
    ops.push(PaintOp::Line { a, b, th, color });
    if let Some((e0, e1)) = barbs {
        ops.push(PaintOp::Line { a: b, b: e0, th, color });
        ops.push(PaintOp::Line { a: b, b: e1, th, color });
        ops.push(PaintOp::Join { at: b, th, color });
    }
    assert(ops@ =~= arrow_ops(a, b, barbs, th, color));
    ops
}

/// The strokes of a closed four-cornered outline.
pub fn draw_frame(c: &Vec<(i64, i64)>, th: i64, color: u32) -> (ops: Vec<PaintOp>)
    requires
        c@.len() == 4,
    ensures
        ops@ == frame_ops(c@, th, color),
{
    let mut ops: Vec<PaintOp> = Vec::new();
    ops.push(PaintOp::Line { a: c[0], b: c[1], th, color });
    ops.push(PaintOp::Join { at: c[0], th, color });
    ops.push(PaintOp::Line { a: c[1], b: c[2], th, color });
    ops.push(PaintOp::Join { at: c[1], th, color });
    ops.push(PaintOp::Line { a: c[2], b: c[3], th, color });
    ops.push(PaintOp::Join { at: c[2], th, color });
    ops.push(PaintOp::Line { a: c[3], b: c[0], th, color });
    ops.push(PaintOp::Join { at: c[3], th, color });
    assert(ops@ =~= frame_ops(c@, th, color));
    ops
}

/// The strokes of the guide's border.
fn draw_guide(p: (i64, i64), q: (i64, i64), th: i64, canvas: (i64, i64)) -> (ops: Vec<PaintOp>)
    requires
        guide_fits(p, q, th as int, canvas),
    ensures
        ops@ == guide_ops(p, q, th, canvas),
{
    let brush: i64 = if th >= 1 {
        th
    } else {
        1
    };
    let half: i64 = brush / 2 + 1;
    let x0: i64 = p.0 - half;
    let y0: i64 = p.1 - half;
    let x1: i64 = q.0 + half;
    let y1: i64 = q.1 + half;
    let margin: i64 = th + 2;
    let cx0: i64 = clamp_i(x0, -margin, canvas.0 + margin);
    let cx1: i64 = clamp_i(x1, -margin, canvas.0 + margin);
    let cy0: i64 = clamp_i(y0, -margin, canvas.1 + margin);
    let cy1: i64 = clamp_i(y1, -margin, canvas.1 + margin);
    let color: u32 = GUIDE_COLOR;
    let mut ops: Vec<PaintOp> = Vec::new();
    ops.push(PaintOp::Line { a: (cx0, y0), b: (cx1, y0), th, color });
    ops.push(PaintOp::Line { a: (cx0, y1), b: (cx1, y1), th, color });
    ops.push(PaintOp::Line { a: (x0, cy0), b: (x0, cy1), th, color });
    ops.push(PaintOp::Line { a: (x1, cy0), b: (x1, cy1), th, color });
    ops.push(PaintOp::Join { at: (x0, y0), th, color });
    ops.push(PaintOp::Join { at: (x1, y0), th, color });
    ops.push(PaintOp::Join { at: (x1, y1), th, color });
    ops.push(PaintOp::Join { at: (x0, y1), th, color });
    assert(ops@ =~= guide_ops(p, q, th, canvas));
    ops
}

fn single(op: PaintOp) -> (ops: Vec<PaintOp>)
    ensures
        ops@ == seq![op],
{
    let mut ops: Vec<PaintOp> = Vec::new();
    ops.push(op);
    assert(ops@ =~= seq![op]);
    ops
}

/// Everything drawn for one item, back to front. On export the guide is left
/// out.
pub fn paint_one<F: Copy, S: Copy>(
    ann: &Annotation<F, S>,
    s: &OnScreen,
    export: bool,
) -> (ops: Vec<PaintOp>)
    requires
        s.points@.len() == point_count(ann@),
        ann@ is Polyline ==> point_count(ann@) >= 2,
        ann@ is Guide && !export ==> guide_fits(
            s.points@[0],
            s.points@[1],
            s.th as int,
            s.canvas,
        ),
    ensures
        ops@ == item_ops(ann@, *s, export),
{
    match ann {
        Annotation::Image { .. } => single(PaintOp::Picture),
        Annotation::Arrow { color, .. } => draw_arrow(
            s.points[0],
            s.points[1],
            s.barbs,
            s.th,
            *color,
        ),
        Annotation::Polyline { color, .. } => draw_polyline(&s.points, s.th, *color),
        Annotation::Mosaic { .. } => single(PaintOp::Coarse),
        Annotation::Rect { color, filled, .. } => if *filled {
            single(PaintOp::FillRect { color: *color })
        } else {
            draw_frame(&s.points, s.th, *color)
        },
        Annotation::Ellipse { color, filled, .. } => if *filled {
            single(PaintOp::FillOval { color: *color })
        } else {
            single(PaintOp::Ring { th: s.th, color: *color })
        },
        Annotation::Text { color, .. } => if s.text {
            single(PaintOp::Glyphs { at: s.points[0], color: *color })
        } else {
            Vec::new()
        },
        Annotation::NumberMarker { number, color, .. } => {
            let mut ops = single(PaintOp::Disc { at: s.points[0], color: *color });
            if s.text {
                ops.push(
                    PaintOp::Number {
                        at: s.points[0],
                        number: *number,
                        color: contrast_text_color(*color),
                    },
                );
            }
            ops
        },
        Annotation::Guide { .. } => if export {
            Vec::new()
        } else {
            draw_guide(s.points[0], s.points[1], s.th, s.canvas)
        },
    }
}

/// On export nothing of a guide is drawn, and every other kind is drawn as on
/// screen.
pub proof fn law_export_leaves_out_only_the_guide<F, S>(a: Item<F, S>, s: OnScreen)
    ensures
        is_guide(a) ==> item_ops(a, s, true) == Seq::<PaintOp>::empty(),
        !is_guide(a) ==> item_ops(a, s, true) == item_ops(a, s, false),
{
}

/// The inner edge of the guide's border lies outside its rectangle: the
/// border never covers a pixel of the export bounds.
pub proof fn law_guide_border_stays_outside(th: int)
    requires
        th >= 1,
    ensures
        guide_half(th) - th / 2 == 1,
{
}

// ---- Selection outline ----

/// What marks a selected item.
#[derive(Debug)]
pub enum Chrome {
    /// A handle at each of these world places.
    Handles(Vec<(i64, i64)>),
    /// The rotated outline with its rotate handle, and the resize handles if
    /// `resize`.
    Frame { resize: bool },
    /// The guide's box and its handles.
    GuideFrame { r: (i64, i64, i64, i64), handles: Vec<(Handle, (i64, i64))> },
    /// Nothing: the item's own shape is enough.
    Nothing,
}

/// What marks a selected item: handles at the points of a line, the rotated
/// outline of a shape (without resize handles for a text, whose size is set
/// by number), the guide's box, and nothing for a marker.
pub fn paint_selection<F: Copy, S: Copy>(ann: &Annotation<F, S>) -> (c: Chrome)
    ensures
        match ann@ {
            Item::Arrow { a, b, .. } => c matches Chrome::Handles(h) && h@ == seq![a, b],
            Item::Polyline { points, .. } => c matches Chrome::Handles(h) && h@ == points,
            Item::Guide { r } => c matches Chrome::GuideFrame { r: n, handles } && n == normalized(
                r,
            ) && handles@ == handle_places(r),
            Item::Text { .. } => c == (Chrome::Frame { resize: false }),
            Item::NumberMarker { .. } => c == Chrome::Nothing,
            _ => c == (Chrome::Frame { resize: true }),
        },
{
    match ann {
        Annotation::Arrow { a, b, .. } => {
            let mut h: Vec<(i64, i64)> = Vec::new();
            h.push(*a);
            h.push(*b);
            assert(h@ =~= seq![*a, *b]);
            Chrome::Handles(h)
        },
        Annotation::Polyline { points, .. } => Chrome::Handles(
            crate::annotation::copy_points(points),
        ),
        Annotation::Rect { .. } | Annotation::Ellipse { .. } | Annotation::Image { .. }
        | Annotation::Mosaic { .. } => Chrome::Frame { resize: true },
        Annotation::Guide { r } => Chrome::GuideFrame {
            r: rect_norm(*r),
            handles: rect_handles(*r),
        },
        Annotation::Text { .. } => Chrome::Frame { resize: false },
        Annotation::NumberMarker { .. } => Chrome::Nothing,
    }
}

/// A thin box outline through two mapped corners, with a join at each corner.
pub open spec fn box_ops(p: (i64, i64), q: (i64, i64)) -> Seq<PaintOp> {
    let th = 1i64;
    let color = SEL_COLOR;
    seq![
        PaintOp::Line { a: (p.0, p.1), b: (q.0, p.1), th, color },
        PaintOp::Line { a: (p.0, q.1), b: (q.0, q.1), th, color },
        PaintOp::Line { a: (p.0, p.1), b: (p.0, q.1), th, color },
        PaintOp::Line { a: (q.0, p.1), b: (q.0, q.1), th, color },
        PaintOp::Join { at: (p.0, p.1), th, color },
        PaintOp::Join { at: (q.0, p.1), th, color },
        PaintOp::Join { at: (q.0, q.1), th, color },
        PaintOp::Join { at: (p.0, q.1), th, color },
    ]
}

/// The thin outline of a box, also of the marquee: `p` and `q` are its
/// corners on screen.
pub fn paint_bbox(p: (i64, i64), q: (i64, i64)) -> (ops: Vec<PaintOp>)
    ensures
        ops@ == box_ops(p, q),
{
    let th: i64 = 1;
    let color: u32 = SEL_COLOR;
    let mut ops: Vec<PaintOp> = Vec::new();
    ops.push(PaintOp::Line { a: (p.0, p.1), b: (q.0, p.1), th, color });
    ops.push(PaintOp::Line { a: (p.0, q.1), b: (q.0, q.1), th, color });
    ops.push(PaintOp::Line { a: (p.0, p.1), b: (p.0, q.1), th, color });
    ops.push(PaintOp::Line { a: (q.0, p.1), b: (q.0, q.1), th, color });
    ops.push(PaintOp::Join { at: (p.0, p.1), th, color });
    ops.push(PaintOp::Join { at: (q.0, p.1), th, color });
    ops.push(PaintOp::Join { at: (q.0, q.1), th, color });
    ops.push(PaintOp::Join { at: (p.0, q.1), th, color });
    assert(ops@ =~= box_ops(p, q));
    ops
}

} // verus!

//! What the editor's gestures, keys and buttons do, from the pointer and the
//! keyboard to the items.

use vstd::prelude::*;

use crate::annotation::{normalized, Annotation, Item, MosaicMode};
use crate::commands::{inked_item, KeyPress};
use crate::editor::{Drag, Model, Task};
use crate::fields::{spelled_number, trimmed, Typing};
use crate::keys::EditorAction;
use crate::measure::{marquee_takes, Outline};
use crate::order::chosen;
use crate::press::{item_grab, Under};
use crate::pure::{result, result2};
use crate::release::{sans_guides, Release};
use crate::style::named;
use crate::toolbar::{EditorBtn, Field, Tool};
use crate::transform::item_movable;

verus! {

// ---- Drawing by a drag ----

/// A press on the canvas with a tool that draws by dragging, where it meets
/// nothing of the selected item, starts a drag at the point of the press and
/// lets go of the selection. The items stay.
pub proof fn law_press_starts_a_drag<F, S>(
    m: Model<F, S>,
    p: (i64, i64),
    tol: int,
    u: Under<F>,
    seed: u32,
    after: Model<F, S>,
)
    requires
        m.tool == Tool::Arrow || m.tool == Tool::Rect || m.tool == Tool::Ellipse || m.tool
            == Tool::Mosaic,
        m.selected.len() != 1,
        m.canvas_press(p, tol, u, seed, after),
    ensures
        after.dragging,
        after.drag_start == Some(p),
        after.tool == m.tool,
        after.items == m.items,
        after.style == m.style,
        after.selected.len() == 0,
        m.tool == Tool::Mosaic ==> after.new_item_seed == seed,
{
    assert(m.single() is None);
    if m.selected.len() == 0 {
        assert(after.selected.len() == 0);
    }
}

/// A drag with the arrow tool from `p` to `q` adds one arrow on top, that
/// starts at `p` and has its tip at `q`, in the current color and thickness,
/// and selects it.
pub proof fn law_arrow_points_to_the_release<F, S, M, K, L>(
    m: Model<F, S>,
    p: (i64, i64),
    q: (i64, i64),
    frame: Option<((F, F, F, F), F)>,
    merge: M,
    ink: K,
    lift: L,
) where
    M: Fn(Vec<Annotation<F, S>>) -> Annotation<F, S>,
    K: Fn(Vec<(i64, i64)>, i64, u32) -> Annotation<F, S>,
    L: Fn(i64) -> F,

    requires
        m.tool == Tool::Arrow,
        m.dragging,
        m.drag_start == Some(p),
        m.picker_drag is None,
        m.pressed is None,
        m.edit == Drag::<F, S>::Idle,
    ensures
        ({
            let after = m.release(None, q, frame, merge, ink, lift).0;
            &&& after.items == m.items.push(
                Item::Arrow { a: p, b: q, color: m.style.color, thick: m.style.thick },
            )
            &&& after.selected == seq![m.items.len() as usize]
            &&& after.history.past == m.history.past.push(m.items)
            &&& !after.dragging
        }),
{
}

/// A drag with the rectangle or the ellipse tool from `p` to `q` adds one such
/// shape on top. It spans the two points, whichever way the drag went, stands
/// upright, and has the current color, thickness and fill.
pub proof fn law_shape_spans_the_drag<F, S, M, K, L>(
    m: Model<F, S>,
    p: (i64, i64),
    q: (i64, i64),
    frame: Option<((F, F, F, F), F)>,
    merge: M,
    ink: K,
    lift: L,
) where
    M: Fn(Vec<Annotation<F, S>>) -> Annotation<F, S>,
    K: Fn(Vec<(i64, i64)>, i64, u32) -> Annotation<F, S>,
    L: Fn(i64) -> F,

    requires
        m.tool == Tool::Rect || m.tool == Tool::Ellipse,
        m.dragging,
        m.drag_start == Some(p),
        m.picker_drag is None,
        m.pressed is None,
        m.edit == Drag::<F, S>::Idle,
    ensures
        ({
            let after = m.release(None, q, frame, merge, ink, lift).0;
            let left = if p.0 <= q.0 {
                p.0
            } else {
                q.0
            };
            let right = if p.0 <= q.0 {
                q.0
            } else {
                p.0
            };
            let top = if p.1 <= q.1 {
                p.1
            } else {
                q.1
            };
            let bottom = if p.1 <= q.1 {
                q.1
            } else {
                p.1
            };
            let r = (
                result(lift, left),
                result(lift, top),
                result(lift, right),
                result(lift, bottom),
            );
            let s = m.style;
            let rot = m.zero;
            &&& after.items == m.items.push(
                if m.tool == Tool::Rect {
                    Item::Rect { r, color: s.color, thick: s.thick, rot, filled: s.filled }
                } else {
                    Item::Ellipse { r, color: s.color, thick: s.thick, rot, filled: s.filled }
                },
            )
            &&& after.selected == seq![m.items.len() as usize]
            &&& after.history.past == m.history.past.push(m.items)
        }),
{
}

/// A drag with the mosaic tool adds one mosaic on top that spans the drag,
/// with the current block length, blurred or not as chosen, and the seed that
/// the press brought. One with the guide tool leaves one guide that spans the
/// drag.
pub proof fn law_mosaic_and_guide_span_the_drag<F, S, M, K, L>(
    m: Model<F, S>,
    p: (i64, i64),
    q: (i64, i64),
    frame: Option<((F, F, F, F), F)>,
    merge: M,
    ink: K,
    lift: L,
) where
    M: Fn(Vec<Annotation<F, S>>) -> Annotation<F, S>,
    K: Fn(Vec<(i64, i64)>, i64, u32) -> Annotation<F, S>,
    L: Fn(i64) -> F,

    requires
        m.tool == Tool::Mosaic || m.tool == Tool::Guide,
        m.dragging,
        m.drag_start == Some(p),
        m.picker_drag is None,
        m.pressed is None,
        m.edit == Drag::<F, S>::Idle,
    ensures
        ({
            let after = m.release(None, q, frame, merge, ink, lift).0;
            let left = if p.0 <= q.0 {
                p.0
            } else {
                q.0
            };
            let right = if p.0 <= q.0 {
                q.0
            } else {
                p.0
            };
            let top = if p.1 <= q.1 {
                p.1
            } else {
                q.1
            };
            let bottom = if p.1 <= q.1 {
                q.1
            } else {
                p.1
            };
            let r = (
                result(lift, left),
                result(lift, top),
                result(lift, right),
                result(lift, bottom),
            );
            &&& m.tool == Tool::Mosaic ==> after.items == m.items.push(
                Item::Mosaic {
                    r,
                    rot: m.zero,
                    block: m.style.block,
                    mode: if m.style.blur {
                        MosaicMode::Blur
                    } else {
                        MosaicMode::Pixelate
                    },
                    seed: m.new_item_seed,
                },
            )
            &&& m.tool == Tool::Guide ==> after.items.len() > 0 && after.items.last() == (
            Item::<F, S>::Guide { r: (left, top, right, bottom) })
            &&& after.history.past == m.history.past.push(m.items)
        }),
{
}

/// A drag with the select tool draws nothing: it hands on the box from where
/// it began to where it ended.
pub proof fn law_select_drag_is_a_marquee<F, S, M, K, L>(
    m: Model<F, S>,
    p: (i64, i64),
    q: (i64, i64),
    frame: Option<((F, F, F, F), F)>,
    merge: M,
    ink: K,
    lift: L,
) where
    M: Fn(Vec<Annotation<F, S>>) -> Annotation<F, S>,
    K: Fn(Vec<(i64, i64)>, i64, u32) -> Annotation<F, S>,
    L: Fn(i64) -> F,

    requires
        m.tool == Tool::Select,
        m.dragging,
        m.drag_start == Some(p),
        m.picker_drag is None,
        m.pressed is None,
        m.edit == Drag::<F, S>::Idle,
    ensures
        m.release(None, q, frame, merge, ink, lift).1 == Release::Marquee(p, q),
        m.release(None, q, frame, merge, ink, lift).0.items == m.items,
        m.release(None, q, frame, merge, ink, lift).0.history == m.history,
{
}

// ---- Drawing point by point ----

/// Each click with the polyline tool adds its point behind the others, and
/// Enter makes one polyline of them, in the order of the clicks and in the
/// current color and thickness. Escape throws them away.
pub proof fn law_polyline_is_clicked<F, S>(
    m: Model<F, S>,
    p: (i64, i64),
    tol: int,
    u: Under<F>,
    seed: u32,
    after: Model<F, S>,
)
    requires
        m.tool == Tool::Polyline,
        m.selected.len() != 1,
        m.canvas_press(p, tol, u, seed, after),
    ensures
        after.polyline_pts == m.polyline_pts.push(p),
        after.items == m.items,
        m.polyline_pts.len() >= 2 ==> (m.polyline_key(KeyPress::Enter) matches Some(n) && n.items
            == m.items.push(
            Item::Polyline {
                points: m.polyline_pts,
                color: m.style.color,
                thick: m.style.thick,
            },
        ) && n.polyline_pts.len() == 0 && n.history.past == m.history.past.push(m.items)),
        m.polyline_pts.len() > 0 ==> (m.polyline_key(KeyPress::Escape) matches Some(n) && n.items
            == m.items && n.polyline_pts.len() == 0),
{
    assert(m.single() is None);
}

/// A freehand stroke starts at the press, takes up the pointer's places that
/// are two px or more from the last, and becomes one item of all its points,
/// in the current thickness and color, when the button goes up.
pub proof fn law_stroke_is_drawn<F, S, M, K, L>(
    m: Model<F, S>,
    p: (i64, i64),
    q: (i64, i64),
    tol: int,
    u: Under<F>,
    seed: u32,
    started: Model<F, S>,
    frame: Option<((F, F, F, F), F)>,
    merge: M,
    ink: K,
    lift: L,
) where
    M: Fn(Vec<Annotation<F, S>>) -> Annotation<F, S>,
    K: Fn(Vec<(i64, i64)>, i64, u32) -> Annotation<F, S>,
    L: Fn(i64) -> F,

    requires
        m.tool == Tool::Draw,
        m.selected.len() != 1,
        m.canvas_press(p, tol, u, seed, started),
    ensures
        started.dragging && started.freehand_pts == seq![p] && started.items == m.items,
        m.dragging && m.freehand_pts.len() > 0 ==> m.sample(q).freehand_pts == (if (q.0
            - m.freehand_pts.last().0) * (q.0 - m.freehand_pts.last().0) + (q.1
            - m.freehand_pts.last().1) * (q.1 - m.freehand_pts.last().1) >= 4 {
            m.freehand_pts.push(q)
        } else {
            m.freehand_pts
        }),
        m.dragging && m.freehand_pts.len() >= 2 && m.picker_drag is None && m.pressed is None
            && m.edit == Drag::<F, S>::Idle ==> m.release(
            None,
            q,
            frame,
            merge,
            ink,
            lift,
        ).0.items == m.items.push(
            inked_item(ink, m.freehand_pts, m.style.thick, m.style.color),
        ),
        m.dragging && m.freehand_pts.len() >= 2 && m.picker_drag is None && m.pressed is None
            && m.edit == Drag::<F, S>::Idle ==> m.release(
            None,
            q,
            frame,
            merge,
            ink,
            lift,
        ).0.history.past == m.history.past.push(m.items),
{
    assert(m.single() is None);
    assert(crate::fields::FREEHAND_MIN_STEP * crate::fields::FREEHAND_MIN_STEP == 4);
}

/// A click with the marker tool puts a marker there, with the next number, the
/// current color and size, and selects it.
pub proof fn law_marker_is_placed<F, S>(
    m: Model<F, S>,
    p: (i64, i64),
    tol: int,
    u: Under<F>,
    seed: u32,
    after: Model<F, S>,
)
    requires
        m.tool == Tool::NumberMarker,
        m.selected.len() != 1,
        m.next_marker_num < u32::MAX,
        m.canvas_press(p, tol, u, seed, after),
    ensures
        after.items == m.items.push(
            Item::NumberMarker {
                pos: p,
                number: m.next_marker_num,
                color: m.style.color,
                size: m.style.size,
            },
        ),
        after.next_marker_num == m.next_marker_num + 1,
        after.selected == seq![m.items.len() as usize],
        after.history.past == m.history.past.push(m.items),
{
    assert(m.single() is None);
}

// ---- Texts ----

/// A click with the text tool starts an empty text there. Each key adds its
/// characters, a blank, or takes one off; Enter makes a text item of what was
/// typed, at the place of the click, upright, in the current color and size;
/// Escape makes none.
pub proof fn law_text_is_what_was_typed<F, S>(
    m: Model<F, S>,
    p: (i64, i64),
    tol: int,
    u: Under<F>,
    seed: u32,
    started: Model<F, S>,
    at: (i64, i64),
    text: Seq<char>,
    s: String,
)
    requires
        m.tool == Tool::Text,
        m.selected.len() != 1,
        m.canvas_press(p, tol, u, seed, started),
    ensures
        started.editing == Some((p, Seq::<char>::empty())),
        started.items == m.items,
        m.editing == Some((at, text)) ==> {
            &&& (m.text_key(KeyPress::Text(s)) matches Some(n) && n.editing == Some((at, text + s@))
                && n.items == m.items)
            &&& (m.text_key(KeyPress::Space) matches Some(n) && n.editing == Some(
                (at, text + seq![' ']),
            ))
            &&& text.len() > 0 ==> (m.text_key(KeyPress::Backspace) matches Some(n) && n.editing
                == Some((at, text.take(text.len() - 1))))
            &&& text.len() > 0 ==> (m.text_key(KeyPress::Enter) matches Some(n) && n.items
                == m.items.push(
                Item::Text {
                    pos: at,
                    text,
                    color: m.style.color,
                    size: m.style.size,
                    rot: m.zero,
                },
            ) && n.editing is None && n.selected == seq![m.items.len() as usize])
            &&& text.len() == 0 ==> (m.text_key(KeyPress::Enter) matches Some(n) && n.items
                == m.items && n.editing is None)
            &&& (m.text_key(KeyPress::Escape) matches Some(n) && n.items == m.items
                && n.editing is None)
        },
{
    assert(m.single() is None);
    assert(text.push(' ') =~= text + seq![' ']);
    if text.len() > 0 {
        assert(text.drop_last() =~= text.take(text.len() - 1));
    }
}

// ---- Pictures ----

/// An added picture has its own pixels, is as large as they are, and lies
/// around the given center.
pub proof fn law_picture_lies_around_its_center<F, S, L: Fn(i64) -> F>(
    m: Model<F, S>,
    center: (i64, i64),
    w: i64,
    h: i64,
    pixels: Seq<u32>,
    lift: L,
)
    requires
        w > 0,
        h > 0,
        Model::<F, S>::image_fits(center, w, h),
        m.editing is None,
    ensures
        exists|x: i64, y: i64|
            {
                &&& 0 <= 2 * (center.0 - x) - w + 1 <= 1
                &&& 0 <= 2 * (center.1 - y) - h + 1 <= 1
                &&& #[trigger] placed_picture(
                    m,
                    m.add_image(center, w, h, pixels, lift),
                    x,
                    y,
                    w,
                    h,
                    pixels,
                    lift,
                )
            },
{
    let x = (center.0 - w / 2) as i64;
    let y = (center.1 - h / 2) as i64;
    assert(placed_picture(m, m.add_image(center, w, h, pixels, lift), x, y, w, h, pixels, lift));
}

/// Whether a picture was added on top with its corner at `(x, y)`.
pub open spec fn placed_picture<F, S, L: Fn(i64) -> F>(
    m: Model<F, S>,
    after: Model<F, S>,
    x: i64,
    y: i64,
    w: i64,
    h: i64,
    pixels: Seq<u32>,
    lift: L,
) -> bool {
    after.items == m.items.push(
        Item::Image {
            r: (
                result(lift, x),
                result(lift, y),
                result(lift, (x + w) as i64),
                result(lift, (y + h) as i64),
            ),
            src_w: w,
            src_h: h,
            pixels,
            rot: m.zero,
        },
    ) && after.history.past == m.history.past.push(m.items)
}

// ---- Copying ----

/// The places that are selected, in order.
proof fn lemma_named<F, S>(items: Seq<Item<F, S>>, selected: Seq<usize>)
    requires
        forall|t: int| 0 <= t < selected.len() ==> #[trigger] selected[t] < items.len(),
    ensures
        named(items, selected).len() == selected.len(),
        forall|t: int|
            0 <= t < selected.len() ==> #[trigger] named(items, selected)[t]
                == items[selected[t] as int],
    decreases selected.len(),
{
    if selected.len() > 0 {
        let rest = selected.drop_last();
        assert forall|t: int| 0 <= t < rest.len() implies #[trigger] rest[t] < items.len() by {
            assert(rest[t] == selected[t]);
        }
        lemma_named(items, rest);
        assert(selected[selected.len() - 1] < items.len());
        assert forall|t: int| 0 <= t < selected.len() implies #[trigger] named(items, selected)[t]
            == items[selected[t] as int] by {
            if t < rest.len() {
                assert(named(items, rest)[t] == items[rest[t] as int]);
            }
        }
    }
}

proof fn lemma_all_stay<F, S>(items: Seq<Item<F, S>>)
    requires
        forall|i: int| 0 <= i < items.len() ==> !(#[trigger] items[i] is Guide),
    ensures
        sans_guides(items) == items,
    decreases items.len(),
{
    if items.len() > 0 {
        assert forall|i: int| 0 <= i < items.drop_last().len() implies !(
        #[trigger] items.drop_last()[i] is Guide) by {
            assert(items.drop_last()[i] == items[i]);
        }
        lemma_all_stay(items.drop_last());
        assert(!(items[items.len() - 1] is Guide));
        assert(items.drop_last().push(items.last()) =~= items);
    } else {
        assert(sans_guides(items) =~= items);
    }
}

/// Copying takes the selected items as they are, in their order, and changes
/// none of them.
pub proof fn law_copy_takes_the_selected<F, S, M>(m: Model<F, S>, merge: M) where
    M: Fn(Vec<Annotation<F, S>>) -> Annotation<F, S>,

    requires
        m.editing is None,
        m.selected.len() > 0,
        forall|t: int| 0 <= t < m.selected.len() ==> #[trigger] m.selected[t] < m.items.len(),
        forall|t: int|
            0 <= t < m.selected.len() ==> !(m.items[#[trigger] m.selected[t] as int] is Guide),
    ensures
        ({
            let (after, task) = m.activate(EditorBtn::Copy, merge);
            &&& task == Task::Nothing
            &&& after.items == m.items
            &&& after.clipboard.len() == m.selected.len()
            &&& forall|t: int|
                0 <= t < m.selected.len() ==> #[trigger] after.clipboard[t]
                    == m.items[m.selected[t] as int]
        }),
{
    lemma_named(m.items, m.selected);
    assert forall|i: int| 0 <= i < m.picked().len() implies !(#[trigger] m.picked()[i] is Guide) by {
        assert(m.picked()[i] == m.items[m.selected[i] as int]);
    }
    lemma_all_stay(m.picked());
}

/// What was copied is pasted on top, 16 px to the right and 16 px down of
/// where it was copied, and selected: written out for an arrow, a text, a
/// marker and a rectangle.
pub proof fn law_paste_is_offset<F, S, P: Fn(F, i64) -> F>(m: Model<F, S>, shift: P, k: int)
    requires
        m.editing is None,
        0 <= k < m.clipboard.len(),
        forall|i: int| 0 <= i < m.clipboard.len() ==> !(#[trigger] m.clipboard[i] is Guide),
        m.items.len() + m.clipboard.len() <= usize::MAX,
        item_movable(m.clipboard[k], 16, 16),
    ensures
        ({
            let after = m.paste_items(shift);
            let x = after.items[m.items.len() + k];
            &&& after.items.len() == m.items.len() + m.clipboard.len()
            &&& after.selected.len() == m.clipboard.len()
            &&& after.selected[k] == m.items.len() + k
            &&& after.tool == Tool::Select
            &&& after.history.past == m.history.past.push(m.items)
            &&& match m.clipboard[k] {
                Item::Arrow { a, b, color, thick } => x matches Item::Arrow {
                    a: a1,
                    b: b1,
                    color: c1,
                    thick: t1,
                } && a1.0 == a.0 + 16 && a1.1 == a.1 + 16 && b1.0 == b.0 + 16 && b1.1 == b.1 + 16
                    && c1 == color && t1 == thick,
                Item::Text { pos, text, color, size, rot } => x matches Item::Text {
                    pos: p1,
                    text: t1,
                    color: c1,
                    size: s1,
                    rot: r1,
                } && p1.0 == pos.0 + 16 && p1.1 == pos.1 + 16 && t1 == text && c1 == color && s1
                    == size && r1 == rot,
                Item::NumberMarker { pos, number, color, size } => x matches Item::NumberMarker {
                    pos: p1,
                    number: n1,
                    color: c1,
                    size: s1,
                } && p1.0 == pos.0 + 16 && p1.1 == pos.1 + 16 && n1 == number && c1 == color && s1
                    == size,
                Item::Rect { r, color, thick, rot, filled } => x == (Item::<F, S>::Rect {
                    r: (
                        result2(shift, r.0, 16i64),
                        result2(shift, r.1, 16i64),
                        result2(shift, r.2, 16i64),
                        result2(shift, r.3, 16i64),
                    ),
                    color,
                    thick,
                    rot,
                    filled,
                }),
                _ => true,
            }
        }),
{
    lemma_all_stay(m.clipboard);
}

// ---- Selecting ----

/// A press of the select tool on an item that is not selected selects it
/// alone and grabs it there; with Alt it is a copy on top that is selected and
/// grabbed. The items that were there stay as they are.
pub proof fn law_press_grabs_the_item<F, S>(
    m: Model<F, S>,
    p: (i64, i64),
    tol: int,
    u: Under<F>,
    seed: u32,
    i: usize,
    after: Model<F, S>,
)
    requires
        m.tool == Tool::Select,
        m.selected.len() == 0,
        u.hit == Some(i),
        i < m.items.len(),
        !m.shift,
        m.canvas_press(p, tol, u, seed, after),
    ensures
        after.edit == (Drag::Move { grab: p, orig: m.items[i as int] }),
        after.history.past == m.history.past.push(m.items),
        !m.alt ==> after.selected == seq![i] && after.items == m.items,
        m.alt ==> after.selected == seq![m.items.len() as usize] && after.items == m.items.push(
            m.items[i as int],
        ),
{
}

/// With Shift a press takes the item under the pointer into the selection, or
/// out of it, and leaves the other items selected or not as they were.
pub proof fn law_shift_press_toggles<F, S>(
    m: Model<F, S>,
    p: (i64, i64),
    tol: int,
    u: Under<F>,
    seed: u32,
    i: usize,
    after: Model<F, S>,
    k: usize,
)
    requires
        m.tool == Tool::Select,
        m.selected.len() == 1 ==> (m.single() matches Some(a) && item_grab(a, p, tol, u) is None),
        !u.group.on_rotate && u.group.handle is None,
        u.hit == Some(i),
        m.shift,
        m.canvas_press(p, tol, u, seed, after),
    ensures
        after.items == m.items,
        after.history == m.history,
        k == i ==> m.selected.contains(k) != after.selected.contains(k),
        k != i ==> m.selected.contains(k) == after.selected.contains(k),
{
    assert(chosen(after.selected, k as int) == (chosen(m.selected, k as int) != (k == i)));
    lemma_chosen_contains(m.selected, k);
    lemma_chosen_contains(after.selected, k);
}

proof fn lemma_chosen_contains(s: Seq<usize>, k: usize)
    ensures
        chosen(s, k as int) == s.contains(k),
{
    if chosen(s, k as int) {
        let t = choose|t: int| 0 <= t < s.len() && #[trigger] s[t] == k as int;
        assert(s[t] == k);
    }
    if s.contains(k) {
        let t = choose|t: int| 0 <= t < s.len() && s[t] == k;
        assert(s[t] == k as int);
    }
}

/// A press of the select tool beside everything starts a marquee there and
/// keeps the items.
pub proof fn law_press_beside_everything<F, S>(
    m: Model<F, S>,
    p: (i64, i64),
    tol: int,
    u: Under<F>,
    seed: u32,
    after: Model<F, S>,
)
    requires
        m.tool == Tool::Select,
        m.selected.len() == 0,
        u.hit is None,
        m.canvas_press(p, tol, u, seed, after),
    ensures
        after.dragging,
        after.drag_start == Some(p),
        after.items == m.items,
        after.history == m.history,
{
}

/// A marquee selects what it crosses: an arrow, a polyline or a marker if its
/// box overlaps the marquee's, and every other kind but the guide if its
/// outline crosses it. With Shift what was selected stays so.
pub proof fn law_marquee_selects<F, S>(
    m: Model<F, S>,
    a: (i64, i64),
    b: (i64, i64),
    tol: int,
    outlines: Seq<Outline>,
    crosses: Seq<bool>,
    after: Model<F, S>,
    k: usize,
)
    requires
        m.marquee(a, b, tol, outlines, crosses, after),
        !(-tol <= a.0 - b.0 <= tol && -tol <= a.1 - b.1 <= tol),
        k < m.items.len(),
    ensures
        after.items == m.items,
        m.items[k as int] is Guide && !m.shift ==> !after.selected.contains(k),
        m.shift && m.selected.contains(k) ==> after.selected.contains(k),
        (m.items[k as int] is Rect || m.items[k as int] is Ellipse || m.items[k as int] is Image
            || m.items[k as int] is Mosaic || m.items[k as int] is Text) && !m.shift
            ==> after.selected.contains(k) == crosses[k as int],
        (m.items[k as int] matches Item::Arrow { a: p, b: q, .. } && !m.shift && p.0 <= q.0 && p.1
            <= q.1 && a.0 <= b.0 && a.1 <= b.1) ==> after.selected.contains(k) == (
        m.items[k as int]->Arrow_a.0 < b.0 && m.items[k as int]->Arrow_b.0 > a.0
            && m.items[k as int]->Arrow_a.1 < b.1 && m.items[k as int]->Arrow_b.1 > a.1),
{
    lemma_chosen_contains(after.selected, k);
    lemma_chosen_contains(m.selected, k);
    assert(chosen(after.selected, k as int) == ((m.shift && chosen(m.selected, k as int))
        || marquee_takes(
        m.items[k as int],
        outlines[k as int],
        crosses[k as int],
        normalized((a.0, a.1, b.0, b.1)),
    )));
}

/// A click beside everything lets go of the selection, unless Shift is held.
pub proof fn law_click_beside_deselects<F, S>(
    m: Model<F, S>,
    a: (i64, i64),
    tol: int,
    outlines: Seq<Outline>,
    crosses: Seq<bool>,
    after: Model<F, S>,
)
    requires
        m.marquee(a, a, tol, outlines, crosses, after),
        tol >= 0,
    ensures
        m.shift ==> after.selected == m.selected,
        !m.shift ==> after.selected.len() == 0,
        after.items == m.items,
{
}

// ---- Buttons and actions ----

/// A tool's button takes up that tool, the pin's flips whether the window
/// stays on top, Save asks to save, and Copy with nothing selected asks for
/// the whole picture to be copied.
pub proof fn law_buttons_do_what_they_say<F, S, M>(m: Model<F, S>, t: Tool, merge: M) where
    M: Fn(Vec<Annotation<F, S>>) -> Annotation<F, S>,

    requires
        m.editing is None,
    ensures
        m.activate(EditorBtn::Tool(t), merge).0.tool == t,
        m.activate(EditorBtn::Tool(t), merge).0.selected.len() == 0,
        m.freehand_batch.len() == 0 ==> m.activate(EditorBtn::Tool(t), merge).0.items == m.items,
        m.activate(EditorBtn::Pin, merge).0.pinned == !m.pinned,
        m.activate(EditorBtn::Pin, merge).0.items == m.items,
        m.activate(EditorBtn::Save, merge) == (m, Task::Save),
        m.selected.len() == 0 ==> m.activate(EditorBtn::Copy, merge) == (m, Task::CopyImage),
{
    if m.freehand_batch.len() == 0 {
        lemma_no_members(m.freehand_batch, m.items.len() as int);
    }
}

proof fn lemma_no_members(s: Seq<usize>, n: int)
    requires
        s.len() == 0,
    ensures
        crate::order::members(s, n).len() == 0,
    decreases n,
{
    if n > 0 {
        lemma_no_members(s, n - 1);
    }
}

/// Each action of a key does what it is named after.
pub proof fn law_actions_do_what_they_say<F, S, M, P>(
    m: Model<F, S>,
    merge: M,
    shift: P,
) where M: Fn(Vec<Annotation<F, S>>) -> Annotation<F, S>, P: Fn(F, i64) -> F
    requires
        m.editing is None,
    ensures
        m.act(EditorAction::Undo, merge, shift) == (m.undo(), Task::Nothing),
        m.act(EditorAction::Redo, merge, shift) == (m.redo(), Task::Nothing),
        m.act(EditorAction::Save, merge, shift).1 == Task::Save,
        m.act(EditorAction::ResetZoom, merge, shift).1 == Task::ResetZoom,
        m.act(EditorAction::ResetZoom, merge, shift).0.items == m.items,
        m.clipboard.len() == 0 ==> m.act(EditorAction::Paste, merge, shift) == (
            m,
            Task::PasteImage,
        ),
        m.selected.len() == 0 ==> m.act(EditorAction::Copy, merge, shift).1 == Task::CopyImage,
        m.act(EditorAction::ToolSelect, merge, shift).0.tool == Tool::Select,
        m.act(EditorAction::ToolArrow, merge, shift).0.tool == Tool::Arrow,
        m.act(EditorAction::ToolPolyline, merge, shift).0.tool == Tool::Polyline,
        m.act(EditorAction::ToolDraw, merge, shift).0.tool == Tool::Draw,
        m.act(EditorAction::ToolRect, merge, shift).0.tool == Tool::Rect,
        m.act(EditorAction::ToolEllipse, merge, shift).0.tool == Tool::Ellipse,
        m.act(EditorAction::ToolText, merge, shift).0.tool == Tool::Text,
        m.act(EditorAction::ToolNumberMarker, merge, shift).0.tool == Tool::NumberMarker,
{
}

/// An undo brings back the items as they were before the last change, and a
/// redo those that the undo took away.
pub proof fn law_undo_shows_what_was<F, S>(m: Model<F, S>)
    requires
        !m.dragging,
        m.edit == Drag::<F, S>::Idle,
        m.picker_drag is None,
    ensures
        m.history.past.len() > 0 ==> m.undo().items == m.history.past.last(),
        m.history.past.len() > 0 ==> m.undo().history.future.last() == m.items,
        m.history.future.len() > 0 ==> m.redo().items == m.history.future.last(),
        m.history.future.len() > 0 ==> m.redo().history.past.last() == m.items,
        m.history.past.len() == 0 ==> m.undo() == m,
        m.history.future.len() == 0 ==> m.redo() == m,
{
}

// ---- Number fields ----

/// A whole number typed into a field and confirmed becomes the thickness, the
/// size, the block length or the next marker's number, whichever the field is
/// of, no further than its range goes.
pub proof fn law_typed_number_is_taken<F, S, Z, O>(
    m: Model<F, S>,
    typing: Typing<Z, O>,
    n: int,
) where Z: Fn(i64) -> S, O: Fn(&str, (i64, i64)) -> Option<(i64, S)>
    requires
        spelled_number(trimmed(m.buf)) == Some(n),
    ensures
        m.focus == Some(Field::Line) && 1 <= n <= 200 ==> m.commit_field(typing).style.thick == n,
        m.focus == Some(Field::Line) && n > 200 ==> m.commit_field(typing).style.thick == 200,
        m.focus == Some(Field::Line) && n < 1 ==> m.commit_field(typing).style.thick == 1,
        m.focus == Some(Field::Size) && 4 <= n <= 400 ==> m.commit_field(typing).style.size
            == result(typing.to_size, n as i64),
        m.focus == Some(Field::Size) && n > 400 ==> m.commit_field(typing).style.size == result(
            typing.to_size,
            400i64,
        ),
        m.focus == Some(Field::Size) && n < 4 ==> m.commit_field(typing).style.size == result(
            typing.to_size,
            4i64,
        ),
        m.focus == Some(Field::Block) && 4 <= n <= 200 ==> m.commit_field(typing).style.block
            == result(typing.to_size, n as i64),
        m.focus == Some(Field::Block) && n > 200 ==> m.commit_field(typing).style.block == result(
            typing.to_size,
            200i64,
        ),
        m.focus == Some(Field::Number) && 1 <= n <= 9999 ==> m.commit_field(typing).next_marker_num
            == n,
        m.focus == Some(Field::Number) && n > 9999 ==> m.commit_field(typing).next_marker_num
            == 9999,
        m.focus == Some(Field::Number) && n < 1 ==> m.commit_field(typing).next_marker_num == 1,
        m.commit_field(typing).focus is None,
{
}

/// A step makes the thickness and the next marker's number one larger or one
/// smaller, within their ranges.
pub proof fn law_step_is_one<F, S, Z, O, T>(
    m: Model<F, S>,
    typing: Typing<Z, O>,
    step: T,
) where
    Z: Fn(i64) -> S,
    O: Fn(&str, (i64, i64)) -> Option<(i64, S)>,
    T: Fn((S, bool, (i64, i64))) -> S,

    requires
        m.focus is None,
    ensures
        1 <= m.shown().thick < 200 ==> m.step_field(Field::Line, true, typing, step).style.thick
            == m.shown().thick + 1,
        1 < m.shown().thick <= 200 ==> m.step_field(Field::Line, false, typing, step).style.thick
            == m.shown().thick - 1,
        m.shown().thick == 200 ==> m.step_field(Field::Line, true, typing, step).style.thick == 200,
        m.shown().thick == 1 ==> m.step_field(Field::Line, false, typing, step).style.thick == 1,
        1 <= m.next_marker_num < 9999 ==> m.step_field(
            Field::Number,
            true,
            typing,
            step,
        ).next_marker_num == m.next_marker_num + 1,
        1 < m.next_marker_num <= 9999 ==> m.step_field(
            Field::Number,
            false,
            typing,
            step,
        ).next_marker_num == m.next_marker_num - 1,
        m.step_field(Field::Size, true, typing, step).style.size == result(
            step,
            (m.shown().size, true, (4i64, 400i64)),
        ),
        m.step_field(Field::Block, false, typing, step).style.block == result(
            step,
            (m.shown().block, false, (4i64, 200i64)),
        ),
{
}

/// Without a selection the style shown is that of new items, and the fill and
/// blur switches flip it.
pub proof fn law_switches_flip<F, S, Z, O>(m: Model<F, S>, typing: Typing<Z, O>) where
    Z: Fn(i64) -> S,
    O: Fn(&str, (i64, i64)) -> Option<(i64, S)>,

    requires
        m.focus is None,
        m.selected.len() == 0,
    ensures
        m.shown() == m.style,
        m.toggle_fill(typing).style.filled == !m.style.filled,
        m.toggle_blur(typing).style.blur == !m.style.blur,
        m.toggle_fill(typing).items == m.items,
        m.toggle_blur(typing).items == m.items,
{
    assert(m.picked().len() == 0);
    assert(m.toggle_fill(typing).items =~= m.items);
    assert(m.toggle_blur(typing).items =~= m.items);
}

/// Keys typed into a field: digits are added behind the others, anything else
/// is left out, and Backspace takes the last one off.
pub proof fn law_field_takes_digits<F, S, Z, O>(
    m: Model<F, S>,
    typing: Typing<Z, O>,
    s: String,
) where Z: Fn(i64) -> S, O: Fn(&str, (i64, i64)) -> Option<(i64, S)>
    requires
        m.focus is Some,
    ensures
        (forall|i: int| 0 <= i < s@.len() ==> '0' <= #[trigger] s@[i] && s@[i] <= '9') ==> (
        m.field_key(KeyPress::Text(s), typing) matches Some(n) && n.buf == m.buf + s@),
        (exists|i: int| 0 <= i < s@.len() && (#[trigger] s@[i] < '0' || s@[i] > '9')) ==> (
        m.field_key(KeyPress::Text(s), typing) matches Some(n) && n.buf == m.buf),
        m.buf.len() > 0 ==> (m.field_key(KeyPress::Backspace, typing) matches Some(n) && n.buf
            == m.buf.take(m.buf.len() - 1)),
        m.field_key(KeyPress::Escape, typing) matches Some(n) && n.focus is None && n.style
            == m.style && n.items == m.items,
{
    if m.buf.len() > 0 {
        assert(m.buf.drop_last() =~= m.buf.take(m.buf.len() - 1));
    }
}

} // verus!

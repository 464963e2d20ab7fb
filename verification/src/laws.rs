//! What holds of the editor's commands together.

use vstd::prelude::*;

use crate::annotation::{Annotation, Item};
use crate::commands::{moved, range_of, KeyPress};
use crate::drag::{all_moved, placed, Ratio};
use crate::editor::{Drag, Model, PASTE_OFFSET};
use crate::fields::{
    all_digits, field_text, is_digit, law_shown_number_fits_field, spelled_number, trimmed,
    Typing, THICK_RANGE,
};
use crate::annotation::Handle;
use crate::measure::is_guide;
use crate::order::{ascending, chosen, members, without, within};
use crate::press::Under;
use crate::pure::result;
use crate::release::{lifted, sans_guides};
use crate::style::Restyle;
use crate::toolbar::{EditorBtn, Field, Tool};

verus! {

/// Every change that was recorded before it was made can be undone: from a
/// state at rest, an undo gives the items back, and a redo gives the change
/// back.
pub proof fn law_undo_and_redo<F, S>(m: Model<F, S>, changed: Seq<Item<F, S>>)
    requires
        m.at_rest(),
    ensures
        ({
            let after = Model { items: changed, ..m.snapshot() };
            &&& after.undo().items == m.items
            &&& after.undo().redo().items == changed
            &&& after.undo().history.past == m.history.past
        }),
{
    let after = Model { items: changed, ..m.snapshot() };
    let undone = after.undo();
    assert(undone.history.past =~= m.history.past);
    assert(undone.history.future.last() == changed);
    assert(undone.at_rest());
}

/// An undo or a redo leaves nothing selected, nothing being dragged or typed,
/// and no stroke waiting to be merged.
pub proof fn law_undo_settles<F, S>(m: Model<F, S>)
    requires
        m.at_rest(),
        m.history.past.len() > 0,
    ensures
        m.undo().selected.len() == 0,
        m.undo().freehand_batch.len() == 0,
        m.undo().editing is None,
        m.undo().at_rest(),
{
}

/// While something is being dragged, undo and redo do nothing.
pub proof fn law_no_undo_during_drag<F, S>(m: Model<F, S>)
    requires
        !m.at_rest(),
    ensures
        m.undo() == m,
        m.redo() == m,
{
}

/// The number of guides among the items.
pub open spec fn guide_count<F, S>(items: Seq<Item<F, S>>) -> nat
    decreases items.len(),
{
    if items.len() == 0 {
        0
    } else if is_guide(items.last()) {
        guide_count(items.drop_last()) + 1
    } else {
        guide_count(items.drop_last())
    }
}

proof fn lemma_sans_guides<F, S>(items: Seq<Item<F, S>>)
    ensures
        guide_count(sans_guides(items)) == 0,
        sans_guides(items).len() + guide_count(items) == items.len(),
    decreases items.len(),
{
    if items.len() > 0 {
        lemma_sans_guides(items.drop_last());
        if !is_guide(items.last()) {
            let rest = sans_guides(items.drop_last());
            assert(rest.push(items.last()).drop_last() =~= rest);
        }
    }
}

/// Placing a guide leaves exactly one, on top of the others, which are kept.
pub proof fn law_one_guide_after_placing<F, S, L: Fn(i64) -> F>(
    m: Model<F, S>,
    a: (i64, i64),
    b: (i64, i64),
    lift: L,
)
    requires
        m.tool == Tool::Guide,
    ensures
        guide_count(m.push_shape(a, b, lift).items) == 1,
        is_guide(m.push_shape(a, b, lift).items.last()),
        m.push_shape(a, b, lift).items.drop_last() == sans_guides(m.items),
{
    lemma_sans_guides(m.items);
    let after = m.push_shape(a, b, lift).items;
    assert(after.drop_last() =~= sans_guides(m.items));
}

/// Two lists together have the guides of both.
proof fn lemma_guides_add_up<F, S>(a: Seq<Item<F, S>>, b: Seq<Item<F, S>>)
    ensures
        guide_count(a + b) == guide_count(a) + guide_count(b),
    decreases b.len(),
{
    if b.len() == 0 {
        assert(a + b =~= a);
    } else {
        lemma_guides_add_up(a, b.drop_last());
        assert((a + b).drop_last() =~= a + b.drop_last());
        assert((a + b).last() == b.last());
    }
}

/// A list without a guide has none.
proof fn lemma_no_guides<F, S>(items: Seq<Item<F, S>>)
    requires
        forall|i: int| 0 <= i < items.len() ==> !is_guide(#[trigger] items[i]),
    ensures
        guide_count(items) == 0,
    decreases items.len(),
{
    if items.len() > 0 {
        assert forall|i: int| 0 <= i < items.drop_last().len() implies !is_guide(
            #[trigger] items.drop_last()[i],
        ) by {
            assert(items.drop_last()[i] == items[i]);
        }
        lemma_no_guides(items.drop_last());
        assert(!is_guide(items[items.len() - 1]));
    }
}

/// Without its guides a list holds none.
proof fn lemma_sans_guides_has_none<F, S>(items: Seq<Item<F, S>>)
    ensures
        forall|i: int| 0 <= i < sans_guides(items).len() ==> !is_guide(#[trigger] sans_guides(items)[i]),
    decreases items.len(),
{
    if items.len() > 0 {
        let rest = sans_guides(items.drop_last());
        lemma_sans_guides_has_none(items.drop_last());
        assert forall|i: int| 0 <= i < sans_guides(items).len() implies !is_guide(
            #[trigger] sans_guides(items)[i],
        ) by {
            if i < rest.len() {
                assert(sans_guides(items)[i] == rest[i]);
            }
        }
    }
}

/// Items whose kinds are the same have the same number of guides.
proof fn lemma_same_guides<F, S>(a: Seq<Item<F, S>>, b: Seq<Item<F, S>>)
    requires
        a.len() == b.len(),
        forall|i: int| 0 <= i < a.len() ==> is_guide(#[trigger] a[i]) == is_guide(b[i]),
    ensures
        guide_count(a) == guide_count(b),
    decreases a.len(),
{
    if a.len() > 0 {
        let (p, q) = (a.drop_last(), b.drop_last());
        assert forall|i: int| 0 <= i < p.len() implies is_guide(#[trigger] p[i]) == is_guide(q[i]) by {
            assert(p[i] == a[i] && q[i] == b[i]);
            assert(is_guide(a[i]) == is_guide(b[i]));
        }
        lemma_same_guides(p, q);
        assert(is_guide(a[a.len() - 1]) == is_guide(b[a.len() - 1]));
    }
}

/// Taking items out adds no guide.
proof fn lemma_guides_left<F, S>(items: Seq<Item<F, S>>, taken: Seq<usize>, n: int)
    requires
        0 <= n <= items.len(),
    ensures
        guide_count(without(items, taken, n)) <= guide_count(items.take(n)),
    decreases n,
{
    if n > 0 {
        lemma_guides_left(items, taken, n - 1);
        assert(items.take(n).drop_last() =~= items.take(n - 1));
        let rest = without(items, taken, n - 1);
        assert(rest.push(items[n - 1]).drop_last() =~= rest);
    }
}

/// There is at most one guide: no operation that adds items adds a second.
/// Drawing replaces it, typing, markers and pictures are something else, a
/// copy never holds one, and a paste adds none. Taking items out and setting
/// a style add none either, and an undo or a redo leads to a state that was
/// there.
pub proof fn law_at_most_one_guide<F, S, L, P, M>(
    m: Model<F, S>,
    a: (i64, i64),
    b: (i64, i64),
    pixels: Seq<u32>,
    change: Restyle<S>,
    lift: L,
    shift: P,
    merge: M,
) where
    L: Fn(i64) -> F,
    P: Fn(F, i64) -> F,
    M: Fn(Vec<Annotation<F, S>>) -> Annotation<F, S>,

    requires
        guide_count(m.items) <= 1,
    ensures
        guide_count(m.commit_text().items) <= 1,
        guide_count(m.push_shape(a, b, lift).items) <= 1,
        guide_count(m.place_marker(a).items) <= 1,
        guide_count(m.paste_items(shift).items) <= 1,
        guide_count(m.delete_selected().items) <= 1,
        guide_count(m.restyle(change).items) <= 1,
        forall|w: i64, h: i64|
            guide_count((#[trigger] m.add_image(a, w, h, pixels, lift)).items) <= 1,
        guide_count(m.activate(EditorBtn::Copy, merge).0.clipboard) == 0 || m.activate(
            EditorBtn::Copy,
            merge,
        ).0.clipboard == m.clipboard,
        (m.history.past.len() > 0 ==> guide_count(m.history.past.last()) <= 1) ==> guide_count(
            m.undo().items,
        ) <= 1,
        (m.history.future.len() > 0 ==> guide_count(m.history.future.last()) <= 1) ==> guide_count(
            m.redo().items,
        ) <= 1,
{
    lemma_sans_guides(m.items);
    lemma_typed_guides(m);
    lemma_drawn_guides(m, a, b, lift);
    let marked = m.place_marker(a).items;
    assert(marked.drop_last() =~= m.items);
    lemma_pasted_guides(m, shift);
    lemma_guides_left(m.items, m.selected, m.items.len() as int);
    assert(m.items.take(m.items.len() as int) =~= m.items);
    lemma_same_guides(m.items, m.restyle(change).items);
    assert forall|w: i64, h: i64| guide_count((#[trigger] m.add_image(a, w, h, pixels, lift)).items)
        <= 1 by {
        lemma_added_guides(m, a, w, h, pixels, lift);
    }
    lemma_sans_guides(m.commit_text().picked());
}

proof fn lemma_typed_guides<F, S>(m: Model<F, S>)
    ensures
        guide_count(m.commit_text().items) == guide_count(m.items),
{
    if m.commit_text().items.len() > m.items.len() {
        assert(m.commit_text().items.drop_last() =~= m.items);
    }
}

proof fn lemma_drawn_guides<F, S, L: Fn(i64) -> F>(
    m: Model<F, S>,
    a: (i64, i64),
    b: (i64, i64),
    lift: L,
)
    requires
        guide_count(m.items) <= 1,
    ensures
        guide_count(m.push_shape(a, b, lift).items) <= 1,
{
    if m.tool == Tool::Guide {
        law_one_guide_after_placing(m, a, b, lift);
    } else if let Some(x) = m.drawn(a, b, lift) {
        assert(m.items.push(x).drop_last() =~= m.items);
    }
}

proof fn lemma_pasted_guides<F, S, P: Fn(F, i64) -> F>(m: Model<F, S>, shift: P)
    ensures
        guide_count(m.paste_items(shift).items) == guide_count(m.items),
{
    let pasted = m.pasteable().map_values(
        |x: Item<F, S>| moved(shift, x, PASTE_OFFSET, PASTE_OFFSET),
    );
    lemma_sans_guides_has_none(m.clipboard);
    assert forall|i: int| 0 <= i < pasted.len() implies !is_guide(#[trigger] pasted[i]) by {
        assert(!is_guide(m.pasteable()[i]));
    }
    lemma_no_guides(pasted);
    lemma_guides_add_up(m.items, pasted);
    let before = Model { items: m.items + pasted, ..m.snapshot() };
    lemma_typed_guides(before);
}

proof fn lemma_added_guides<F, S, L: Fn(i64) -> F>(
    m: Model<F, S>,
    center: (i64, i64),
    w: i64,
    h: i64,
    pixels: Seq<u32>,
    lift: L,
)
    ensures
        guide_count(m.add_image(center, w, h, pixels, lift).items) == guide_count(m.items),
{
    if w > 0 && h > 0 {
        let x = center.0 - w / 2;
        let y = center.1 - h / 2;
        let picture = Item::Image {
            r: lifted(lift, (x as i64, y as i64, (x + w) as i64, (y + h) as i64)),
            src_w: w,
            src_h: h,
            pixels,
            rot: m.zero,
        };
        let added = m.snapshot().with_item(picture);
        assert(added.items.drop_last() =~= m.items);
        lemma_typed_guides(added);
    }
}

/// A copy dragged with Alt is of what was grabbed, so it adds no guide where
/// none was grabbed. The select tool grabs none: neither a press nor a
/// marquee finds one.
pub proof fn law_alt_drag_adds_no_guide<F, S>(m: Model<F, S>, i: int, p: (i64, i64))
    requires
        0 <= i < m.items.len(),
        !is_guide(m.items[i]),
        forall|k: int| 0 <= k < m.picked().len() ==> !is_guide(#[trigger] m.picked()[k]),
    ensures
        guide_count(m.grab_one(i, p).items) == guide_count(m.items),
        guide_count(m.grab_group(p).items) == guide_count(m.items),
{
    assert(m.items.push(m.items[i]).drop_last() =~= m.items);
    lemma_no_guides(m.picked());
    lemma_guides_add_up(m.items, m.picked());
}

/// Taking up a tool lets go of whatever was selected, dragged or being drawn.
pub proof fn law_tool_change_lets_go<F, S, M>(m: Model<F, S>, t: Tool, merge: M) where
    M: Fn(Vec<Annotation<F, S>>) -> Annotation<F, S>,

    ensures
        ({
            let after = m.use_tool(t, merge);
            &&& after.tool == t
            &&& after.selected.len() == 0
            &&& after.edit == Drag::<F, S>::Idle
            &&& after.polyline_pts.len() == 0
            &&& after.freehand_pts.len() == 0
            &&& after.freehand_batch.len() == 0
            &&& after.editing is None
        }),
{
}

/// Merging strokes makes one item of them: it counts for all, and every item
/// that was not a waiting stroke stays.
pub proof fn law_merging_keeps_the_rest<F, S, M>(m: Model<F, S>, merge: M) where
    M: Fn(Vec<Annotation<F, S>>) -> Annotation<F, S>,

    requires
        m.items.len() <= usize::MAX,
    ensures
        ({
            let places = members(m.freehand_batch, m.items.len() as int);
            let after = m.finalize_freehand_batch(merge);
            &&& places.len() >= 2 ==> after.items.len() == m.items.len() - places.len() + 1
            &&& places.len() < 2 ==> after.items == m.items && after.history == m.history
            &&& forall|k: int|
                0 <= k < m.items.len() && !#[trigger] chosen(m.freehand_batch, k)
                    ==> after.items.contains(m.items[k])
        }),
{
    let n = m.items.len() as int;
    let places = members(m.freehand_batch, n);
    let after = m.finalize_freehand_batch(merge);
    crate::order::lemma_members(m.freehand_batch, n);
    crate::order::law_removal_keeps_the_rest(m.items, places, n);
    crate::order::lemma_members(places, n);
    crate::order::lemma_ascending_unique(members(places, n), places);
    assert forall|k: int|
        0 <= k < m.items.len() && !#[trigger] chosen(
            m.freehand_batch,
            k,
        ) implies after.items.contains(m.items[k]) by {
        if places.len() >= 2 {
            assert(!chosen(places, k));
            let rest = without(m.items, places, n);
            assert(rest.contains(m.items[k]));
            let t = choose|t: int| 0 <= t < rest.len() && rest[t] == m.items[k];
            assert(after.items[t] == m.items[k]);
        } else {
            assert(after.items[k] == m.items[k]);
        }
    }
}

/// Selecting records nothing: a press that only adds to or takes from the
/// selection leaves the items and the history alone.
pub proof fn law_selecting_records_nothing<F, S>(
    m: Model<F, S>,
    p: (i64, i64),
    tol: int,
    u: Under<F>,
    after: Model<F, S>,
)
    requires
        m.select_press(p, tol, u, after),
        m.shift,
        u.hit is Some,
        m.group_grab(u) is None,
        m.single() is None,
    ensures
        after.items == m.items,
        after.history == m.history,
        after.edit == Drag::<F, S>::Idle,
{
}

/// With Alt the grabbed items stay: a copy is dragged, and the items that
/// were there keep their places.
pub proof fn law_alt_drag_leaves_originals<F, S>(m: Model<F, S>, i: int, p: (i64, i64))
    requires
        m.alt,
        0 <= i < m.items.len(),
        m.items.len() < usize::MAX,
    ensures
        m.grab_one(i, p).items.take(m.items.len() as int) == m.items,
        m.grab_one(i, p).items.last() == m.items[i],
        m.grab_one(i, p).selected == seq![m.items.len() as usize],
        m.grab_group(p).items.take(m.items.len() as int) == m.items,
        m.grab_group(p).items.skip(m.items.len() as int) == m.picked(),
{
    assert(m.grab_one(i, p).items.take(m.items.len() as int) =~= m.items);
    assert(m.grab_group(p).items.take(m.items.len() as int) =~= m.items);
    assert(m.grab_group(p).items.skip(m.items.len() as int) =~= m.picked());
}

/// Following a drag records nothing and keeps the number of items: what can
/// be undone is the drag as a whole.
pub proof fn law_dragging_records_nothing<F, S, P, R, A, G>(
    m: Model<F, S>,
    p: (i64, i64),
    shift: P,
    resize: R,
    aim: A,
    swing: G,
) where
    P: Fn(F, i64) -> F,
    R: Fn(((F, F, F, F), Handle, F, Ratio)) -> (F, F, F, F),
    A: Fn(((F, F), bool)) -> Option<F>,
    G: Fn(((F, F), F, bool)) -> F,

    ensures
        m.apply_edit(p, shift, resize, aim, swing).0.history == m.history,
        m.apply_edit(p, shift, resize, aim, swing).0.selected == m.selected,
        m.apply_edit(p, shift, resize, aim, swing).0.items.len() == m.items.len(),
{
    if let Drag::GroupMove { grab, origs } = m.edit {
        let d = crate::drag::travel(grab, p, m.shift);
        lemma_placed(m.items, origs, all_moved(shift, origs, d), origs.len() as int, 0);
    }
}

/// Whether a group drag has grabbed the item at `k`.
pub open spec fn is_grabbed<F, S>(origs: Seq<(usize, Item<F, S>)>, n: int, k: int) -> bool {
    exists|j: int| 0 <= j < n && (#[trigger] origs[j]).0 == k
}

proof fn lemma_placed<F, S>(
    items: Seq<Item<F, S>>,
    origs: Seq<(usize, Item<F, S>)>,
    became: Seq<Item<F, S>>,
    n: int,
    k: int,
)
    requires
        0 <= n <= origs.len(),
    ensures
        placed(items, origs, became, n).len() == items.len(),
        0 <= k < items.len() && !is_grabbed(origs, n, k) ==> placed(items, origs, became, n)[k]
            == items[k],
    decreases n,
{
    if n > 0 {
        lemma_placed(items, origs, became, n - 1, k);
        if !is_grabbed(origs, n, k) {
            assert(origs[n - 1].0 != k);
            assert forall|j: int| 0 <= j < n - 1 implies (#[trigger] origs[j]).0 != k by {}
            assert(!is_grabbed(origs, n - 1, k));
        }
    }
}

/// A group drag leaves every item alone that it has not grabbed.
pub proof fn law_group_drag_spares_the_rest<F, S>(
    items: Seq<Item<F, S>>,
    origs: Seq<(usize, Item<F, S>)>,
    became: Seq<Item<F, S>>,
    k: int,
)
    requires
        0 <= k < items.len(),
        !is_grabbed(origs, origs.len() as int, k),
    ensures
        placed(items, origs, became, origs.len() as int)[k] == items[k],
{
    lemma_placed(items, origs, became, origs.len() as int, k);
}

/// Markers are numbered upwards: the one after a placed marker has a higher
/// number, as long as there is one.
pub proof fn law_markers_count_up<F, S>(m: Model<F, S>, p: (i64, i64))
    requires
        m.next_marker_num < u32::MAX,
        m.items.len() < usize::MAX,
    ensures
        m.place_marker(p).items.last() matches Item::NumberMarker { number, .. } && number
            == m.next_marker_num && m.place_marker(p).next_marker_num == number + 1,
        m.place_marker(p).selected == seq![m.items.len() as usize],
{
}

/// The number of the next marker is not part of the items: taking it over
/// records nothing.
pub proof fn law_marker_number_records_nothing<F, S, Z, O>(m: Model<F, S>, typing: Typing<Z, O>) where
    Z: Fn(i64) -> S,
    O: Fn(&str, (i64, i64)) -> Option<(i64, S)>,

    requires
        m.focus == Some(Field::Number),
    ensures
        m.commit_field(typing).items == m.items,
        m.commit_field(typing).history == m.history,
        m.commit_field(typing).style == m.style,
{
}

/// A number field holds whole numbers only: it starts with one, and every key
/// keeps it so. What is read from it is therefore a whole number.
pub proof fn law_fields_hold_whole_numbers<F, S, Z, O, W>(
    m: Model<F, S>,
    field: Field,
    key: KeyPress,
    typing: Typing<Z, O>,
    whole: W,
) where Z: Fn(i64) -> S, O: Fn(&str, (i64, i64)) -> Option<(i64, S)>, W: Fn(S) -> i64
    requires
        field_text(m.buf),
    ensures
        field_text(m.focus_field(field, typing, whole).buf),
        field_text(m.commit_field(typing).buf),
        m.field_key(key, typing) matches Some(after) ==> field_text(after.buf),
{
    let shown = Model { picker: None, ..m }.commit_field(typing);
    law_shown_number_fits_field(shown.shown().thick as int);
    law_shown_number_fits_field(result(whole, shown.shown().size) as int);
    law_shown_number_fits_field(result(whole, shown.shown().block) as int);
    law_shown_number_fits_field(shown.next_marker_num as int);
    if let KeyPress::Text(s) = key {
        if all_digits(s@) {
            assert forall|i: int| 0 <= i < (m.buf + s@).len() implies is_digit(
                #[trigger] (m.buf + s@)[i],
            ) || (i == 0 && (m.buf + s@)[i] == '-') by {
                if i >= m.buf.len() {
                    assert((m.buf + s@)[i] == s@[i - m.buf.len()]);
                } else {
                    assert((m.buf + s@)[i] == m.buf[i]);
                }
            }
        }
    }
}

/// A typed thickness is one that is allowed, whatever whole number was typed.
pub proof fn law_typed_thickness_allowed<F, S, Z, O>(m: Model<F, S>, typing: Typing<Z, O>) where
    Z: Fn(i64) -> S,
    O: Fn(&str, (i64, i64)) -> Option<(i64, S)>,

    requires
        m.focus == Some(Field::Line),
        spelled_number(trimmed(m.buf)) is Some,
    ensures
        THICK_RANGE.0 <= m.commit_field(typing).style.thick <= THICK_RANGE.1,
{
}

/// A new item is selected alone, and it is the one on top.
pub proof fn law_new_item_is_selected<F, S, L: Fn(i64) -> F>(
    m: Model<F, S>,
    a: (i64, i64),
    b: (i64, i64),
    lift: L,
)
    requires
        m.drawn(a, b, lift) is Some,
        m.tool != Tool::Guide,
        m.items.len() < usize::MAX,
    ensures
        m.push_shape(a, b, lift).items == m.items.push(m.drawn(a, b, lift)->0),
        m.push_shape(a, b, lift).selected == seq![m.items.len() as usize],
        m.push_shape(a, b, lift).history == m.history.after_push(m.items),
{
}

/// What is drawn at the end of a drag is what was shown while dragging.
pub proof fn law_preview_is_what_is_drawn<F, S, L: Fn(i64) -> F>(
    m: Model<F, S>,
    a: (i64, i64),
    b: (i64, i64),
    lift: L,
)
    requires
        m.dragging,
        m.drag_start == Some(a),
        m.tool != Tool::Draw,
        m.tool != Tool::Select,
        m.drawn(a, b, lift) is Some,
    ensures
        m.push_shape(a, b, lift).items.last() == m.preview(b, lift)->0,
{
}

/// A paste keeps what was there, adds one item for each copied one that is no
/// guide, and leaves the copied ones for another paste.
pub proof fn law_paste_adds_copies<F, S, P: Fn(F, i64) -> F>(m: Model<F, S>, shift: P)
    requires
        m.editing is None,
        m.items.len() + m.pasteable().len() <= usize::MAX,
    ensures
        m.paste_items(shift).items.take(m.items.len() as int) == m.items,
        m.paste_items(shift).items.len() == m.items.len() + m.pasteable().len(),
        m.paste_items(shift).clipboard == m.clipboard,
        m.paste_items(shift).selected == range_of(
            m.items.len() as int,
            (m.items.len() + m.pasteable().len()) as int,
        ),
        ascending(m.paste_items(shift).selected),
{
    assert(m.paste_items(shift).items.take(m.items.len() as int) =~= m.items);
}

/// Deleting takes out exactly the selected items, and an undo brings them
/// back.
pub proof fn law_delete_and_undo<F, S>(m: Model<F, S>)
    requires
        m.at_rest(),
        m.selected.len() > 0,
    ensures
        m.delete_selected().items == without(m.items, m.selected, m.items.len() as int),
        m.delete_selected().selected.len() == 0,
        m.delete_selected().undo().items == m.items,
{
    law_undo_and_redo(m, without(m.items, m.selected, m.items.len() as int));
}

/// An added picture is the selected item, alone and with the select tool,
/// also where a text was being typed; that text is kept.
pub proof fn law_added_picture_is_selected<F, S, L: Fn(i64) -> F>(
    m: Model<F, S>,
    center: (i64, i64),
    w: i64,
    h: i64,
    pixels: Seq<u32>,
    lift: L,
)
    requires
        w > 0,
        h > 0,
        m.items.len() <= usize::MAX,
    ensures
        ({
            let after = m.add_image(center, w, h, pixels, lift);
            let n = m.items.len() as int;
            &&& after.tool == Tool::Select
            &&& after.selected == seq![n as usize]
            &&& (after.items[n] matches Item::Image { src_w, src_h, pixels: p, rot, .. } && src_w
                == w && src_h == h && p == pixels && rot == m.zero)
            &&& after.items.take(n) == m.items
            &&& after.editing is None
            &&& match m.editing {
                Some((_, text)) if text.len() > 0 => after.items.len() == n + 2 && after.items[n
                    + 1] is Text,
                _ => after.items.len() == n + 1,
            }
        }),
{
    let after = m.add_image(center, w, h, pixels, lift);
    assert(after.items.take(m.items.len() as int) =~= m.items);
}

/// The operations that choose a selection choose existing items: committing a
/// text, placing a marker, drawing, adding a picture, undoing and deleting.
pub proof fn law_selection_names_items<F, S, L: Fn(i64) -> F>(
    m: Model<F, S>,
    a: (i64, i64),
    b: (i64, i64),
    pixels: Seq<u32>,
    lift: L,
)
    requires
        within(m.selected, m.items.len() as int),
        m.items.len() < usize::MAX,
        guide_count(m.items) <= 1,
    ensures
        forall|w: i64, h: i64|
            #![trigger m.add_image(a, w, h, pixels, lift)]
            within(
                m.add_image(a, w, h, pixels, lift).selected,
                m.add_image(a, w, h, pixels, lift).items.len() as int,
            ),
        within(m.commit_text().selected, m.commit_text().items.len() as int),
        within(m.place_marker(a).selected, m.place_marker(a).items.len() as int),
        within(m.push_shape(a, b, lift).selected, m.push_shape(a, b, lift).items.len() as int),
        within(m.undo().selected, m.undo().items.len() as int),
        within(m.delete_selected().selected, m.delete_selected().items.len() as int),
{
    lemma_sans_guides(m.items);
}

/// Setting a style changes no geometry and records nothing by itself: the
/// items keep their number, and those not selected stay as they were.
pub proof fn law_restyle_spares_unselected<F, S>(m: Model<F, S>, change: Restyle<S>, k: int)
    requires
        0 <= k < m.items.len(),
    ensures
        m.restyle(change).items.len() == m.items.len(),
        !chosen(m.selected, k) ==> m.restyle(change).items[k] == m.items[k],
        m.restyle(change).history == m.history,
{
}

} // verus!

//! What the keys of the editor do, and which of its controls are shown.

use vstd::prelude::*;

use crate::annotation::Item;
use crate::commands::{surveyed, KeyPress, Labels};
use crate::editor::{first_present, Model, PickerPart, Task};
use crate::fields::{decimal_text, Typing};
use crate::keys::{EditorAction, LocalKey};
use crate::order::{chosen, chosen_after, free_above, free_below, source, steps};
use crate::pure::{result, result2};
use crate::style::{named, present};
use crate::toolbar::{Field, Tool};

verus! {

// ---- Keys ----

/// Page Up brings one selected item a place toward the front and Page Down a
/// place toward the back: it and its neighbor change places, it stays
/// selected, and every other item stays.
pub proof fn law_page_keys_step_one_place<F, S>(
    m: Model<F, S>,
    forward: bool,
    i: usize,
    after: Model<F, S>,
)
    requires
        m.selected == seq![i],
        i < m.items.len(),
        forward ==> i + 1 < m.items.len(),
        !forward ==> i > 0,
        m.stepped_to(forward, after),
    ensures
        ({
            let j = if forward {
                i + 1
            } else {
                i - 1
            };
            &&& after.items.len() == m.items.len()
            &&& after.items[j] == m.items[i as int]
            &&& after.items[i as int] == m.items[j]
            &&& forall|k: int|
                0 <= k < m.items.len() && k != i && k != j ==> #[trigger] after.items[k]
                    == m.items[k]
            &&& chosen(after.selected, j)
            &&& !chosen(after.selected, i as int)
            &&& after.history.past == m.history.past.push(m.items)
        }),
{
    let sel = m.selected;
    let len = m.items.len() as int;
    let j = if forward {
        i + 1
    } else {
        i - 1
    };
    assert(sel[0] == i);
    assert(chosen(sel, i as int));
    assert forall|k: int| k != i implies !#[trigger] chosen(sel, k) by {}
    assert(!chosen(sel, j));
    assert(steps(sel, len, forward, i as int));
    assert forall|k: int| k != i implies !#[trigger] steps(sel, len, forward, k) by {}
    reveal_with_fuel(free_above, 2);
    reveal_with_fuel(free_below, 2);
    assert(source(sel, len, forward, j) == i);
    assert(source(sel, len, forward, i as int) == j);
    assert forall|k: int| 0 <= k < len && k != i && k != j implies #[trigger] after.items[k]
        == m.items[k] by {
        assert(!steps(sel, len, forward, k - 1) || !forward);
        assert(!steps(sel, len, forward, k + 1) || forward);
        assert(!chosen(sel, k));
        assert(source(sel, len, forward, k) == k);
    }
    assert(chosen_after(sel, len, forward, j));
    assert(!chosen_after(sel, len, forward, i as int)) by {
        assert(!steps(sel, len, forward, i - 1));
        assert(!steps(sel, len, forward, i + 1));
    }
}

/// While text is typed, a key adds its characters, Backspace takes the last
/// one off, Escape discards the text and Enter places it; no item changes
/// before that.
pub proof fn law_typing_goes_into_the_text<F, S>(
    m: Model<F, S>,
    pos: (i64, i64),
    text: Seq<char>,
    s: String,
)
    requires
        m.editing == Some((pos, text)),
    ensures
        m.text_key(KeyPress::Text(s)) matches Some(after) && after.editing == Some((pos, text + s@))
            && after.items == m.items,
        m.text_key(KeyPress::Space) matches Some(after) && after.editing == Some(
            (pos, text.push(' ')),
        ) && after.items == m.items,
        text.len() > 0 ==> (m.text_key(KeyPress::Backspace) matches Some(after) && after.editing
            == Some((pos, text.drop_last())) && after.items == m.items),
        m.text_key(KeyPress::Escape) matches Some(after) && after.editing is None && after.items
            == m.items,
        text.len() > 0 ==> (m.text_key(KeyPress::Enter) matches Some(after)
            && after.editing is None && after.items.len() == m.items.len() + 1 && (
        after.items.last() matches Item::Text { pos: p, text: t, color, size, rot } && p == pos && t
            == text && color == m.style.color && size == m.style.size && rot == m.zero)),
{
}

/// A key goes to the polyline or the stroke being drawn, the text being typed
/// or the number field in use before it is a command. A command's key, with
/// the modifiers that are held, does the action it is bound to.
pub proof fn law_keys_go_to_what_is_in_use<F, S, Z, O, M, P>(
    m: Model<F, S>,
    key: KeyPress,
    s: String,
    typing: Typing<Z, O>,
    merge: M,
    shift: P,
    after: Model<F, S>,
    task: Task,
    a: EditorAction,
) where
    Z: Fn(i64) -> S,
    O: Fn(&str, (i64, i64)) -> Option<(i64, S)>,
    M: Fn(Vec<crate::annotation::Annotation<F, S>>) -> crate::annotation::Annotation<F, S>,
    P: Fn(F, i64) -> F,

    requires
        m.polyline_pts.len() == 0,
        !m.dragging,
        m.keyed(key, typing, merge, shift, after, task),
    ensures
        m.editing is Some ==> Some(after) == m.text_key(key) && task == Task::Nothing,
        m.editing is None && m.focus is Some ==> Some(after) == m.field_key(key, typing) && task
            == Task::Nothing,
        m.editing is None && m.focus is None && key is Delete ==> after == m.delete_selected(),
        m.editing is None && m.focus is None && key is Backspace ==> after == m.delete_selected(),
        m.editing is None && m.focus is None && key is PageUp ==> m.stepped_to(true, after),
        m.editing is None && m.focus is None && key is PageDown ==> m.stepped_to(false, after),
        m.editing is None && m.focus is None && key is Escape && m.picker is Some
            ==> after.picker is None && after.items == m.items,
        m.editing is None && m.focus is None && key == KeyPress::Text(s) && s@.len() > 0
            && m.keys.action_of(
            LocalKey {
                ctrl: m.ctrl,
                shift: m.shift,
                alt: m.alt,
                ch: if 'A' <= s@[0] && s@[0] <= 'Z' {
                    (s@[0] as int + 32) as char
                } else {
                    s@[0]
                },
            },
        ) == Some(a) ==> (after, task) == m.act(a, merge, shift),
{
}

/// Escape gives up a stroke being drawn and a polyline being clicked; Enter
/// places the polyline, if it has two points.
pub proof fn law_escape_gives_up_the_line<F, S>(m: Model<F, S>)
    ensures
        m.dragging && m.tool == Tool::Draw ==> (m.stroke_key(KeyPress::Escape) matches Some(after)
            && !after.dragging && after.freehand_pts.len() == 0 && after.items == m.items),
        m.polyline_pts.len() > 0 ==> (m.polyline_key(KeyPress::Escape) matches Some(after)
            && after.polyline_pts.len() == 0 && after.items == m.items),
        m.polyline_pts.len() >= 2 ==> (m.polyline_key(KeyPress::Enter) matches Some(after)
            && after.polyline_pts.len() == 0 && after.items.len() == m.items.len() + 1 && (
        after.items.last() matches Item::Polyline { points, color, thick } && points
            == m.polyline_pts && color == m.style.color && thick == m.style.thick)),
        m.polyline_pts.len() == 1 ==> (m.polyline_key(KeyPress::Enter) matches Some(after)
            && after.polyline_pts.len() == 0 && after.items == m.items),
{
}

// ---- Controls ----

/// With nothing selected, the number field shown is that of the tool: the
/// width for what has lines, the size for a text, the block for a mosaic, and
/// the next number for a marker.
pub proof fn law_field_is_that_of_the_tool<F, S>(m: Model<F, S>)
    requires
        m.selected.len() == 0,
    ensures
        m.tool == Tool::Arrow || m.tool == Tool::Polyline || m.tool == Tool::Draw || m.tool
            == Tool::Rect || m.tool == Tool::Ellipse ==> m.active_field() == Some(Field::Line),
        m.tool == Tool::Text ==> m.active_field() == Some(Field::Size),
        m.tool == Tool::Mosaic ==> m.active_field() == Some(Field::Block),
        m.tool == Tool::NumberMarker ==> m.active_field() == Some(Field::Number),
        m.tool == Tool::Select || m.tool == Tool::Guide ==> m.active_field() is None,
        m.active_fill_checkbox() <==> m.tool == Tool::Rect || m.tool == Tool::Ellipse,
{
    assert(m.picked().len() == 0);
}

/// With one item selected, the number field and the fill toggle shown are
/// those of the item.
pub proof fn law_field_is_that_of_the_item<F, S>(m: Model<F, S>, i: usize)
    requires
        m.selected == seq![i],
        i < m.items.len(),
        m.tool != Tool::NumberMarker,
    ensures
        ({
            let a = m.items[i as int];
            &&& a is Arrow || a is Polyline || a is Rect || a is Ellipse ==> m.active_field()
                == Some(Field::Line)
            &&& a is Text || a is NumberMarker ==> m.active_field() == Some(Field::Size)
            &&& a is Mosaic ==> m.active_field() == Some(Field::Block)
            &&& a is Image || a is Guide ==> m.active_field() is None
            &&& m.active_fill_checkbox() <==> a is Rect || a is Ellipse
        }),
{
    reveal_with_fuel(named, 2);
    let a = m.items[i as int];
    assert(m.selected.drop_last() =~= Seq::empty());
    assert(m.picked() =~= seq![a]);
    let s = surveyed(m.picked());
    assert(m.picked()[0] == a);
}

/// A number field that is clicked shows the number in use, ready to be typed
/// over, and closes the color picker.
pub proof fn law_clicked_field_shows_its_number<F, S, Z, O, W>(
    m: Model<F, S>,
    typing: Typing<Z, O>,
    whole: W,
) where
    Z: Fn(i64) -> S,
    O: Fn(&str, (i64, i64)) -> Option<(i64, S)>,
    W: Fn(S) -> i64,

    requires
        m.focus is None,
        m.selected.len() == 0,
    ensures
        ({
            let after = m.focus_field(Field::Line, typing, whole);
            after.focus == Some(Field::Line) && after.buf == decimal_text(m.style.thick as int)
                && after.picker is None && after.items == m.items
        }),
        ({
            let after = m.focus_field(Field::Size, typing, whole);
            after.focus == Some(Field::Size) && after.buf == decimal_text(
                result(whole, m.style.size) as int,
            )
        }),
        ({
            let after = m.focus_field(Field::Block, typing, whole);
            after.focus == Some(Field::Block) && after.buf == decimal_text(
                result(whole, m.style.block) as int,
            )
        }),
        ({
            let after = m.focus_field(Field::Number, typing, whole);
            after.focus == Some(Field::Number) && after.buf == decimal_text(
                m.next_marker_num as int,
            )
        }),
{
    let n = Model { picker: None, ..m };
    assert(n.picked().len() == 0);
    assert(m.picked().len() == 0);
}

/// The color field opens the picker on the color in use and closes an open
/// one; what is picked becomes the color of the selection and of new items.
pub proof fn law_picker_picks_the_color<F, S, Z, O, H, K>(
    m: Model<F, S>,
    typing: Typing<Z, O>,
    to_hsv: H,
    pick: K,
    hsv: (S, S, S),
    part: PickerPart,
) where
    Z: Fn(i64) -> S,
    O: Fn(&str, (i64, i64)) -> Option<(i64, S)>,
    H: Fn(u32) -> (S, S, S),
    K: Fn((S, S, S), PickerPart) -> ((S, S, S), u32),

    ensures
        m.picker is Some ==> m.toggle_picker(typing, to_hsv).picker is None,
        m.picker is None && m.focus is None && m.selected.len() == 0 ==> m.toggle_picker(
            typing,
            to_hsv,
        ).picker == Some(result(to_hsv, m.style.color)),
        m.picker == Some(hsv) && m.picker_drag == Some(part) ==> ({
            let after = m.apply_picker(pick);
            after.picker == Some(result2(pick, hsv, part).0) && after.style.color == result2(
                pick,
                hsv,
                part,
            ).1 && after.style.thick == m.style.thick
        }),
        m.picker is None ==> m.apply_picker(pick) == m,
{
    if m.selected.len() == 0 {
        assert(m.picked().len() == 0);
    }
}

/// Of a selection the value of the first item that has one is in use, and
/// the default only where none has.
pub proof fn law_first_value_is_in_use<T>(vals: Seq<Option<T>>, default: T, v: T)
    ensures
        first_present(seq![Some(v)] + vals, default) == v,
        first_present(seq![None] + vals, default) == first_present(vals, default),
        first_present(Seq::empty(), default) == default,
{
    lemma_present_front(Some(v), vals);
    lemma_present_front(None::<T>, vals);
}

proof fn lemma_present_front<T>(o: Option<T>, vals: Seq<Option<T>>)
    ensures
        present(seq![o] + vals) == (match o {
            Some(v) => seq![v] + present(vals),
            None => present(vals),
        }),
    decreases vals.len(),
{
    reveal_with_fuel(present, 2);
    let all = seq![o] + vals;
    if vals.len() == 0 {
        assert(all.drop_last() =~= Seq::empty());
        assert(present(all) =~= (match o {
            Some(v) => seq![v] + present(vals),
            None => present(vals),
        }));
    } else {
        assert(all.drop_last() =~= seq![o] + vals.drop_last());
        assert(all.last() == vals.last());
        lemma_present_front(o, vals.drop_last());
        assert(present(all) =~= (match o {
            Some(v) => seq![v] + present(vals),
            None => present(vals),
        }));
    }
}

/// The label beside a number field is that field's.
pub proof fn law_labels_stand_beside_their_fields(l: Labels)
    ensures
        l.beside(Some(Field::Line)) == l.line,
        l.beside(Some(Field::Size)) == l.size,
        l.beside(Some(Field::Number)) == l.number,
        l.beside(Some(Field::Block)) == l.block,
        l.beside(None) is None,
        Field::Line.caption() == "Width"@,
        Field::Size.caption() == "Size"@,
        Field::Number.caption() == "Number"@,
        Field::Block.caption() == "Block"@,
{
}

} // verus!

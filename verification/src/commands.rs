//! The editor's commands: buttons, keys, typing, pasting, and what a finished
//! drag leaves behind.

use vstd::prelude::*;

use crate::annotation::{copy_items, copy_points, items_of, Annotation, Item};
use crate::editor::{Drag, EditDrag, Editor, Model, Task, Todo, PASTE_OFFSET};
use crate::fields::{all_digits, computes_typing, only_digits, Typing};
use crate::keys::{folded_char, EditorAction, LocalKey};
use crate::order::{
    ascending, chosen, members, members_below, remove_chosen, reorder_selection, source, without,
};
use crate::pure::{pure2, result2};
use crate::release::{remove_guides, sans_guides};
use crate::style::{block_of, filled_of, named, size_of, thick_of};
use crate::toolbar::{first_at, prop_at, prop_layout, top_fits, EditorBtn, Field, PropCtrl, Tool};
use crate::transform::{
    can_translate, item_movable, shifted_plain, shifted_rect, translate_annotation,
};

verus! {

// ---- Closures over lists ----

/// The closure accepts every list of items, and lists that stand for the same
/// items give the same item.
pub open spec fn merges_lists<F, S, M>(merge: M) -> bool where
    M: Fn(Vec<Annotation<F, S>>) -> Annotation<F, S>,
 {
    &&& forall|v: Vec<Annotation<F, S>>| call_requires(merge, (v,))
    &&& forall|
        v: Vec<Annotation<F, S>>,
        w: Vec<Annotation<F, S>>,
        a: Annotation<F, S>,
        b: Annotation<F, S>,
    |
        call_ensures(merge, (v,), a) && call_ensures(merge, (w,), b) && items_of(v@) == items_of(
            w@,
        ) ==> a@ == b@
}

/// Whether `merge` makes `x` of these items.
pub open spec fn merges_to<F, S, M>(merge: M, items: Seq<Item<F, S>>, x: Item<F, S>) -> bool where
    M: Fn(Vec<Annotation<F, S>>) -> Annotation<F, S>,
 {
    exists|v: Vec<Annotation<F, S>>, a: Annotation<F, S>|
        items_of(v@) == items && #[trigger] call_ensures(merge, (v,), a) && a@ == x
}

/// The one item that `merge` makes of several.
pub open spec fn merged_item<F, S, M>(merge: M, items: Seq<Item<F, S>>) -> Item<F, S> where
    M: Fn(Vec<Annotation<F, S>>) -> Annotation<F, S>,
 {
    choose|x: Item<F, S>| merges_to(merge, items, x)
}

fn merge_list<F: Copy, S: Copy, M>(merge: &M, list: Vec<Annotation<F, S>>) -> (a: Annotation<
    F,
    S,
>) where M: Fn(Vec<Annotation<F, S>>) -> Annotation<F, S>
    requires
        merges_lists(*merge),
    ensures
        a@ == merged_item(*merge, items_of(list@)),
{
    let ghost v = list;
    let a = merge(list);
    assert(merges_to(*merge, items_of(v@), a@));
    a
}

/// The closure accepts every stroke, and the same points, thickness and color
/// give the same item.
pub open spec fn inks_strokes<F, S, K>(ink: K) -> bool where
    K: Fn(Vec<(i64, i64)>, i64, u32) -> Annotation<F, S>,
 {
    &&& forall|v: Vec<(i64, i64)>, t: i64, c: u32| call_requires(ink, (v, t, c))
    &&& forall|
        v: Vec<(i64, i64)>,
        w: Vec<(i64, i64)>,
        t: i64,
        c: u32,
        a: Annotation<F, S>,
        b: Annotation<F, S>,
    |
        call_ensures(ink, (v, t, c), a) && call_ensures(ink, (w, t, c), b) && v@ == w@ ==> a@
            == b@
}

/// Whether `ink` makes `x` of a stroke.
pub open spec fn inks_to<F, S, K>(
    ink: K,
    points: Seq<(i64, i64)>,
    thick: i64,
    color: u32,
    x: Item<F, S>,
) -> bool where K: Fn(Vec<(i64, i64)>, i64, u32) -> Annotation<F, S> {
    exists|v: Vec<(i64, i64)>, a: Annotation<F, S>|
        v@ == points && #[trigger] call_ensures(ink, (v, thick, color), a) && a@ == x
}

/// The item that `ink` makes of a stroke.
pub open spec fn inked_item<F, S, K>(
    ink: K,
    points: Seq<(i64, i64)>,
    thick: i64,
    color: u32,
) -> Item<F, S> where K: Fn(Vec<(i64, i64)>, i64, u32) -> Annotation<F, S> {
    choose|x: Item<F, S>| inks_to(ink, points, thick, color, x)
}

pub(crate) fn ink_stroke<F: Copy, S: Copy, K>(
    ink: &K,
    points: Vec<(i64, i64)>,
    thick: i64,
    color: u32,
) -> (a: Annotation<F, S>) where K: Fn(Vec<(i64, i64)>, i64, u32) -> Annotation<F, S>
    requires
        inks_strokes(*ink),
    ensures
        a@ == inked_item(*ink, points@, thick, color),
{
    let ghost v = points;
    let a = ink(points, thick, color);
    assert(inks_to(*ink, v@, thick, color, a@));
    a
}

/// The item moved by `(dx, dy)`, each coordinate of its display rectangle by
/// what `shift` makes of it.
pub open spec fn moved<F, S, P: Fn(F, i64) -> F>(
    shift: P,
    a: Item<F, S>,
    dx: i64,
    dy: i64,
) -> Item<F, S> {
    match a.frame() {
        Some(r) => a.with_frame(
            (
                result2(shift, r.0, dx),
                result2(shift, r.1, dy),
                result2(shift, r.2, dx),
                result2(shift, r.3, dy),
            ),
        ),
        None => shifted_plain(a, dx as int, dy as int),
    }
}

/// A copy of the item moved by `(dx, dy)`.
pub(crate) fn move_item<F: Copy, S: Copy, P: Fn(F, i64) -> F>(
    ann: &Annotation<F, S>,
    dx: i64,
    dy: i64,
    shift: &P,
) -> (out: Annotation<F, S>)
    requires
        item_movable(ann@, dx as int, dy as int),
        pure2(*shift),
    ensures
        out@ == moved(*shift, ann@, dx, dy),
{
    let out = translate_annotation(ann, dx, dy, shift);
    proof {
        if let Some(r) = ann@.frame() {
            let q = choose|q: (F, F, F, F)| #[trigger]
                shifted_rect(*shift, r, q, dx, dy) && out@ == ann@.with_frame(q);
            assert(q.0 == result2(*shift, r.0, dx));
            assert(q.1 == result2(*shift, r.1, dy));
            assert(q.2 == result2(*shift, r.2, dx));
            assert(q.3 == result2(*shift, r.3, dy));
        }
    }
    out
}

/// Copies of the items that a list of places names, in its order. Places
/// beyond the items are skipped.
pub fn pick_items<F: Copy, S: Copy>(
    annotations: &Vec<Annotation<F, S>>,
    places: &[usize],
) -> (out: Vec<Annotation<F, S>>)
    ensures
        items_of(out@) == named(items_of(annotations@), places@),
{
    let ghost items = items_of(annotations@);
    let mut out: Vec<Annotation<F, S>> = Vec::new();
    let mut t: usize = 0;
    while t < places.len()
        invariant
            t <= places.len(),
            items == items_of(annotations@),
            items_of(out@) =~= named(items, places@.take(t as int)),
        decreases places.len() - t,
    {
        let i: usize = places[t];
        assert(places@.take(t + 1).drop_last() =~= places@.take(t as int));
        if i < annotations.len() {
            let a = annotations[i].clone();
            assert(items_of(out@.push(a)) =~= items_of(out@).push(a@));
            out.push(a);
        }
        t += 1;
    }
    assert(places@.take(places@.len() as int) =~= places@);
    out
}

/// The items of a removal, seen as what they stand for.
pub(crate) proof fn lemma_without_items<F, S>(
    list: Seq<Annotation<F, S>>,
    places: Seq<usize>,
    n: int,
)
    requires
        0 <= n <= list.len(),
    ensures
        items_of(without(list, places, n)) == without(items_of(list), places, n),
    decreases n,
{
    if n > 0 {
        lemma_without_items(list, places, n - 1);
        let rest = without(list, places, n - 1);
        assert(items_of(rest.push(list[n - 1])) =~= items_of(rest).push(list[n - 1]@));
    } else {
        assert(items_of(without(list, places, n)) =~= without(items_of(list), places, n));
    }
}

// ---- What the bars show ----

/// What a selection consists of.
pub struct Survey {
    pub any: bool,
    pub all_sized: bool,
    pub all_mosaic: bool,
    pub any_line: bool,
    pub any_fill: bool,
}

/// The survey of a list of items.
pub open spec fn surveyed<F, S>(items: Seq<Item<F, S>>) -> Survey {
    Survey {
        any: items.len() > 0,
        all_sized: forall|i: int| 0 <= i < items.len() ==> size_of(#[trigger] items[i]) is Some,
        all_mosaic: forall|i: int| 0 <= i < items.len() ==> block_of(#[trigger] items[i]) is Some,
        any_line: exists|i: int| 0 <= i < items.len() && thick_of(#[trigger] items[i]) is Some,
        any_fill: exists|i: int| 0 <= i < items.len() && filled_of(#[trigger] items[i]) is Some,
    }
}

impl<F, S> Model<F, S> {
    /// The number field on show. The marker tool always shows its number.
    /// Otherwise the selection decides: sizes if every item has one, block
    /// lengths if all are mosaics, a line thickness if any item has one. With
    /// nothing selected, the tool decides.
    pub open spec fn active_field(self) -> Option<Field> {
        let s = surveyed(self.picked());
        if self.tool == Tool::NumberMarker {
            Some(Field::Number)
        } else if s.any {
            if s.all_sized {
                Some(Field::Size)
            } else if s.all_mosaic {
                Some(Field::Block)
            } else if s.any_line {
                Some(Field::Line)
            } else {
                None
            }
        } else {
            match self.tool {
                Tool::Arrow | Tool::Polyline | Tool::Draw | Tool::Rect | Tool::Ellipse => Some(
                    Field::Line,
                ),
                Tool::Text => Some(Field::Size),
                Tool::NumberMarker => Some(Field::Number),
                Tool::Mosaic => Some(Field::Block),
                Tool::Select | Tool::Guide => None,
            }
        }
    }

    /// Whether the fill toggle is on show: for a selection that holds a
    /// rectangle or an ellipse, else for their tools.
    pub open spec fn active_fill_checkbox(self) -> bool {
        let s = surveyed(self.picked());
        if s.any {
            s.any_fill
        } else {
            self.tool == Tool::Rect || self.tool == Tool::Ellipse
        }
    }
}

/// The measured widths of the top bar's labels, if there is a font.
#[derive(Clone, Copy, Debug)]
pub struct Labels {
    pub color: Option<usize>,
    pub line: Option<usize>,
    pub size: Option<usize>,
    pub number: Option<usize>,
    pub block: Option<usize>,
}

impl Labels {
    /// The width of the label beside a field.
    pub open spec fn beside(self, field: Option<Field>) -> Option<usize> {
        match field {
            Some(Field::Line) => self.line,
            Some(Field::Size) => self.size,
            Some(Field::Number) => self.number,
            Some(Field::Block) => self.block,
            None => None,
        }
    }

    /// Whether the bar's places fit with every field.
    pub open spec fn fit(self) -> bool {
        forall|f: Option<Field>| top_fits(0, self.color, #[trigger] self.beside(f))
    }

    /// The width of the label beside a field.
    pub fn field_label(&self, field: Option<Field>) -> (w: Option<usize>)
        ensures
            w == self.beside(field),
    {
        match field {
            Some(Field::Line) => self.line,
            Some(Field::Size) => self.size,
            Some(Field::Number) => self.number,
            Some(Field::Block) => self.block,
            None => None,
        }
    }
}

impl<F: Copy, S: Copy> Editor<F, S> {
    /// What the selection consists of.
    fn survey(&self) -> (s: Survey)
        ensures
            s == surveyed(self@.picked()),
    {
        let ghost items = items_of(self.annotations@);
        let mut any: bool = false;
        let mut all_sized: bool = true;
        let mut all_mosaic: bool = true;
        let mut any_line: bool = false;
        let mut any_fill: bool = false;
        let mut t: usize = 0;
        while t < self.selected.len()
            invariant
                t <= self.selected@.len(),
                items == items_of(self.annotations@),
                (Survey { any, all_sized, all_mosaic, any_line, any_fill }) == surveyed(
                    named(items, self.selected@.take(t as int)),
                ),
            decreases self.selected.len() - t,
        {
            let i: usize = self.selected[t];
            let ghost rest = named(items, self.selected@.take(t as int));
            assert(self.selected@.take(t + 1).drop_last() =~= self.selected@.take(t as int));
            if i < self.annotations.len() {
                let a = &self.annotations[i];
                any = true;
                let sized: bool = a.get_size().is_some();
                let mosaic: bool = a.get_block().is_some();
                let line: bool = a.get_thick().is_some();
                let fill: bool = a.get_filled().is_some();
                proof {
                    lemma_survey_next(rest, a@);
                }
                all_sized = all_sized && sized;
                all_mosaic = all_mosaic && mosaic;
                any_line = any_line || line;
                any_fill = any_fill || fill;
            }
            t += 1;
        }
        assert(self.selected@.take(self.selected@.len() as int) =~= self.selected@);
        Survey { any, all_sized, all_mosaic, any_line, any_fill }
    }

    /// The number field on show.
    pub fn active_field(&self) -> (f: Option<Field>)
        ensures
            f == self@.active_field(),
    {
        if self.tool == Tool::NumberMarker {
            return Some(Field::Number);
        }
        let s = self.survey();
        if s.any {
            if s.all_sized {
                Some(Field::Size)
            } else if s.all_mosaic {
                Some(Field::Block)
            } else if s.any_line {
                Some(Field::Line)
            } else {
                None
            }
        } else {
            match self.tool {
                Tool::Arrow | Tool::Polyline | Tool::Draw | Tool::Rect | Tool::Ellipse => Some(
                    Field::Line,
                ),
                Tool::Text => Some(Field::Size),
                Tool::NumberMarker => Some(Field::Number),
                Tool::Mosaic => Some(Field::Block),
                Tool::Select | Tool::Guide => None,
            }
        }
    }

    /// Whether the fill toggle is on show.
    pub fn active_fill_checkbox(&self) -> (r: bool)
        ensures
            r == self@.active_fill_checkbox(),
    {
        let s = self.survey();
        if s.any {
            s.any_fill
        } else {
            self.tool == Tool::Rect || self.tool == Tool::Ellipse
        }
    }

    /// The property control at a pixel of the top bar.
    pub fn prop_at(&self, labels: &Labels, x: usize, y: usize) -> (c: Option<PropCtrl>)
        requires
            labels.fit(),
        ensures
            c == first_at(
                prop_layout(
                    self@.active_field(),
                    self@.active_fill_checkbox(),
                    labels.color,
                    labels.beside(self@.active_field()),
                ),
                x as int,
                y as int,
                0,
            ),
    {
        let field = self.active_field();
        let fill = self.active_fill_checkbox();
        let beside = labels.field_label(field);
        assert(top_fits(0, labels.color, labels.beside(field)));
        prop_at(field, fill, labels.color, beside, x, y)
    }
}

/// The survey of one item more.
proof fn lemma_survey_next<F, S>(rest: Seq<Item<F, S>>, a: Item<F, S>)
    ensures
        surveyed(rest.push(a)).any,
        surveyed(rest.push(a)).all_sized == (surveyed(rest).all_sized && size_of(a) is Some),
        surveyed(rest.push(a)).all_mosaic == (surveyed(rest).all_mosaic && block_of(a) is Some),
        surveyed(rest.push(a)).any_line == (surveyed(rest).any_line || thick_of(a) is Some),
        surveyed(rest.push(a)).any_fill == (surveyed(rest).any_fill || filled_of(a) is Some),
{
    let all = rest.push(a);
    assert(all[rest.len() as int] == a);
    assert(forall|i: int| 0 <= i < rest.len() ==> #[trigger] rest[i] == all[i]);
    if surveyed(all).all_sized {
        assert forall|i: int| 0 <= i < rest.len() implies size_of(#[trigger] rest[i]) is Some by {
            assert(size_of(all[i]) is Some);
        }
    }
    if surveyed(all).all_mosaic {
        assert forall|i: int| 0 <= i < rest.len() implies block_of(#[trigger] rest[i]) is Some by {
            assert(block_of(all[i]) is Some);
        }
    }
    if surveyed(rest).any_line {
        let i = choose|i: int| 0 <= i < rest.len() && thick_of(#[trigger] rest[i]) is Some;
        assert(thick_of(all[i]) is Some);
    }
    if surveyed(rest).any_fill {
        let i = choose|i: int| 0 <= i < rest.len() && filled_of(#[trigger] rest[i]) is Some;
        assert(filled_of(all[i]) is Some);
    }
    if surveyed(all).any_line && thick_of(a) is None {
        let i = choose|i: int| 0 <= i < all.len() && thick_of(#[trigger] all[i]) is Some;
        assert(thick_of(rest[i]) is Some);
    }
    if surveyed(all).any_fill && filled_of(a) is None {
        let i = choose|i: int| 0 <= i < all.len() && filled_of(#[trigger] all[i]) is Some;
        assert(filled_of(rest[i]) is Some);
    }
}

// ---- Buttons ----

impl<F, S> Model<F, S> {
    /// Forgets the background kept for a freehand stroke.
    pub open spec fn drop_cache(self) -> Model<F, S> {
        Model { todo: Todo { drop_cache: true, ..self.todo }, ..self }
    }

    /// Merges the strokes that wait for it into one item on top, if there are
    /// two or more.
    pub open spec fn finalize_freehand_batch<M>(self, merge: M) -> Model<F, S> where
        M: Fn(Vec<Annotation<F, S>>) -> Annotation<F, S>,
     {
        let places = members(self.freehand_batch, self.items.len() as int);
        let m = Model { freehand_batch: Seq::empty(), ..self };
        if places.len() < 2 {
            m
        } else {
            Model {
                items: without(self.items, places, self.items.len() as int).push(
                    merged_item(merge, named(self.items, places)),
                ),
                ..m.snapshot()
            }
        }
    }

    /// Takes up a tool: pending text and strokes are committed, and whatever
    /// was selected or being drawn is let go.
    pub open spec fn use_tool<M>(self, t: Tool, merge: M) -> Model<F, S> where
        M: Fn(Vec<Annotation<F, S>>) -> Annotation<F, S>,
     {
        let m = self.commit_text().finalize_freehand_batch(merge);
        Model {
            tool: t,
            edit: Drag::Idle,
            polyline_pts: Seq::empty(),
            freehand_pts: Seq::empty(),
            ..m
        }.deselect().drop_cache().redraw()
    }

    /// What a button does, and what it asks for. There is one guide at most,
    /// so a guide is not copied; without anything else selected, the whole
    /// picture is.
    pub open spec fn activate<M>(self, btn: EditorBtn, merge: M) -> (Model<F, S>, Task) where
        M: Fn(Vec<Annotation<F, S>>) -> Annotation<F, S>,
     {
        match btn {
            EditorBtn::Tool(t) => (self.use_tool(t, merge), Task::Nothing),
            EditorBtn::Pin => (
                Model {
                    pinned: !self.pinned,
                    todo: Todo { level: true, ..self.todo },
                    ..self
                }.redraw(),
                Task::Nothing,
            ),
            EditorBtn::Save => (self.commit_text(), Task::Save),
            EditorBtn::Copy => {
                let m = self.commit_text();
                if sans_guides(m.picked()).len() == 0 {
                    (m, Task::CopyImage)
                } else {
                    (Model { clipboard: sans_guides(m.picked()), ..m }, Task::Nothing)
                }
            },
        }
    }

    /// The copied items that a paste adds. A guide is not one of them: there is
    /// one at most.
    pub open spec fn pasteable(self) -> Seq<Item<F, S>> {
        sans_guides(self.clipboard)
    }

    /// Whether every copied item fits where a paste puts it.
    pub open spec fn paste_fits(self) -> bool {
        forall|i: int|
            0 <= i < self.pasteable().len() ==> item_movable(
                #[trigger] self.pasteable()[i],
                PASTE_OFFSET as int,
                PASTE_OFFSET as int,
            )
    }

    /// Pastes the copied items a little off, and selects what is new.
    pub open spec fn paste_items<P: Fn(F, i64) -> F>(self, shift: P) -> Model<F, S> {
        let start = self.items.len() as int;
        let m = Model {
            items: self.items + self.pasteable().map_values(
                |a: Item<F, S>| moved(shift, a, PASTE_OFFSET, PASTE_OFFSET),
            ),
            ..self.snapshot()
        }.commit_text();
        Model {
            tool: Tool::Select,
            selected: range_of(start, m.items.len() as int),
            edit: Drag::Idle,
            ..m
        }.reframe().redraw()
    }

    /// What a bound key does, and what it asks for.
    pub open spec fn act<M, P>(self, action: EditorAction, merge: M, shift: P) -> (
        Model<F, S>,
        Task,
    ) where M: Fn(Vec<Annotation<F, S>>) -> Annotation<F, S>, P: Fn(F, i64) -> F {
        match action {
            EditorAction::Redo => (self.redo(), Task::Nothing),
            EditorAction::Undo => (self.undo(), Task::Nothing),
            EditorAction::Paste => if self.pasteable().len() == 0 {
                (self, Task::PasteImage)
            } else {
                (self.paste_items(shift), Task::Nothing)
            },
            EditorAction::Save => self.activate(EditorBtn::Save, merge),
            EditorAction::Copy => self.activate(EditorBtn::Copy, merge),
            EditorAction::ResetZoom => (
                Model { todo: Todo { cursor: true, ..self.todo }, ..self }.redraw(),
                Task::ResetZoom,
            ),
            EditorAction::ToolSelect => self.activate(EditorBtn::Tool(Tool::Select), merge),
            EditorAction::ToolArrow => self.activate(EditorBtn::Tool(Tool::Arrow), merge),
            EditorAction::ToolPolyline => self.activate(EditorBtn::Tool(Tool::Polyline), merge),
            EditorAction::ToolDraw => self.activate(EditorBtn::Tool(Tool::Draw), merge),
            EditorAction::ToolRect => self.activate(EditorBtn::Tool(Tool::Rect), merge),
            EditorAction::ToolEllipse => self.activate(EditorBtn::Tool(Tool::Ellipse), merge),
            EditorAction::ToolText => self.activate(EditorBtn::Tool(Tool::Text), merge),
            EditorAction::ToolNumberMarker => self.activate(
                EditorBtn::Tool(Tool::NumberMarker),
                merge,
            ),
        }
    }
}

/// The numbers from `start` to below `end`.
pub open spec fn range_of(start: int, end: int) -> Seq<usize> {
    Seq::new((end - start) as nat, |i: int| (start + i) as usize)
}

/// The numbers from `start` to below `end`.
pub fn range_list(start: usize, end: usize) -> (out: Vec<usize>)
    requires
        start <= end,
    ensures
        out@ == range_of(start as int, end as int),
        ascending(out@),
{
    let mut out: Vec<usize> = Vec::new();
    let mut i: usize = start;
    while i < end
        invariant
            start <= i <= end,
            out@ =~= range_of(start as int, i as int),
        decreases end - i,
    {
        out.push(i);
        i += 1;
    }
    out
}

impl<F: Copy, S: Copy> Editor<F, S> {
    /// Merges the strokes that wait for it into one item on top, if there are
    /// two or more. The result is not selected.
    pub fn finalize_freehand_batch<M>(&mut self, merge: &M) where
        M: Fn(Vec<Annotation<F, S>>) -> Annotation<F, S>,

        requires
            merges_lists(*merge),
        ensures
            final(self)@ == old(self)@.finalize_freehand_batch(*merge),
    {
        let places = members_below(self.freehand_batch.as_slice(), self.annotations.len());
        self.freehand_batch = Vec::new();
        if places.len() < 2 {
            return;
        }
        let items = pick_items(&self.annotations, places.as_slice());
        let merged = merge_list(merge, items);
        self.push_undo();
        proof {
            lemma_without_items(
                self.annotations@,
                places@,
                self.annotations@.len() as int,
            );
        }
        remove_chosen(&mut self.annotations, places.as_slice());
        self.add_item(merged);
    }

    /// Takes up a tool.
    fn use_tool<M>(&mut self, t: Tool, merge: &M) where
        M: Fn(Vec<Annotation<F, S>>) -> Annotation<F, S>,

        requires
            old(self)@.wf(),
            merges_lists(*merge),
        ensures
            final(self)@ == old(self)@.use_tool(t, *merge),
            final(self)@.wf(),
    {
        self.commit_text();
        self.finalize_freehand_batch(merge);
        self.tool = t;
        self.edit = EditDrag::Idle;
        self.polyline_pts = Vec::new();
        self.freehand_pts = Vec::new();
        self.deselect();
        self.todo.drop_cache = true;
        self.request_redraw();
    }

    /// What a button does. Saving and copying as an image are left to the
    /// caller; the editor stays open.
    pub fn activate<M>(&mut self, btn: EditorBtn, merge: &M) -> (task: Task) where
        M: Fn(Vec<Annotation<F, S>>) -> Annotation<F, S>,

        requires
            old(self)@.wf(),
            merges_lists(*merge),
        ensures
            (final(self)@, task) == old(self)@.activate(btn, *merge),
            final(self)@.wf(),
    {
        match btn {
            EditorBtn::Tool(t) => {
                self.use_tool(t, merge);
                Task::Nothing
            },
            EditorBtn::Pin => {
                self.pinned = !self.pinned;
                self.todo.level = true;
                self.request_redraw();
                Task::Nothing
            },
            EditorBtn::Save => {
                self.commit_text();
                Task::Save
            },
            EditorBtn::Copy => {
                self.commit_text();
                let mut picked = pick_items(&self.annotations, self.selected.as_slice());
                remove_guides(&mut picked);
                assert(items_of(picked@).len() == picked@.len());
                if picked.is_empty() {
                    Task::CopyImage
                } else {
                    self.item_clipboard = picked;
                    Task::Nothing
                }
            },
        }
    }

    /// The copied items that a paste adds.
    fn pasteables(&self) -> (clip: Vec<Annotation<F, S>>)
        ensures
            items_of(clip@) == self@.pasteable(),
            clip@.len() == self@.pasteable().len(),
    {
        let mut clip = copy_items(&self.item_clipboard);
        remove_guides(&mut clip);
        assert(items_of(clip@).len() == clip@.len());
        clip
    }

    /// Whether every copied item fits where a paste puts it.
    pub fn can_paste(&self) -> (r: bool)
        ensures
            r == self@.paste_fits(),
    {
        let clip = self.pasteables();
        let mut i: usize = 0;
        while i < clip.len()
            invariant
                i <= clip@.len() == self@.pasteable().len(),
                items_of(clip@) == self@.pasteable(),
                forall|k: int|
                    0 <= k < i ==> item_movable(
                        #[trigger] self@.pasteable()[k],
                        PASTE_OFFSET as int,
                        PASTE_OFFSET as int,
                    ),
            decreases clip.len() - i,
        {
            assert(self@.pasteable()[i as int] == clip@[i as int]@);
            if !can_translate(&clip[i], PASTE_OFFSET, PASTE_OFFSET) {
                assert(!item_movable(
                    self@.pasteable()[i as int],
                    PASTE_OFFSET as int,
                    PASTE_OFFSET as int,
                ));
                return false;
            }
            i += 1;
        }
        true
    }

    /// Pastes the copied items a little off, and selects what is new.
    fn paste_items<P: Fn(F, i64) -> F>(&mut self, clip: &Vec<Annotation<F, S>>, shift: &P)
        requires
            old(self)@.wf(),
            items_of(clip@) == old(self)@.pasteable(),
            old(self)@.paste_fits(),
            pure2(*shift),
        ensures
            final(self)@ == old(self)@.paste_items(*shift),
            final(self)@.wf(),
    {
        let ghost before = self@;
        self.push_undo();
        let start: usize = self.annotations.len();
        let ghost pasted = before.pasteable().map_values(
            |a: Item<F, S>| moved(*shift, a, PASTE_OFFSET, PASTE_OFFSET),
        );
        assert(items_of(clip@).len() == clip@.len());
        let mut i: usize = 0;
        while i < clip.len()
            invariant
                before.paste_fits(),
                pure2(*shift),
                before.pasteable() == items_of(clip@),
                i <= clip@.len() == before.pasteable().len(),
                pasted == before.pasteable().map_values(
                    |a: Item<F, S>| moved(*shift, a, PASTE_OFFSET, PASTE_OFFSET),
                ),
                self@ == (Model {
                    items: before.items + pasted.take(i as int),
                    ..before.snapshot()
                }),
            decreases clip.len() - i,
        {
            assert(before.pasteable()[i as int] == clip@[i as int]@);
            let a = move_item(&clip[i], PASTE_OFFSET, PASTE_OFFSET, shift);
            self.add_item(a);
            assert(before.items + pasted.take(i + 1) =~= (before.items + pasted.take(
                i as int,
            )).push(a@));
            i += 1;
        }
        assert(pasted.take(pasted.len() as int) =~= pasted);
        assert(before.snapshot().wf());
        self.commit_text();
        self.tool = Tool::Select;
        self.selected = range_list(start, self.annotations.len());
        self.edit = EditDrag::Idle;
        self.request_reframe();
        self.request_redraw();
    }

    /// Pastes the copied items, or asks for an image from the clipboard if
    /// there are none.
    pub fn paste_items_or_clipboard_image<P: Fn(F, i64) -> F>(&mut self, shift: &P) -> (task: Task)
        requires
            old(self)@.wf(),
            old(self)@.paste_fits(),
            pure2(*shift),
        ensures
            final(self)@ == (if old(self)@.pasteable().len() == 0 {
                old(self)@
            } else {
                old(self)@.paste_items(*shift)
            }),
            task == (if old(self)@.pasteable().len() == 0 {
                Task::PasteImage
            } else {
                Task::Nothing
            }),
            final(self)@.wf(),
    {
        let clip = self.pasteables();
        if clip.is_empty() {
            Task::PasteImage
        } else {
            self.paste_items(&clip, shift);
            Task::Nothing
        }
    }

    /// What a bound key does.
    fn act<M, P>(&mut self, action: EditorAction, merge: &M, shift: &P) -> (task: Task) where
        M: Fn(Vec<Annotation<F, S>>) -> Annotation<F, S>,
        P: Fn(F, i64) -> F,

        requires
            old(self)@.wf(),
            action is Paste ==> old(self)@.paste_fits(),
            merges_lists(*merge),
            pure2(*shift),
        ensures
            (final(self)@, task) == old(self)@.act(action, *merge, *shift),
            final(self)@.wf(),
    {
        match action {
            EditorAction::Redo => {
                self.redo();
                Task::Nothing
            },
            EditorAction::Undo => {
                self.undo();
                Task::Nothing
            },
            EditorAction::Paste => self.paste_items_or_clipboard_image(shift),
            EditorAction::Save => self.activate(EditorBtn::Save, merge),
            EditorAction::Copy => self.activate(EditorBtn::Copy, merge),
            EditorAction::ResetZoom => {
                self.todo.cursor = true;
                self.request_redraw();
                Task::ResetZoom
            },
            EditorAction::ToolSelect => self.activate(EditorBtn::Tool(Tool::Select), merge),
            EditorAction::ToolArrow => self.activate(EditorBtn::Tool(Tool::Arrow), merge),
            EditorAction::ToolPolyline => self.activate(EditorBtn::Tool(Tool::Polyline), merge),
            EditorAction::ToolDraw => self.activate(EditorBtn::Tool(Tool::Draw), merge),
            EditorAction::ToolRect => self.activate(EditorBtn::Tool(Tool::Rect), merge),
            EditorAction::ToolEllipse => self.activate(EditorBtn::Tool(Tool::Ellipse), merge),
            EditorAction::ToolText => self.activate(EditorBtn::Tool(Tool::Text), merge),
            EditorAction::ToolNumberMarker => self.activate(
                EditorBtn::Tool(Tool::NumberMarker),
                merge,
            ),
        }
    }
}

// ---- Keys ----

/// A pressed key.
#[derive(Debug)]
pub enum KeyPress {
    Enter,
    Escape,
    Backspace,
    Delete,
    Space,
    PageUp,
    PageDown,
    /// The characters a key stands for.
    Text(String),
    Other,
}

/// The text after a key was typed: characters and spaces are added, Backspace
/// takes the last one off.
pub open spec fn typed(text: Seq<char>, key: KeyPress) -> Seq<char> {
    match key {
        KeyPress::Backspace => if text.len() == 0 {
            text
        } else {
            text.drop_last()
        },
        KeyPress::Space => text.push(' '),
        KeyPress::Text(s) => text + s@,
        _ => text,
    }
}

/// Types a key into a text.
fn type_key(text: &mut String, key: &KeyPress)
    ensures
        final(text)@ == typed(old(text)@, *key),
{
    match key {
        KeyPress::Backspace => {
            let _ = text.pop();
        },
        KeyPress::Space => text.push(' '),
        KeyPress::Text(s) => text.append(s.as_str()),
        _ => {},
    }
}

impl<F, S> Model<F, S> {
    /// A key while a polyline is being drawn, if it has a meaning there: Enter
    /// commits it from two vertices on, Escape discards it.
    pub open spec fn polyline_key(self, key: KeyPress) -> Option<Model<F, S>> {
        let cleared = Model { polyline_pts: Seq::empty(), ..self };
        if self.polyline_pts.len() == 0 {
            None
        } else {
            match key {
                KeyPress::Enter => Some(
                    if self.polyline_pts.len() >= 2 {
                        cleared.snapshot().with_item(
                            Item::Polyline {
                                points: self.polyline_pts,
                                color: self.style.color,
                                thick: self.style.thick,
                            },
                        ).select_last().redraw()
                    } else {
                        cleared.redraw()
                    },
                ),
                KeyPress::Escape => Some(cleared.redraw()),
                _ => None,
            }
        }
    }

    /// Escape while a freehand stroke is being drawn discards it.
    pub open spec fn stroke_key(self, key: KeyPress) -> Option<Model<F, S>> {
        if self.dragging && self.tool == Tool::Draw && key is Escape {
            Some(
                Model {
                    dragging: false,
                    drag_start: None,
                    freehand_pts: Seq::empty(),
                    ..self
                }.drop_cache().redraw(),
            )
        } else {
            None
        }
    }

    /// A key while a text is being typed.
    pub open spec fn text_key(self, key: KeyPress) -> Option<Model<F, S>> {
        match self.editing {
            None => None,
            Some((pos, text)) => Some(
                (match key {
                    KeyPress::Escape => Model { editing: None, ..self }.ime_off(),
                    KeyPress::Enter => self.commit_text(),
                    _ => Model { editing: Some((pos, typed(text, key))), ..self },
                }).redraw(),
            ),
        }
    }

    /// A key while a number is being typed: only digits are taken.
    pub open spec fn field_key<Z, O>(self, key: KeyPress, typing: Typing<Z, O>) -> Option<
        Model<F, S>,
    > where Z: Fn(i64) -> S, O: Fn(&str, (i64, i64)) -> Option<(i64, S)> {
        if self.focus is None {
            None
        } else {
            Some(
                (match key {
                    KeyPress::Escape => Model { focus: None, buf: Seq::empty(), ..self },
                    KeyPress::Enter => self.commit_field(typing),
                    KeyPress::Backspace => Model {
                        buf: if self.buf.len() == 0 {
                            self.buf
                        } else {
                            self.buf.drop_last()
                        },
                        ..self
                    },
                    KeyPress::Text(s) => if all_digits(s@) {
                        Model { buf: self.buf + s@, ..self }
                    } else {
                        self
                    },
                    _ => self,
                }).redraw(),
            )
        }
    }

    /// Deletes every selected item.
    pub open spec fn delete_selected(self) -> Model<F, S> {
        if self.selected.len() == 0 {
            self
        } else {
            Model {
                items: without(self.items, self.selected, self.items.len() as int),
                freehand_batch: Seq::empty(),
                edit: Drag::Idle,
                ..self.snapshot()
            }.deselect().redraw()
        }
    }

    /// Whether `after` is this state with the selected items one step further
    /// to the front or the back, and the selection following them.
    pub open spec fn stepped_to(self, forward: bool, after: Model<F, S>) -> bool {
        if self.selected.len() == 0 {
            after == self
        } else {
            let len = self.items.len() as int;
            &&& after == (Model {
                items: Seq::new(
                    self.items.len(),
                    |k: int| self.items[source(self.selected, len, forward, k)],
                ),
                selected: after.selected,
                freehand_batch: Seq::empty(),
                ..self.snapshot()
            }.redraw())
            &&& ascending(after.selected)
            &&& forall|k: int| #[trigger]
                chosen(after.selected, k) == crate::order::chosen_after(
                    self.selected,
                    len,
                    forward,
                    k,
                )
        }
    }

    /// Whether a key is bound to pasting.
    pub open spec fn is_paste_key(self, key: KeyPress) -> bool {
        key matches KeyPress::Text(s) && s@.len() > 0 && self.keys.action_of(
            LocalKey {
                ctrl: self.ctrl,
                shift: self.shift,
                alt: self.alt,
                ch: folded_char(s@[0]),
            },
        ) == Some(EditorAction::Paste)
    }

    /// Whether a key pastes: one that is bound to it, while nothing is being
    /// typed.
    pub open spec fn pastes(self, key: KeyPress) -> bool {
        self.editing is None && self.focus is None && self.is_paste_key(key)
    }

    /// Whether a key leads to `after` and the task, when nothing is being
    /// typed or drawn.
    pub open spec fn command_key<M, P>(
        self,
        key: KeyPress,
        merge: M,
        shift: P,
        after: Model<F, S>,
        task: Task,
    ) -> bool where M: Fn(Vec<Annotation<F, S>>) -> Annotation<F, S>, P: Fn(F, i64) -> F {
        match key {
            KeyPress::Escape => task == Task::Nothing && after == (if self.picker is Some {
                Model { picker: None, ..self }.redraw()
            } else {
                self
            }),
            KeyPress::Delete | KeyPress::Backspace => task == Task::Nothing && after
                == self.delete_selected(),
            KeyPress::PageUp => task == Task::Nothing && self.stepped_to(true, after),
            KeyPress::PageDown => task == Task::Nothing && self.stepped_to(false, after),
            KeyPress::Text(s) => if s@.len() == 0 {
                task == Task::Nothing && after == self
            } else {
                let pressed = LocalKey {
                    ctrl: self.ctrl,
                    shift: self.shift,
                    alt: self.alt,
                    ch: folded_char(s@[0]),
                };
                match self.keys.action_of(pressed) {
                    Some(a) => (after, task) == self.act(a, merge, shift),
                    None => task == Task::Nothing && after == self,
                }
            },
            _ => task == Task::Nothing && after == self,
        }
    }

    /// Whether a key leads to `after` and the task. A polyline being drawn
    /// comes first, then a freehand stroke, a text, a number field, and last
    /// the commands.
    pub open spec fn keyed<Z, O, M, P>(
        self,
        key: KeyPress,
        typing: Typing<Z, O>,
        merge: M,
        shift: P,
        after: Model<F, S>,
        task: Task,
    ) -> bool where
        Z: Fn(i64) -> S,
        O: Fn(&str, (i64, i64)) -> Option<(i64, S)>,
        M: Fn(Vec<Annotation<F, S>>) -> Annotation<F, S>,
        P: Fn(F, i64) -> F,
     {
        if let Some(m) = self.polyline_key(key) {
            after == m && task == Task::Nothing
        } else if let Some(m) = self.stroke_key(key) {
            after == m && task == Task::Nothing
        } else if let Some(m) = self.text_key(key) {
            after == m && task == Task::Nothing
        } else if let Some(m) = self.field_key(key, typing) {
            after == m && task == Task::Nothing
        } else {
            self.command_key(key, merge, shift, after, task)
        }
    }
}

impl<F: Copy, S: Copy> Editor<F, S> {
    /// A key while a polyline is being drawn. Whether it had a meaning there.
    fn polyline_key(&mut self, key: &KeyPress) -> (taken: bool)
        requires
            old(self)@.wf(),
        ensures
            match old(self)@.polyline_key(*key) {
                Some(m) => taken && final(self)@ == m,
                None => !taken && final(self)@ == old(self)@,
            },
            final(self)@.wf(),
    {
        if self.polyline_pts.is_empty() {
            return false;
        }
        match key {
            KeyPress::Enter => {
                if self.polyline_pts.len() >= 2 {
                    let points = copy_points(&self.polyline_pts);
                    self.polyline_pts = Vec::new();
                    self.push_undo();
                    let a = Annotation::Polyline {
                        points,
                        color: self.style.color,
                        thick: self.style.thick,
                    };
                    self.add_item(a);
                    self.select_last();
                } else {
                    self.polyline_pts = Vec::new();
                }
                self.request_redraw();
                true
            },
            KeyPress::Escape => {
                self.polyline_pts = Vec::new();
                self.request_redraw();
                true
            },
            _ => false,
        }
    }

    /// Escape while a freehand stroke is being drawn.
    fn stroke_key(&mut self, key: &KeyPress) -> (taken: bool)
        requires
            old(self)@.wf(),
        ensures
            match old(self)@.stroke_key(*key) {
                Some(m) => taken && final(self)@ == m,
                None => !taken && final(self)@ == old(self)@,
            },
            final(self)@.wf(),
    {
        if self.dragging && self.tool == Tool::Draw && matches!(key, KeyPress::Escape) {
            self.dragging = false;
            self.drag_start = None;
            self.freehand_pts = Vec::new();
            self.todo.drop_cache = true;
            self.request_redraw();
            true
        } else {
            false
        }
    }

    /// A key while a text is being typed.
    fn text_key(&mut self, key: &KeyPress) -> (taken: bool)
        requires
            old(self)@.wf(),
        ensures
            match old(self)@.text_key(*key) {
                Some(m) => taken && final(self)@ == m,
                None => !taken && final(self)@ == old(self)@,
            },
            final(self)@.wf(),
    {
        if self.editing.is_none() {
            return false;
        }
        match key {
            KeyPress::Escape => {
                self.editing = None;
                self.disable_ime();
            },
            KeyPress::Enter => {
                self.commit_text();
            },
            _ => {
                if let Some((pos, mut text)) = self.editing.take() {
                    type_key(&mut text, key);
                    self.editing = Some((pos, text));
                }
            },
        }
        self.request_redraw();
        true
    }

    /// A key while a number is being typed.
    fn field_key<Z, O>(&mut self, key: &KeyPress, typing: &Typing<Z, O>) -> (taken: bool) where
        Z: Fn(i64) -> S,
        O: Fn(&str, (i64, i64)) -> Option<(i64, S)>,

        requires
            old(self)@.wf(),
            computes_typing(*typing),
        ensures
            match old(self)@.field_key(*key, *typing) {
                Some(m) => taken && final(self)@ == m,
                None => !taken && final(self)@ == old(self)@,
            },
            final(self)@.wf(),
    {
        if self.focus.is_none() {
            return false;
        }
        match key {
            KeyPress::Escape => {
                self.focus = None;
                self.buf = String::new();
            },
            KeyPress::Enter => {
                self.commit_field(typing);
            },
            KeyPress::Backspace => {
                let _ = self.buf.pop();
            },
            KeyPress::Text(s) => {
                if only_digits(s.as_str()) {
                    self.buf.append(s.as_str());
                }
            },
            _ => {},
        }
        self.request_redraw();
        true
    }

    /// Deletes every selected item.
    fn delete_selected(&mut self)
        requires
            old(self)@.wf(),
        ensures
            final(self)@ == old(self)@.delete_selected(),
            final(self)@.wf(),
    {
        if self.selected.is_empty() {
            return;
        }
        self.push_undo();
        proof {
            lemma_without_items(
                self.annotations@,
                self.selected@,
                self.annotations@.len() as int,
            );
        }
        remove_chosen(&mut self.annotations, self.selected.as_slice());
        self.freehand_batch = Vec::new();
        self.edit = EditDrag::Idle;
        self.deselect();
        self.request_redraw();
    }

    /// Moves every selected item one step to the front or the back.
    fn step_selected(&mut self, forward: bool)
        requires
            old(self)@.wf(),
        ensures
            old(self)@.stepped_to(forward, final(self)@),
            final(self)@.wf(),
    {
        if self.selected.is_empty() {
            return;
        }
        self.push_undo();
        let ghost before = self.annotations@;
        let ghost sel = self.selected@;
        let selected = reorder_selection(
            &mut self.annotations,
            self.selected.as_slice(),
            forward,
        );
        proof {
            let len = before.len() as int;
            let want = Seq::new(
                before.len(),
                |k: int| items_of(before)[source(sel, len, forward, k)],
            );
            assert forall|k: int| 0 <= k < len implies 0 <= #[trigger] source(
                sel,
                len,
                forward,
                k,
            ) < len by {
                crate::order::lemma_source_range(sel, len, forward, k);
            }
            assert(items_of(self.annotations@) =~= want);
        }
        self.selected = selected;
        self.freehand_batch = Vec::new();
        self.request_redraw();
    }

    /// A key when nothing is being typed or drawn.
    fn command_key<M, P>(&mut self, key: &KeyPress, merge: &M, shift: &P) -> (task: Task) where
        M: Fn(Vec<Annotation<F, S>>) -> Annotation<F, S>,
        P: Fn(F, i64) -> F,

        requires
            old(self)@.wf(),
            old(self)@.is_paste_key(*key) ==> old(self)@.paste_fits(),
            merges_lists(*merge),
            pure2(*shift),
        ensures
            old(self)@.command_key(*key, *merge, *shift, final(self)@, task),
            final(self)@.wf(),
    {
        match key {
            KeyPress::Escape => {
                if self.picker.is_some() {
                    self.picker = None;
                    self.request_redraw();
                }
                Task::Nothing
            },
            KeyPress::Delete | KeyPress::Backspace => {
                self.delete_selected();
                Task::Nothing
            },
            KeyPress::PageUp => {
                self.step_selected(true);
                Task::Nothing
            },
            KeyPress::PageDown => {
                self.step_selected(false);
                Task::Nothing
            },
            KeyPress::Text(s) => {
                if s.as_str().unicode_len() == 0 {
                    return Task::Nothing;
                }
                let ch = s.as_str().get_char(0);
                let pressed = LocalKey::new(self.ctrl, self.shift, self.alt, ch);
                match self.keys.lookup(pressed) {
                    Some(a) => self.act(a, merge, shift),
                    None => Task::Nothing,
                }
            },
            _ => Task::Nothing,
        }
    }

    /// A pressed key. A polyline being drawn comes first, then a freehand
    /// stroke, a text, a number field, and last the commands.
    pub fn on_key<Z, O, M, P>(
        &mut self,
        key: &KeyPress,
        typing: &Typing<Z, O>,
        merge: &M,
        shift: &P,
    ) -> (task: Task) where
        Z: Fn(i64) -> S,
        O: Fn(&str, (i64, i64)) -> Option<(i64, S)>,
        M: Fn(Vec<Annotation<F, S>>) -> Annotation<F, S>,
        P: Fn(F, i64) -> F,

        requires
            old(self)@.wf(),
            old(self)@.pastes(*key) ==> old(self)@.paste_fits(),
            computes_typing(*typing),
            merges_lists(*merge),
            pure2(*shift),
        ensures
            old(self)@.keyed(*key, *typing, *merge, *shift, final(self)@, task),
            final(self)@.wf(),
    {
        if self.polyline_key(key) {
            return Task::Nothing;
        }
        if self.stroke_key(key) {
            return Task::Nothing;
        }
        if self.text_key(key) {
            return Task::Nothing;
        }
        if self.field_key(key, typing) {
            return Task::Nothing;
        }
        self.command_key(key, merge, shift)
    }
}

} // verus!

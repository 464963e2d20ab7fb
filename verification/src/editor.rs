//! The annotation editor's state, and what each command does to it.
//!
//! The editor holds everything but the window. Where an operation needs the
//! window (a redraw, the input method, the clipboard, a file), it leaves a
//! wish in [`Todo`] or returns a [`Task`].

use vstd::prelude::*;

use crate::annotation::{items_of, Annotation, Handle, Item};
use crate::fields::{
    computes_typing, decimal, decimal_text, kept_within, number_of, typed_size, Typing,
    BLOCK_RANGE, NUMBER_RANGE, SIZE_RANGE, THICK_RANGE,
};
use crate::history::{History, UndoStack};
use crate::keys::EditorKeys;
use crate::measure::{marker_number, next_marker_number};
use crate::order::ascending;
use crate::pure::{apply, apply2, pure, pure2, result, result2};
use crate::style::{
    blocks, blurs, colors, common_style, fills, named, present, restyle_selected, restyled, sizes,
    thicks, Restyle, Style, StyleVals,
};
use crate::toolbar::{EditorBtn, Field, Tool};

verus! {

/// The offset of pasted items from the copied ones, in world px.
pub const PASTE_OFFSET: i64 = 16;

/// An edit drag in progress. Coordinates are world coordinates.
#[derive(Debug)]
#[allow(inconsistent_fields)]
pub enum EditDrag<F, S> {
    Idle,
    /// Moves one item: where it was grabbed, and the item as it was.
    Move { grab: (i64, i64), orig: Annotation<F, S> },
    /// Resizes the guide by a handle.
    RectHandle { h: Handle, orig: (i64, i64, i64, i64) },
    /// Resizes a rotatable shape by a handle.
    RotatedHandle { h: Handle, orig: (F, F, F, F) },
    /// Drags an arrow's end.
    ArrowEnd { end_b: bool },
    /// Drags a polyline's vertex.
    PolylinePoint { index: usize },
    /// Turns one item about a fixed center.
    Rotate { center: (F, F) },
    /// Moves the selection, each item as it was when grabbed.
    GroupMove { grab: (i64, i64), origs: Vec<(usize, Annotation<F, S>)> },
    /// Resizes the selection's frame by a handle.
    GroupHandle {
        h: Handle,
        orig_rect: (F, F, F, F),
        rot: F,
        origs: Vec<(usize, Annotation<F, S>)>,
    },
    /// Turns the selection about its frame's center.
    GroupRotate {
        center: (F, F),
        start_angle: F,
        orig_rect: (F, F, F, F),
        orig_rot: F,
        origs: Vec<(usize, Annotation<F, S>)>,
    },
}

/// What an [`EditDrag`] stands for.
#[verifier::ext_equal]
#[allow(inconsistent_fields)]
pub enum Drag<F, S> {
    Idle,
    Move { grab: (i64, i64), orig: Item<F, S> },
    RectHandle { h: Handle, orig: (i64, i64, i64, i64) },
    RotatedHandle { h: Handle, orig: (F, F, F, F) },
    ArrowEnd { end_b: bool },
    PolylinePoint { index: usize },
    Rotate { center: (F, F) },
    GroupMove { grab: (i64, i64), origs: Seq<(usize, Item<F, S>)> },
    GroupHandle { h: Handle, orig_rect: (F, F, F, F), rot: F, origs: Seq<(usize, Item<F, S>)> },
    GroupRotate {
        center: (F, F),
        start_angle: F,
        orig_rect: (F, F, F, F),
        orig_rot: F,
        origs: Seq<(usize, Item<F, S>)>,
    },
}

/// What a list of grabbed items stands for.
pub open spec fn origs_of<F, S>(origs: Seq<(usize, Annotation<F, S>)>) -> Seq<
    (usize, Item<F, S>),
> {
    origs.map_values(|e: (usize, Annotation<F, S>)| (e.0, e.1@))
}

impl<F, S> View for EditDrag<F, S> {
    type V = Drag<F, S>;

    open spec fn view(&self) -> Drag<F, S> {
        match *self {
            EditDrag::Idle => Drag::Idle,
            EditDrag::Move { grab, orig } => Drag::Move { grab, orig: orig@ },
            EditDrag::RectHandle { h, orig } => Drag::RectHandle { h, orig },
            EditDrag::RotatedHandle { h, orig } => Drag::RotatedHandle { h, orig },
            EditDrag::ArrowEnd { end_b } => Drag::ArrowEnd { end_b },
            EditDrag::PolylinePoint { index } => Drag::PolylinePoint { index },
            EditDrag::Rotate { center } => Drag::Rotate { center },
            EditDrag::GroupMove { grab, origs } => Drag::GroupMove { grab, origs: origs_of(origs@) },
            EditDrag::GroupHandle { h, orig_rect, rot, origs } => Drag::GroupHandle {
                h,
                orig_rect,
                rot,
                origs: origs_of(origs@),
            },
            EditDrag::GroupRotate { center, start_angle, orig_rect, orig_rot, origs } => {
                Drag::GroupRotate {
                    center,
                    start_angle,
                    orig_rect,
                    orig_rot,
                    origs: origs_of(origs@),
                }
            },
        }
    }
}

/// The part of the color picker being dragged.
#[derive(Clone, Copy, Debug, PartialEq, Eq, Structural)]
pub enum PickerPart {
    Sv,
    Hue,
}

/// What the input method should do.
#[derive(Clone, Copy, Debug, PartialEq, Eq)]
pub enum ImeWish {
    Keep,
    Off,
    /// On, with its window near a world position.
    At((i64, i64)),
}

/// What the window still has to do.
#[derive(Clone, Copy, Debug, PartialEq, Eq)]
pub struct Todo {
    /// Draw a new frame.
    pub redraw: bool,
    /// Measure the selection's frame anew.
    pub reframe: bool,
    /// Find the pointer's shape anew.
    pub cursor: bool,
    /// Put the window on its level anew.
    pub level: bool,
    /// Forget the background kept for a freehand stroke.
    pub drop_cache: bool,
    pub ime: ImeWish,
}

impl Todo {
    /// Nothing to do.
    pub open spec fn nothing() -> Todo {
        Todo {
            redraw: false,
            reframe: false,
            cursor: false,
            level: false,
            drop_cache: false,
            ime: ImeWish::Keep,
        }
    }
}

/// Work that a command hands to the program around the editor.
#[derive(Clone, Copy, Debug, PartialEq, Eq, Structural)]
pub enum Task {
    Nothing,
    /// Render the export and save it.
    Save,
    /// Render the export and put it on the clipboard.
    CopyImage,
    /// Paste an image from the clipboard.
    PasteImage,
    /// Go back to the first zoom and offset.
    ResetZoom,
}

/// The editor.
#[derive(Debug)]
pub struct Editor<F, S> {
    pub tool: Tool,
    pub drag_start: Option<(i64, i64)>,
    pub dragging: bool,
    /// The vertices of a polyline not yet committed.
    pub polyline_pts: Vec<(i64, i64)>,
    /// The points of a freehand stroke being drawn.
    pub freehand_pts: Vec<(i64, i64)>,
    /// The places of committed strokes that wait to be merged.
    pub freehand_batch: Vec<usize>,
    pub annotations: Vec<Annotation<F, S>>,
    /// The items last copied as items.
    pub item_clipboard: Vec<Annotation<F, S>>,
    /// The places of the selected items, ascending without duplicates.
    pub selected: Vec<usize>,
    /// The selection's frame, in its own coordinates, and its angle.
    pub group_rect: (F, F, F, F),
    pub group_rot: F,
    pub edit: EditDrag<F, S>,
    pub history: UndoStack<Vec<Annotation<F, S>>>,
    /// The style of new items.
    pub style: Style<S>,
    /// The number of the next marker. A setting of the tool, so undo leaves
    /// it alone.
    pub next_marker_num: u32,
    /// The seed of the mosaic being drawn.
    pub new_item_seed: u32,
    /// The number field being typed in, and its text.
    pub focus: Option<Field>,
    pub buf: String,
    /// The open color picker's hue, saturation and value.
    pub picker: Option<(S, S, S)>,
    pub picker_drag: Option<PickerPart>,
    /// The text being typed, and where it goes.
    pub editing: Option<((i64, i64), String)>,
    /// What the input method has not committed yet.
    pub ime_preedit: String,
    pub hover: Option<EditorBtn>,
    pub pressed: Option<EditorBtn>,
    /// Always on top.
    pub pinned: bool,
    pub ctrl: bool,
    pub shift: bool,
    pub alt: bool,
    pub keys: EditorKeys,
    /// The angle of an upright item.
    pub zero: F,
    pub todo: Todo,
}

/// What an [`Editor`] stands for.
#[verifier::ext_equal]
pub struct Model<F, S> {
    pub tool: Tool,
    pub drag_start: Option<(i64, i64)>,
    pub dragging: bool,
    pub polyline_pts: Seq<(i64, i64)>,
    pub freehand_pts: Seq<(i64, i64)>,
    pub freehand_batch: Seq<usize>,
    pub items: Seq<Item<F, S>>,
    pub clipboard: Seq<Item<F, S>>,
    pub selected: Seq<usize>,
    pub group_rect: (F, F, F, F),
    pub group_rot: F,
    pub edit: Drag<F, S>,
    pub history: History<Seq<Item<F, S>>>,
    pub style: Style<S>,
    pub next_marker_num: u32,
    pub new_item_seed: u32,
    pub focus: Option<Field>,
    pub buf: Seq<char>,
    pub picker: Option<(S, S, S)>,
    pub picker_drag: Option<PickerPart>,
    pub editing: Option<((i64, i64), Seq<char>)>,
    pub ime_preedit: Seq<char>,
    pub hover: Option<EditorBtn>,
    pub pressed: Option<EditorBtn>,
    pub pinned: bool,
    pub ctrl: bool,
    pub shift: bool,
    pub alt: bool,
    pub keys: EditorKeys,
    pub zero: F,
    pub todo: Todo,
}

/// The snapshots of a history, each as the items it stands for.
pub open spec fn snapshots<F, S>(h: History<Vec<Annotation<F, S>>>) -> History<Seq<Item<F, S>>> {
    History {
        past: h.past.map_values(|v: Vec<Annotation<F, S>>| items_of(v@)),
        future: h.future.map_values(|v: Vec<Annotation<F, S>>| items_of(v@)),
    }
}

/// The text being typed, as characters.
pub open spec fn typed_text(editing: Option<((i64, i64), String)>) -> Option<
    ((i64, i64), Seq<char>),
> {
    match editing {
        Some((pos, buf)) => Some((pos, buf@)),
        None => None,
    }
}

impl<F, S> View for Editor<F, S> {
    type V = Model<F, S>;

    open spec fn view(&self) -> Model<F, S> {
        Model {
            tool: self.tool,
            drag_start: self.drag_start,
            dragging: self.dragging,
            polyline_pts: self.polyline_pts@,
            freehand_pts: self.freehand_pts@,
            freehand_batch: self.freehand_batch@,
            items: items_of(self.annotations@),
            clipboard: items_of(self.item_clipboard@),
            selected: self.selected@,
            group_rect: self.group_rect,
            group_rot: self.group_rot,
            edit: self.edit@,
            history: snapshots(self.history@),
            style: self.style,
            next_marker_num: self.next_marker_num,
            new_item_seed: self.new_item_seed,
            focus: self.focus,
            buf: self.buf@,
            picker: self.picker,
            picker_drag: self.picker_drag,
            editing: typed_text(self.editing),
            ime_preedit: self.ime_preedit@,
            hover: self.hover,
            pressed: self.pressed,
            pinned: self.pinned,
            ctrl: self.ctrl,
            shift: self.shift,
            alt: self.alt,
            keys: self.keys,
            zero: self.zero,
            todo: self.todo,
        }
    }
}

/// The style that an edit of the items starts from: of each property, the
/// first one found, else the default.
pub open spec fn shown_style<F, S>(items: Seq<Item<F, S>>, d: Style<S>) -> Style<S> {
    Style {
        color: first_present(colors(items), d.color),
        thick: first_present(thicks(items), d.thick),
        size: first_present(sizes(items), d.size),
        filled: first_present(fills(items), d.filled),
        block: first_present(blocks(items), d.block),
        blur: first_present(blurs(items), d.blur),
    }
}

/// The first value that is there, else the default.
pub open spec fn first_present<T>(vals: Seq<Option<T>>, default: T) -> T {
    if present(vals).len() == 0 {
        default
    } else {
        present(vals)[0]
    }
}

impl<F, S> Model<F, S> {
    /// The selection is ascending without duplicates.
    pub open spec fn wf(self) -> bool {
        ascending(self.selected)
    }

    /// Asks for a redraw.
    pub open spec fn redraw(self) -> Model<F, S> {
        Model { todo: Todo { redraw: true, ..self.todo }, ..self }
    }

    /// Asks for the selection's frame to be measured.
    pub open spec fn reframe(self) -> Model<F, S> {
        Model { todo: Todo { reframe: true, ..self.todo }, ..self }
    }

    /// Records the items for an undo.
    pub open spec fn snapshot(self) -> Model<F, S> {
        Model { history: self.history.after_push(self.items), ..self }
    }

    /// Records the items for an undo if something is selected.
    pub open spec fn snapshot_if_selected(self) -> Model<F, S> {
        if self.selected.len() > 0 {
            self.snapshot()
        } else {
            self
        }
    }

    /// Switches the input method off and drops what it had not committed.
    pub open spec fn ime_off(self) -> Model<F, S> {
        Model {
            ime_preedit: Seq::empty(),
            todo: Todo { ime: ImeWish::Off, ..self.todo },
            ..self
        }
    }

    /// Puts an item on top of the others.
    pub open spec fn with_item(self, a: Item<F, S>) -> Model<F, S> {
        Model { items: self.items.push(a), ..self }
    }

    /// Selects the topmost item alone.
    pub open spec fn select_last(self) -> Model<F, S> {
        Model { selected: seq![(self.items.len() - 1) as usize], ..self }.reframe()
    }

    /// Selects one item alone.
    pub open spec fn select_only(self, i: int) -> Model<F, S> {
        Model { selected: seq![i as usize], ..self }.reframe()
    }

    /// Selects nothing.
    pub open spec fn deselect(self) -> Model<F, S> {
        Model { selected: Seq::empty(), ..self }.reframe()
    }

    /// The selected items, in order.
    pub open spec fn picked(self) -> Seq<Item<F, S>> {
        named(self.items, self.selected)
    }

    /// The style that an edit of the selection starts from.
    pub open spec fn shown(self) -> Style<S> {
        shown_style(self.picked(), self.style)
    }

    /// Changes a style property of new items and of every selected item.
    pub open spec fn restyle(self, change: Restyle<S>) -> Model<F, S> {
        Model {
            style: change.of_style(self.style),
            items: restyled(self.items, self.selected, change),
            ..self
        }
    }

    /// Turns the text being typed into an item, if it is not empty, and
    /// selects it.
    pub open spec fn commit_text(self) -> Model<F, S> {
        match self.editing {
            None => self,
            Some((pos, text)) => {
                let m = Model { editing: None, ..self };
                if text.len() == 0 {
                    m.ime_off()
                } else {
                    m.snapshot().with_item(
                        Item::Text {
                            pos,
                            text,
                            color: self.style.color,
                            size: self.style.size,
                            rot: self.zero,
                        },
                    ).select_last().ime_off()
                }
            },
        }
    }

    /// Whether no drag is in progress, so that undo and redo may act.
    pub open spec fn at_rest(self) -> bool {
        !self.dragging && self.edit == Drag::<F, S>::Idle && self.picker_drag is None
    }

    /// Puts back a snapshot: nothing is selected, no stroke waits to be
    /// merged, and nothing is being dragged or typed.
    pub open spec fn restore(self, items: Seq<Item<F, S>>) -> Model<F, S> {
        Model {
            items,
            freehand_batch: Seq::empty(),
            edit: Drag::Idle,
            editing: None,
            ..self
        }.deselect().ime_off().redraw()
    }

    /// Goes back one state, unless a drag is in progress or there is none.
    pub open spec fn undo(self) -> Model<F, S> {
        match self.history.undo_target() {
            Some(prev) if self.at_rest() => Model {
                history: self.history.after_undo(self.items),
                ..self
            }.restore(prev),
            _ => self,
        }
    }

    /// Redoes one undo, unless a drag is in progress or there is none.
    pub open spec fn redo(self) -> Model<F, S> {
        match self.history.redo_target() {
            Some(next) if self.at_rest() => Model {
                history: self.history.after_redo(self.items),
                ..self
            }.restore(next),
            _ => self,
        }
    }

    /// Gives a field the number that a text spells, kept within its range, or
    /// the value shown if it spells none.
    pub open spec fn set_number<Z, O>(
        self,
        field: Field,
        text: Seq<char>,
        typing: Typing<Z, O>,
    ) -> Model<F, S> where Z: Fn(i64) -> S, O: Fn(&str, (i64, i64)) -> Option<(i64, S)> {
        match field {
            Field::Line => self.snapshot_if_selected().restyle(
                Restyle::Thick(
                    match number_of(text, THICK_RANGE, typing) {
                        Some((v, _)) => v,
                        None => self.shown().thick,
                    },
                ),
            ),
            Field::Size => self.snapshot_if_selected().restyle(
                Restyle::Size(
                    match number_of(text, SIZE_RANGE, typing) {
                        Some((_, s)) => s,
                        None => self.shown().size,
                    },
                ),
            ),
            Field::Block => self.snapshot_if_selected().restyle(
                Restyle::Block(
                    match number_of(text, BLOCK_RANGE, typing) {
                        Some((_, s)) => s,
                        None => self.shown().block,
                    },
                ),
            ),
            Field::Number => Model {
                next_marker_num: match number_of(text, NUMBER_RANGE, typing) {
                    Some((v, _)) => kept_within(v as int, (0, u32::MAX as i64)) as u32,
                    None => self.next_marker_num,
                },
                ..self
            },
        }
    }

    /// Takes the typed number over, if a field is being typed in.
    pub open spec fn commit_field<Z, O>(self, typing: Typing<Z, O>) -> Model<F, S> where
        Z: Fn(i64) -> S,
        O: Fn(&str, (i64, i64)) -> Option<(i64, S)>,
     {
        match self.focus {
            None => self,
            Some(f) => {
                let m = Model { focus: None, ..self }.set_number(
                    f,
                    self.buf,
                    typing,
                );
                Model { buf: Seq::empty(), ..m }.redraw()
            },
        }
    }

    /// Starts typing in a field, with its value as the text.
    pub open spec fn focus_field<Z, O, W>(self, field: Field, typing: Typing<Z, O>, whole: W) -> Model<
        F,
        S,
    > where
        Z: Fn(i64) -> S,
        O: Fn(&str, (i64, i64)) -> Option<(i64, S)>,
        W: Fn(S) -> i64,
     {
        let m = Model { picker: None, ..self }.commit_field(typing);
        let shown = m.shown();
        let text = match field {
            Field::Line => decimal_text(shown.thick as int),
            Field::Size => decimal_text(result(whole, shown.size) as int),
            Field::Number => decimal_text(m.next_marker_num as int),
            Field::Block => decimal_text(result(whole, shown.block) as int),
        };
        Model { buf: text, focus: Some(field), ..m }.redraw()
    }

    /// Makes a field's value one larger or smaller.
    pub open spec fn step_field<Z, O, T>(
        self,
        field: Field,
        up: bool,
        typing: Typing<Z, O>,
        step: T,
    ) -> Model<F, S> where
        Z: Fn(i64) -> S,
        O: Fn(&str, (i64, i64)) -> Option<(i64, S)>,
        T: Fn((S, bool, (i64, i64))) -> S,
     {
        let m = self.commit_field(typing);
        let shown = m.shown();
        let d: int = if up {
            1
        } else {
            -1
        };
        let m = if field == Field::Number {
            m
        } else {
            m.snapshot_if_selected()
        };
        let m = match field {
            Field::Line => m.restyle(
                Restyle::Thick(kept_within(shown.thick + d, THICK_RANGE) as i64),
            ),
            Field::Size => m.restyle(Restyle::Size(result(step, (shown.size, up, SIZE_RANGE)))),
            Field::Block => m.restyle(
                Restyle::Block(result(step, (shown.block, up, BLOCK_RANGE))),
            ),
            Field::Number => Model {
                next_marker_num: kept_within(m.next_marker_num + d, NUMBER_RANGE) as u32,
                ..m
            },
        };
        m.redraw()
    }

    /// Flips the fill of new items and of every selected item.
    pub open spec fn toggle_fill<Z, O>(self, typing: Typing<Z, O>) -> Model<F, S> where
        Z: Fn(i64) -> S,
        O: Fn(&str, (i64, i64)) -> Option<(i64, S)>,
     {
        let m = self.commit_field(typing);
        m.snapshot_if_selected().restyle(Restyle::Filled(!m.shown().filled)).redraw()
    }

    /// Flips the blur of new mosaics and of every selected one.
    pub open spec fn toggle_blur<Z, O>(self, typing: Typing<Z, O>) -> Model<F, S> where
        Z: Fn(i64) -> S,
        O: Fn(&str, (i64, i64)) -> Option<(i64, S)>,
     {
        let m = self.commit_field(typing);
        m.snapshot_if_selected().restyle(Restyle::Blur(!m.shown().blur)).redraw()
    }

    /// Closes an open color picker, or opens it on the color shown.
    pub open spec fn toggle_picker<Z, O, H>(self, typing: Typing<Z, O>, to_hsv: H) -> Model<F, S> where
        Z: Fn(i64) -> S,
        O: Fn(&str, (i64, i64)) -> Option<(i64, S)>,
        H: Fn(u32) -> (S, S, S),
     {
        if self.picker is Some {
            Model { picker: None, ..self }.redraw()
        } else {
            let m = self.commit_field(typing);
            Model { picker: Some(result(to_hsv, m.shown().color)), ..m }.redraw()
        }
    }

    /// Takes over a color dragged to in the picker.
    pub open spec fn apply_picker<K>(self, pick: K) -> Model<F, S> where
        K: Fn((S, S, S), PickerPart) -> ((S, S, S), u32),
     {
        match (self.picker, self.picker_drag) {
            (Some(hsv), Some(part)) => {
                let (next, color) = result2(pick, hsv, part);
                Model { picker: Some(next), ..self }.restyle(Restyle::Color(color)).redraw()
            },
            _ => self,
        }
    }
}

/// An item pushed onto a list is pushed onto what the list stands for.
proof fn lemma_push_item<F, S>(list: Seq<Annotation<F, S>>, a: Annotation<F, S>)
    ensures
        items_of(list.push(a)) == items_of(list).push(a@),
{
    assert(items_of(list.push(a)) =~= items_of(list).push(a@));
}

/// A recorded snapshot stands for the items it holds.
proof fn lemma_snapshots<F, S>(h: History<Vec<Annotation<F, S>>>, v: Vec<Annotation<F, S>>)
    ensures
        snapshots(h.after_push(v)) == snapshots(h).after_push(items_of(v@)),
        snapshots(h.after_undo(v)) == snapshots(h).after_undo(items_of(v@)),
        snapshots(h.after_redo(v)) == snapshots(h).after_redo(items_of(v@)),
        snapshots(h).undo_target() == match h.undo_target() {
            Some(p) => Some(items_of(p@)),
            None => None,
        },
        snapshots(h).redo_target() == match h.redo_target() {
            Some(p) => Some(items_of(p@)),
            None => None,
        },
{
    assert(snapshots(h.after_push(v)) =~= snapshots(h).after_push(items_of(v@)));
    assert(snapshots(h.after_undo(v)) =~= snapshots(h).after_undo(items_of(v@)));
    assert(snapshots(h.after_redo(v)) =~= snapshots(h).after_redo(items_of(v@)));
}

impl<F: Copy, S: Copy> Editor<F, S> {
    /// An editor with these items, nothing selected and nothing to undo.
    pub fn new(
        annotations: Vec<Annotation<F, S>>,
        style: Style<S>,
        zero: F,
        keys: EditorKeys,
    ) -> (e: Self)
        requires
            forall|i: int|
                0 <= i < annotations@.len() ==> marker_number(#[trigger] annotations@[i]@) != Some(
                    u32::MAX,
                ),
        ensures
            e@.wf(),
            e@ == (Model {
                tool: Tool::Select,
                drag_start: None,
                dragging: false,
                polyline_pts: Seq::empty(),
                freehand_pts: Seq::empty(),
                freehand_batch: Seq::empty(),
                items: items_of(annotations@),
                clipboard: Seq::empty(),
                selected: Seq::empty(),
                group_rect: (zero, zero, zero, zero),
                group_rot: zero,
                edit: Drag::Idle,
                history: History::empty(),
                style,
                next_marker_num: e.next_marker_num,
                new_item_seed: 0,
                focus: None,
                buf: Seq::empty(),
                picker: None,
                picker_drag: None,
                editing: None,
                ime_preedit: Seq::empty(),
                hover: None,
                pressed: None,
                pinned: false,
                ctrl: false,
                shift: false,
                alt: false,
                keys,
                zero,
                todo: (Todo { redraw: true, ..Todo::nothing() }),
            }),
            e.next_marker_num >= 1,
            e.next_marker_num == 1 || exists|i: int|
                0 <= i < annotations@.len() && marker_number(#[trigger] annotations@[i]@) == Some(
                    (e.next_marker_num - 1) as u32,
                ),
            forall|i: int|
                0 <= i < annotations@.len() ==> (marker_number(
                    #[trigger] annotations@[i]@,
                ) matches Some(m) ==> m < e.next_marker_num),
    {
        let next_marker_num: u32 = next_marker_number(&annotations);
        let e = Editor {
            tool: Tool::Select,
            drag_start: None,
            dragging: false,
            polyline_pts: Vec::new(),
            freehand_pts: Vec::new(),
            freehand_batch: Vec::new(),
            annotations,
            item_clipboard: Vec::new(),
            selected: Vec::new(),
            group_rect: (zero, zero, zero, zero),
            group_rot: zero,
            edit: EditDrag::Idle,
            history: UndoStack::new(),
            style,
            next_marker_num,
            new_item_seed: 0,
            focus: None,
            buf: String::new(),
            picker: None,
            picker_drag: None,
            editing: None,
            ime_preedit: String::new(),
            hover: None,
            pressed: None,
            pinned: false,
            ctrl: false,
            shift: false,
            alt: false,
            keys,
            zero,
            todo: Todo {
                redraw: true,
                reframe: false,
                cursor: false,
                level: false,
                drop_cache: false,
                ime: ImeWish::Keep,
            },
        };
        assert(e@.clipboard =~= Seq::empty());
        assert(e@.history =~= History::empty());
        e
    }

    /// Takes what the window still has to do.
    pub fn take_todo(&mut self) -> (t: Todo)
        ensures
            t == old(self)@.todo,
            final(self)@ == (Model { todo: Todo::nothing(), ..old(self)@ }),
    {
        let t = self.todo;
        self.todo = Todo {
            redraw: false,
            reframe: false,
            cursor: false,
            level: false,
            drop_cache: false,
            ime: ImeWish::Keep,
        };
        t
    }

    /// Asks for a redraw.
    pub fn request_redraw(&mut self)
        ensures
            final(self)@ == old(self)@.redraw(),
    {
        self.todo.redraw = true;
    }

    /// Asks for the selection's frame to be measured.
    pub(crate) fn request_reframe(&mut self)
        ensures
            final(self)@ == old(self)@.reframe(),
    {
        self.todo.reframe = true;
    }

    /// Records the items for an undo, before a change. Called once at the
    /// start of an operation, not during a drag.
    pub fn push_undo(&mut self)
        ensures
            final(self)@ == old(self)@.snapshot(),
    {
        let copy = crate::annotation::copy_items(&self.annotations);
        proof {
            lemma_snapshots(self.history@, copy);
        }
        self.history.push(copy);
    }

    /// Records the items for an undo if something is selected.
    pub(crate) fn push_undo_if_selected(&mut self)
        ensures
            final(self)@ == old(self)@.snapshot_if_selected(),
    {
        if !self.selected.is_empty() {
            self.push_undo();
        }
    }

    /// Puts an item on top of the others.
    pub(crate) fn add_item(&mut self, a: Annotation<F, S>)
        ensures
            final(self)@ == old(self)@.with_item(a@),
    {
        proof {
            lemma_push_item(self.annotations@, a);
        }
        self.annotations.push(a);
    }

    /// Selects the topmost item alone.
    pub(crate) fn select_last(&mut self)
        requires
            old(self)@.items.len() > 0,
        ensures
            final(self)@ == old(self)@.select_last(),
            final(self)@.wf(),
    {
        let n: usize = self.annotations.len();
        let mut sel: Vec<usize> = Vec::new();
        sel.push(n - 1);
        self.selected = sel;
        assert(self.selected@ =~= seq![(n - 1) as usize]);
        self.request_reframe();
    }

    /// Selects one item alone.
    pub(crate) fn select_only(&mut self, i: usize)
        requires
            old(self)@.wf(),
        ensures
            final(self)@ == old(self)@.select_only(i as int),
            final(self)@.wf(),
    {
        let mut sel: Vec<usize> = Vec::new();
        sel.push(i);
        self.selected = sel;
        assert(self.selected@ =~= seq![i]);
        self.request_reframe();
    }

    /// Selects nothing.
    pub(crate) fn deselect(&mut self)
        ensures
            final(self)@ == old(self)@.deselect(),
            final(self)@.wf(),
    {
        self.selected = Vec::new();
        self.request_reframe();
    }

    /// Switches the input method off and drops what it had not committed.
    pub fn disable_ime(&mut self)
        ensures
            final(self)@ == old(self)@.ime_off(),
    {
        self.ime_preedit = String::new();
        self.todo.ime = ImeWish::Off;
    }

    /// Turns the text being typed into an item of the current style, if it is
    /// not empty, and selects it.
    pub fn commit_text(&mut self)
        requires
            old(self)@.wf(),
        ensures
            final(self)@ == old(self)@.commit_text(),
            final(self)@.wf(),
    {
        match self.editing.take() {
            None => {},
            Some((pos, text)) => {
                if text.as_str().unicode_len() > 0 {
                    self.push_undo();
                    let a = Annotation::Text {
                        pos,
                        text,
                        color: self.style.color,
                        size: self.style.size,
                        rot: self.zero,
                    };
                    self.add_item(a);
                    self.select_last();
                }
                self.disable_ime();
            },
        }
    }

    /// Puts back a snapshot: nothing is selected, no stroke waits to be
    /// merged, and nothing is being dragged or typed.
    pub fn restore_annotations(&mut self, snapshot: Vec<Annotation<F, S>>)
        ensures
            final(self)@ == old(self)@.restore(items_of(snapshot@)),
            final(self)@.wf(),
    {
        self.annotations = snapshot;
        self.freehand_batch = Vec::new();
        self.edit = EditDrag::Idle;
        self.editing = None;
        self.deselect();
        self.disable_ime();
        self.request_redraw();
    }

    /// Whether no drag is in progress.
    pub fn is_at_rest(&self) -> (r: bool)
        ensures
            r == self@.at_rest(),
    {
        !self.dragging && matches!(self.edit, EditDrag::Idle) && self.picker_drag.is_none()
    }

    /// Goes back one state. Nothing happens while a drag is in progress, since
    /// what to revert would be ambiguous.
    pub fn undo(&mut self)
        requires
            old(self)@.wf(),
        ensures
            final(self)@ == old(self)@.undo(),
            final(self)@.wf(),
    {
        if !self.is_at_rest() {
            return;
        }
        let copy = crate::annotation::copy_items(&self.annotations);
        proof {
            lemma_snapshots(self.history@, copy);
        }
        if let Some(prev) = self.history.undo(copy) {
            self.restore_annotations(prev);
        }
    }

    /// Redoes one undo. Nothing happens while a drag is in progress.
    pub fn redo(&mut self)
        requires
            old(self)@.wf(),
        ensures
            final(self)@ == old(self)@.redo(),
            final(self)@.wf(),
    {
        if !self.is_at_rest() {
            return;
        }
        let copy = crate::annotation::copy_items(&self.annotations);
        proof {
            lemma_snapshots(self.history@, copy);
        }
        if let Some(next) = self.history.redo(copy) {
            self.restore_annotations(next);
        }
    }

    /// The style that an edit of the selection starts from.
    pub fn shown(&self) -> (s: Style<S>)
        ensures
            s == self@.shown(),
    {
        let any = |p: S, q: S| -> (r: bool) { true };
        let v = common_style(&self.annotations, self.selected.as_slice(), self.style, &any);
        Style {
            color: v.color.value(),
            thick: v.thick.value(),
            size: v.size.value(),
            filled: v.filled.value(),
            block: v.block.value(),
            blur: v.blur.value(),
        }
    }

    /// The common style of the selection, for display: the default if nothing
    /// is selected, `Uniform` where the items agree, `Mixed` where they
    /// differ. `same` compares sizes and block lengths.
    pub fn active_style<E: Fn(S, S) -> bool>(&self, same: &E) -> (v: StyleVals<S>)
        requires
            forall|p: S, q: S| call_requires(*same, (p, q)),
        ensures
            crate::style::common_of(self@.picked(), self@.style, *same, v),
    {
        common_style(&self.annotations, self.selected.as_slice(), self.style, same)
    }

    /// Changes a style property of new items and of every selected item.
    pub fn restyle(&mut self, change: Restyle<S>)
        requires
            old(self)@.wf(),
        ensures
            final(self)@ == old(self)@.restyle(change),
            final(self)@.wf(),
    {
        match change {
            Restyle::Color(c) => {
                self.style.color = c;
            },
            Restyle::Thick(t) => {
                self.style.thick = t;
            },
            Restyle::Size(s) => {
                self.style.size = s;
            },
            Restyle::Filled(f) => {
                self.style.filled = f;
            },
            Restyle::Block(s) => {
                self.style.block = s;
            },
            Restyle::Blur(b) => {
                self.style.blur = b;
            },
        }
        restyle_selected(&mut self.annotations, self.selected.as_slice(), change);
    }

    /// Gives a field the typed number, kept within its range, or the value
    /// shown if the text spells none.
    fn set_number<Z, O>(&mut self, field: Field, typing: &Typing<Z, O>) where
        Z: Fn(i64) -> S,
        O: Fn(&str, (i64, i64)) -> Option<(i64, S)>,

        requires
            old(self)@.wf(),
            computes_typing(*typing),
        ensures
            final(self)@ == old(self)@.set_number(field, old(self)@.buf, *typing),
            final(self)@.wf(),
    {
        let shown = self.shown();
        match field {
            Field::Line => {
                let v: i64 = match typed_size(self.buf.as_str(), THICK_RANGE, typing) {
                    Some((v, _)) => v,
                    None => shown.thick,
                };
                self.push_undo_if_selected();
                self.restyle(Restyle::Thick(v));
            },
            Field::Size => {
                let v = match typed_size(self.buf.as_str(), SIZE_RANGE, typing) {
                    Some((_, s)) => s,
                    None => shown.size,
                };
                self.push_undo_if_selected();
                self.restyle(Restyle::Size(v));
            },
            Field::Number => {
                if let Some((v, _)) = typed_size(self.buf.as_str(), NUMBER_RANGE, typing) {
                    self.next_marker_num = if v < 0 {
                        0
                    } else if v > u32::MAX as i64 {
                        u32::MAX
                    } else {
                        v as u32
                    };
                }
            },
            Field::Block => {
                let v = match typed_size(self.buf.as_str(), BLOCK_RANGE, typing) {
                    Some((_, s)) => s,
                    None => shown.block,
                };
                self.push_undo_if_selected();
                self.restyle(Restyle::Block(v));
            },
        }
    }

    /// Takes the typed number over, kept within the field's range. A text that
    /// spells no number leaves the value shown.
    pub fn commit_field<Z, O>(&mut self, typing: &Typing<Z, O>) where
        Z: Fn(i64) -> S,
        O: Fn(&str, (i64, i64)) -> Option<(i64, S)>,

        requires
            old(self)@.wf(),
            computes_typing(*typing),
        ensures
            final(self)@ == old(self)@.commit_field(*typing),
            final(self)@.wf(),
    {
        let field = match self.focus.take() {
            None => {
                return;
            },
            Some(f) => f,
        };
        self.set_number(field, typing);
        self.buf = String::new();
        self.request_redraw();
    }

    /// Starts typing in a field, with its value as the text. An open picker
    /// closes. `whole` rounds a size.
    pub fn focus_field<Z, O, W>(&mut self, field: Field, typing: &Typing<Z, O>, whole: &W) where
        Z: Fn(i64) -> S,
        O: Fn(&str, (i64, i64)) -> Option<(i64, S)>,
        W: Fn(S) -> i64,

        requires
            old(self)@.wf(),
            computes_typing(*typing),
            pure(*whole),
        ensures
            final(self)@ == old(self)@.focus_field(field, *typing, *whole),
            final(self)@.wf(),
    {
        self.picker = None;
        self.commit_field(typing);
        let shown = self.shown();
        self.buf = match field {
            Field::Line => decimal(shown.thick),
            Field::Size => decimal(apply(whole, shown.size)),
            Field::Number => decimal(self.next_marker_num as i64),
            Field::Block => decimal(apply(whole, shown.block)),
        };
        self.focus = Some(field);
        self.request_redraw();
    }

    /// Makes a field's value one larger or smaller, within its range. `step`
    /// does so for a size.
    pub fn step_field<Z, O, T>(&mut self, field: Field, up: bool, typing: &Typing<Z, O>, step: &T) where
        Z: Fn(i64) -> S,
        O: Fn(&str, (i64, i64)) -> Option<(i64, S)>,
        T: Fn((S, bool, (i64, i64))) -> S,

        requires
            old(self)@.wf(),
            computes_typing(*typing),
            pure(*step),
        ensures
            final(self)@ == old(self)@.step_field(field, up, *typing, *step),
            final(self)@.wf(),
    {
        self.commit_field(typing);
        let shown = self.shown();
        match field {
            Field::Line => {
                self.push_undo_if_selected();
                self.restyle(Restyle::Thick(stepped_within(shown.thick, up, THICK_RANGE)));
            },
            Field::Size => {
                self.push_undo_if_selected();
                self.restyle(Restyle::Size(apply(step, (shown.size, up, SIZE_RANGE))));
            },
            Field::Number => {
                let v: i64 = stepped_within(self.next_marker_num as i64, up, NUMBER_RANGE);
                self.next_marker_num = v as u32;
            },
            Field::Block => {
                self.push_undo_if_selected();
                self.restyle(Restyle::Block(apply(step, (shown.block, up, BLOCK_RANGE))));
            },
        }
        self.request_redraw();
    }

    /// Flips the fill of new items and of every selected item.
    pub fn toggle_fill<Z, O>(&mut self, typing: &Typing<Z, O>) where
        Z: Fn(i64) -> S,
        O: Fn(&str, (i64, i64)) -> Option<(i64, S)>,

        requires
            old(self)@.wf(),
            computes_typing(*typing),
        ensures
            final(self)@ == old(self)@.toggle_fill(*typing),
            final(self)@.wf(),
    {
        self.commit_field(typing);
        let filled: bool = !self.shown().filled;
        self.push_undo_if_selected();
        self.restyle(Restyle::Filled(filled));
        self.request_redraw();
    }

    /// Flips the blur of new mosaics and of every selected one.
    pub fn toggle_blur<Z, O>(&mut self, typing: &Typing<Z, O>) where
        Z: Fn(i64) -> S,
        O: Fn(&str, (i64, i64)) -> Option<(i64, S)>,

        requires
            old(self)@.wf(),
            computes_typing(*typing),
        ensures
            final(self)@ == old(self)@.toggle_blur(*typing),
            final(self)@.wf(),
    {
        self.commit_field(typing);
        let blur: bool = !self.shown().blur;
        self.push_undo_if_selected();
        self.restyle(Restyle::Blur(blur));
        self.request_redraw();
    }

    /// Closes an open color picker, or opens it on the color shown. `to_hsv`
    /// takes a color apart.
    pub fn toggle_picker<Z, O, H>(&mut self, typing: &Typing<Z, O>, to_hsv: &H) where
        Z: Fn(i64) -> S,
        O: Fn(&str, (i64, i64)) -> Option<(i64, S)>,
        H: Fn(u32) -> (S, S, S),

        requires
            old(self)@.wf(),
            computes_typing(*typing),
            pure(*to_hsv),
        ensures
            final(self)@ == old(self)@.toggle_picker(*typing, *to_hsv),
            final(self)@.wf(),
    {
        if self.picker.is_some() {
            self.picker = None;
        } else {
            self.commit_field(typing);
            let color: u32 = self.shown().color;
            self.picker = Some(apply(to_hsv, color));
        }
        self.request_redraw();
    }

    /// Takes over a color dragged to in the picker. Nothing happens unless the
    /// open picker is being dragged. `pick` reads the parts and the color off
    /// the pointer, from the parts before and what is being dragged.
    pub fn apply_picker<K>(&mut self, pick: &K) where
        K: Fn((S, S, S), PickerPart) -> ((S, S, S), u32),

        requires
            old(self)@.wf(),
            pure2(*pick),
        ensures
            final(self)@ == old(self)@.apply_picker(*pick),
            final(self)@.wf(),
    {
        if let Some(hsv) = self.picker {
            if let Some(part) = self.picker_drag {
                let (next, color) = apply2(pick, hsv, part);
                self.picker = Some(next);
                self.restyle(Restyle::Color(color));
                self.request_redraw();
            }
        }
    }
}

/// The number one larger or smaller, kept within the range.
pub fn stepped_within(v: i64, up: bool, range: (i64, i64)) -> (r: i64)
    ensures
        r == kept_within(
            v + (if up {
                1int
            } else {
                -1int
            }),
            range,
        ),
{
    let w: i128 = if up {
        v as i128 + 1
    } else {
        v as i128 - 1
    };
    if w < range.0 as i128 {
        range.0
    } else if w > range.1 as i128 {
        range.1
    } else {
        w as i64
    }
}

} // verus!

//! What a press of the mouse button starts in the editor: a control of the
//! bars, a drag of the selection, or a new item.

use vstd::prelude::*;

use crate::annotation::{
    close_by, grabbed, hit_rect_handle, near, normalized, rect_norm, Annotation, Handle, Item,
    items_of,
};
use crate::commands::{pick_items, range_list, range_of, Labels};
use crate::editor::{
    origs_of, Drag, EditDrag, Editor, ImeWish, Model, PickerPart, Todo,
};
use crate::fields::{computes_typing, Typing};
use crate::measure::{guide_from, guide_index};
use crate::order::{ascending, chosen, has_index, insert_index};
use crate::pure::{pure, pure2};
use crate::toolbar::{
    button_at, button_under, first_at, picker_geom, picker_layout, prop_layout, top_fits, Field,
    PropCtrl, Tool, TOOLBAR_H, TOOLBAR_W,
};

verus! {

/// How the pointer meets a frame: a rectangle at an angle.
#[derive(Debug)]
pub struct FrameProbe<F> {
    /// It is on the rotate handle.
    pub on_rotate: bool,
    /// It is on a resize handle.
    pub handle: Option<Handle>,
    /// It is on the outline.
    pub on_outline: bool,
    /// The frame's center.
    pub center: (F, F),
    /// The frame with its corners in order.
    pub norm: (F, F, F, F),
}

/// What lies under the pointer.
#[derive(Debug)]
pub struct Under<F> {
    /// How it meets the selection's frame.
    pub group: FrameProbe<F>,
    /// How it meets the single selected item's own frame.
    pub item: FrameProbe<F>,
    /// The angle from the selection frame's center to the pointer.
    pub angle: F,
    /// It is on the single selected marker's disc.
    pub in_disc: bool,
    /// The frontmost item it touches.
    pub hit: Option<usize>,
}

/// The items that a list of places names, each with its place.
pub open spec fn paired<F, S>(items: Seq<Item<F, S>>, places: Seq<usize>) -> Seq<
    (usize, Item<F, S>),
>
    decreases places.len(),
{
    if places.len() == 0 {
        Seq::empty()
    } else {
        let rest = paired(items, places.drop_last());
        let i = places.last();
        if i < items.len() {
            rest.push((i, items[i as int]))
        } else {
            rest
        }
    }
}

/// Copies of the items that a list of places names, each with its place.
pub(crate) fn pair_items<F: Copy, S: Copy>(
    annotations: &Vec<Annotation<F, S>>,
    places: &[usize],
) -> (out: Vec<(usize, Annotation<F, S>)>)
    ensures
        origs_of(out@) == paired(items_of(annotations@), places@),
{
    let ghost items = items_of(annotations@);
    let mut out: Vec<(usize, Annotation<F, S>)> = Vec::new();
    let mut t: usize = 0;
    while t < places.len()
        invariant
            t <= places.len(),
            items == items_of(annotations@),
            origs_of(out@) =~= paired(items, places@.take(t as int)),
        decreases places.len() - t,
    {
        let i: usize = places[t];
        assert(places@.take(t + 1).drop_last() =~= places@.take(t as int));
        if i < annotations.len() {
            let a = annotations[i].clone();
            assert(origs_of(out@.push((i, a))) =~= origs_of(out@).push((i, a@)));
            out.push((i, a));
        }
        t += 1;
    }
    assert(places@.take(places@.len() as int) =~= places@);
    out
}

/// The first vertex within reach of `p`, from the `k`-th on.
pub open spec fn vertex_from(points: Seq<(i64, i64)>, p: (i64, i64), tol: int, k: int) -> Option<
    usize,
>
    decreases points.len() - k,
{
    if k >= points.len() {
        None
    } else if close_by(p, points[k], tol) {
        Some(k as usize)
    } else {
        vertex_from(points, p, tol, k + 1)
    }
}

/// The first vertex within reach of `p`.
pub fn vertex_at(points: &Vec<(i64, i64)>, p: (i64, i64), tol: i64) -> (k: Option<usize>)
    ensures
        k == vertex_from(points@, p, tol as int, 0),
{
    let mut k: usize = 0;
    while k < points.len()
        invariant
            k <= points@.len(),
            vertex_from(points@, p, tol as int, 0) == vertex_from(
                points@,
                p,
                tol as int,
                k as int,
            ),
        decreases points.len() - k,
    {
        if near(p, points[k], tol) {
            return Some(k);
        }
        k += 1;
    }
    None
}

/// The drag that a press on an item's handle, end or vertex starts.
pub open spec fn item_grab<F, S>(a: Item<F, S>, p: (i64, i64), tol: int, u: Under<F>) -> Option<
    Drag<F, S>,
> {
    match a {
        Item::Arrow { a: from, b: to, .. } => if close_by(p, to, tol) {
            Some(Drag::ArrowEnd { end_b: true })
        } else if close_by(p, from, tol) {
            Some(Drag::ArrowEnd { end_b: false })
        } else {
            None
        },
        Item::Polyline { points, .. } => match vertex_from(points, p, tol, 0) {
            Some(index) => Some(Drag::PolylinePoint { index }),
            None => None,
        },
        Item::Text { .. } => if u.item.on_rotate {
            Some(Drag::Rotate { center: u.item.center })
        } else {
            None
        },
        Item::NumberMarker { .. } | Item::Guide { .. } => None,
        _ => if u.item.on_rotate {
            Some(Drag::Rotate { center: u.item.center })
        } else {
            match u.item.handle {
                Some(h) => Some(Drag::RotatedHandle { h, orig: u.item.norm }),
                None => None,
            }
        },
    }
}

/// Whether a press of a drawing tool moves the item: on the outline of its
/// frame, or anywhere on a marker's disc.
pub open spec fn movable_from<F, S>(a: Item<F, S>, u: Under<F>) -> bool {
    match a {
        Item::Arrow { .. } | Item::Guide { .. } => false,
        Item::Polyline { .. } => u.group.on_outline,
        Item::NumberMarker { .. } => u.in_disc,
        _ => u.item.on_outline,
    }
}

fn grab_item<F: Copy, S: Copy>(a: &Annotation<F, S>, p: (i64, i64), tol: i64, u: &Under<F>) -> (d:
    Option<EditDrag<F, S>>)
    ensures
        match d {
            Some(e) => item_grab(a@, p, tol as int, *u) == Some(e@),
            None => item_grab(a@, p, tol as int, *u) == None::<Drag<F, S>>,
        },
{
    match a {
        Annotation::Arrow { a: from, b: to, .. } => if near(p, *to, tol) {
            Some(EditDrag::ArrowEnd { end_b: true })
        } else if near(p, *from, tol) {
            Some(EditDrag::ArrowEnd { end_b: false })
        } else {
            None
        },
        Annotation::Polyline { points, .. } => match vertex_at(points, p, tol) {
            Some(index) => Some(EditDrag::PolylinePoint { index }),
            None => None,
        },
        Annotation::Text { .. } => if u.item.on_rotate {
            Some(EditDrag::Rotate { center: u.item.center })
        } else {
            None
        },
        Annotation::NumberMarker { .. } | Annotation::Guide { .. } => None,
        _ => if u.item.on_rotate {
            Some(EditDrag::Rotate { center: u.item.center })
        } else {
            match u.item.handle {
                Some(h) => Some(EditDrag::RotatedHandle { h, orig: u.item.norm }),
                None => None,
            }
        },
    }
}

fn moves_from<F: Copy, S: Copy>(a: &Annotation<F, S>, u: &Under<F>) -> (r: bool)
    ensures
        r == movable_from(a@, *u),
{
    match a {
        Annotation::Arrow { .. } | Annotation::Guide { .. } => false,
        Annotation::Polyline { .. } => u.group.on_outline,
        Annotation::NumberMarker { .. } => u.in_disc,
        _ => u.item.on_outline,
    }
}

impl<F, S> Model<F, S> {
    /// The one selected item, if exactly one place is selected and it exists.
    pub open spec fn single(self) -> Option<Item<F, S>> {
        if self.selected.len() == 1 && self.selected[0] < self.items.len() {
            Some(self.items[self.selected[0] as int])
        } else {
            None
        }
    }

    /// Whether one polyline alone is selected. It is handled by its frame, as
    /// a selection of several items is.
    pub open spec fn single_polyline(self) -> bool {
        self.single() matches Some(a) && a is Polyline
    }

    /// The drag that a press on the selection frame's handles starts.
    pub open spec fn group_grab(self, u: Under<F>) -> Option<Drag<F, S>> {
        if u.group.on_rotate {
            Some(
                Drag::GroupRotate {
                    center: u.group.center,
                    start_angle: u.angle,
                    orig_rect: self.group_rect,
                    orig_rot: self.group_rot,
                    origs: paired(self.items, self.selected),
                },
            )
        } else {
            match u.group.handle {
                Some(h) => Some(
                    Drag::GroupHandle {
                        h,
                        orig_rect: self.group_rect,
                        rot: self.group_rot,
                        origs: paired(self.items, self.selected),
                    },
                ),
                None => None,
            }
        }
    }

    /// Starts a drag that changes items: they are recorded for an undo.
    pub open spec fn begin(self, d: Drag<F, S>) -> Model<F, S> {
        Model { edit: d, ..self.snapshot() }
    }

    /// Starts a drag that draws something new.
    pub open spec fn begin_drawing(self, p: (i64, i64)) -> Model<F, S> {
        Model { drag_start: Some(p), dragging: true, ..self }
    }

    /// Grabs the item at `i` alone. With Alt the item stays, and a copy of it
    /// on top is grabbed.
    pub open spec fn grab_one(self, i: int, p: (i64, i64)) -> Model<F, S> {
        let m = self.snapshot();
        let m = if self.alt {
            m.with_item(self.items[i])
        } else {
            m
        };
        let target = if self.alt {
            self.items.len() as int
        } else {
            i
        };
        Model {
            selected: seq![target as usize],
            edit: Drag::Move { grab: p, orig: self.items[i] },
            ..m
        }.reframe().redraw()
    }

    /// Grabs the whole selection. With Alt the items stay, and copies of them
    /// on top are grabbed.
    pub open spec fn grab_group(self, p: (i64, i64)) -> Model<F, S> {
        let m = self.snapshot();
        let m = if self.alt {
            let items = self.items + self.picked();
            Model {
                items,
                selected: range_of(self.items.len() as int, items.len() as int),
                ..m
            }.reframe()
        } else {
            m
        };
        Model { edit: Drag::GroupMove { grab: p, origs: paired(m.items, m.selected) }, ..m }.redraw()
    }

    /// Whether `after` is what a press of the select tool leads to: a handle
    /// of the selection's frame, then of the single item, then the item under
    /// the pointer, which Shift adds or takes away, and last a marquee.
    pub open spec fn select_press(
        self,
        p: (i64, i64),
        tol: int,
        u: Under<F>,
        after: Model<F, S>,
    ) -> bool {
        let framed = self.selected.len() > 1 || self.single_polyline();
        if framed && self.group_grab(u) is Some {
            after == self.begin(self.group_grab(u)->0).redraw()
        } else if self.single() matches Some(a) && item_grab(a, p, tol, u) is Some {
            after == self.begin(item_grab(self.single()->0, p, tol, u)->0)
        } else {
            match u.hit {
                Some(i) => if self.shift {
                    &&& toggles(self.selected, i as int, after.selected)
                    &&& after == (Model {
                        selected: after.selected,
                        edit: Drag::Idle,
                        ..self
                    }.reframe().redraw())
                } else if self.selected.len() > 1 && chosen(self.selected, i as int) {
                    after == self.grab_group(p)
                } else {
                    after == self.grab_one(i as int, p)
                },
                None => after == (Model { edit: Drag::Idle, ..self.begin_drawing(p) }.redraw()),
            }
        }
    }

    /// What a press of a drawing tool on the single selected item starts, if
    /// it meets a handle or the outline.
    pub open spec fn edit_press(self, p: (i64, i64), tol: int, u: Under<F>) -> Option<
        Model<F, S>,
    > {
        match self.single() {
            None => None,
            Some(a) => if a is Polyline && self.group_grab(u) is Some {
                Some(self.begin(self.group_grab(u)->0).redraw())
            } else if item_grab(a, p, tol, u) is Some {
                Some(self.begin(item_grab(a, p, tol, u)->0).redraw())
            } else if movable_from(a, u) {
                Some(self.begin(Drag::Move { grab: p, orig: a }).redraw())
            } else {
                None
            },
        }
    }

    /// A press of the guide tool: a handle of the guide resizes it, its inside
    /// moves it, anything else draws a new one.
    pub open spec fn guide_press(self, p: (i64, i64), tol: int) -> Model<F, S> {
        match guide_from(self.items, 0) {
            None => self.begin_drawing(p),
            Some(i) => {
                let r = self.items[i]->Guide_r;
                let n = normalized(r);
                match grabbed(r, p, tol, 0) {
                    Some(h) => Model {
                        selected: seq![i as usize],
                        ..self.begin(Drag::RectHandle { h, orig: n })
                    },
                    None => if n.0 <= p.0 <= n.2 && n.1 <= p.1 <= n.3 {
                        Model {
                            selected: seq![i as usize],
                            ..self.begin(Drag::Move { grab: p, orig: self.items[i] })
                        }
                    } else {
                        self.begin_drawing(p)
                    },
                }
            },
        }
    }

    /// Starts typing a text at `p`.
    pub open spec fn start_text(self, p: (i64, i64)) -> Model<F, S> {
        Model {
            editing: Some((p, Seq::empty())),
            todo: Todo { ime: ImeWish::At(p), ..self.todo },
            ..self
        }.redraw()
    }

    /// Starts a freehand stroke at `p`.
    pub open spec fn start_stroke(self, p: (i64, i64)) -> Model<F, S> {
        Model { freehand_pts: seq![p], ..self.begin_drawing(p) }.drop_cache().redraw()
    }

    /// Places the next marker at `p` and selects it. The one after it has the
    /// next number.
    pub open spec fn place_marker(self, p: (i64, i64)) -> Model<F, S> {
        let m = self.snapshot().with_item(
            Item::NumberMarker {
                pos: p,
                number: self.next_marker_num,
                color: self.style.color,
                size: self.style.size,
            },
        );
        Model {
            next_marker_num: if self.next_marker_num == u32::MAX {
                u32::MAX
            } else {
                (self.next_marker_num + 1) as u32
            },
            ..m
        }.select_last().redraw()
    }

    /// What a drawing tool makes at `p`.
    pub open spec fn create_at(self, p: (i64, i64), seed: u32) -> Model<F, S> {
        match self.tool {
            Tool::Text => self.start_text(p),
            Tool::Polyline => Model { polyline_pts: self.polyline_pts.push(p), ..self }.redraw(),
            Tool::Draw => self.start_stroke(p),
            Tool::NumberMarker => self.place_marker(p),
            Tool::Mosaic => Model { new_item_seed: seed, ..self.begin_drawing(p) },
            _ => self.begin_drawing(p),
        }
    }

    /// A press of a drawing tool away from the selection's handles: the
    /// selection is let go, and the tool makes something there.
    pub open spec fn create_press(self, p: (i64, i64), seed: u32) -> Model<F, S> {
        if self.selected.len() > 0 {
            self.deselect().redraw().create_at(p, seed)
        } else {
            self.create_at(p, seed)
        }
    }

    /// Whether `after` is what a press on the canvas leads to.
    pub open spec fn canvas_press(
        self,
        p: (i64, i64),
        tol: int,
        u: Under<F>,
        seed: u32,
        after: Model<F, S>,
    ) -> bool {
        if self.tool == Tool::Select {
            self.select_press(p, tol, u, after)
        } else if self.tool == Tool::Guide {
            after == self.guide_press(p, tol)
        } else {
            match self.edit_press(p, tol, u) {
                Some(m) => after == m,
                None => after == self.create_press(p, seed),
            }
        }
    }
}

/// Whether `after` is the list with `i` added, or taken away if it was there.
pub open spec fn toggles(before: Seq<usize>, i: int, after: Seq<usize>) -> bool {
    &&& ascending(after)
    &&& forall|k: int| #[trigger] chosen(after, k) == (chosen(before, k) != (k == i))
}

/// Adds `i` to the list, or takes it away if it is there.
fn toggle_index(list: &mut Vec<usize>, i: usize)
    requires
        ascending(old(list)@),
    ensures
        toggles(old(list)@, i as int, final(list)@),
{
    let ghost start = list@;
    if !has_index(list.as_slice(), i) {
        insert_index(list, i);
        return;
    }
    let mut t: usize = 0;
    while t < list.len() && list[t] != i
        invariant
            t <= list@.len(),
            list@ == start,
            forall|s: int| 0 <= s < t ==> list@[s] != i,
        decreases list.len() - t,
    {
        t += 1;
    }
    if t < list.len() {
        let _ = list.remove(t);
        proof {
            let out = list@;
            assert(out == start.remove(t as int));
            assert forall|k: int| #[trigger] chosen(out, k) == (chosen(start, k) != (k == i)) by {
                if chosen(out, k) {
                    let s = choose|s: int| 0 <= s < out.len() && out[s] == k;
                    if s < t {
                        assert(start[s] == k);
                    } else {
                        assert(start[s + 1] == k);
                    }
                }
                if chosen(start, k) && k != i {
                    let s = choose|s: int| 0 <= s < start.len() && start[s] == k;
                    if s < t {
                        assert(out[s] == k);
                    } else {
                        assert(out[s - 1] == k);
                    }
                }
            }
        }
    }
}

impl<F: Copy, S: Copy> Editor<F, S> {
    /// The place of the one selected item.
    pub(crate) fn single_place(&self) -> (i: Option<usize>)
        ensures
            match i {
                Some(k) => self@.selected == seq![k] && k < self@.items.len() && self@.single()
                    == Some(self.annotations@[k as int]@),
                None => self@.single() is None,
            },
    {
        if self.selected.len() == 1 && self.selected[0] < self.annotations.len() {
            assert(self.selected@ =~= seq![self.selected@[0]]);
            Some(self.selected[0])
        } else {
            None
        }
    }

    /// The drag that a press on the selection frame's handles starts.
    fn grab_frame(&self, u: &Under<F>) -> (d: Option<EditDrag<F, S>>)
        ensures
            match d {
                Some(e) => self@.group_grab(*u) == Some(e@),
                None => self@.group_grab(*u) is None,
            },
    {
        if u.group.on_rotate {
            let origs = pair_items(&self.annotations, self.selected.as_slice());
            Some(
                EditDrag::GroupRotate {
                    center: u.group.center,
                    start_angle: u.angle,
                    orig_rect: self.group_rect,
                    orig_rot: self.group_rot,
                    origs,
                },
            )
        } else {
            match u.group.handle {
                Some(h) => {
                    let origs = pair_items(&self.annotations, self.selected.as_slice());
                    Some(
                        EditDrag::GroupHandle {
                            h,
                            orig_rect: self.group_rect,
                            rot: self.group_rot,
                            origs,
                        },
                    )
                },
                None => None,
            }
        }
    }

    /// Starts a drag that changes items.
    fn begin(&mut self, d: EditDrag<F, S>)
        ensures
            final(self)@ == old(self)@.begin(d@),
    {
        self.push_undo();
        self.edit = d;
    }

    /// Starts a drag that draws something new.
    fn begin_drawing(&mut self, p: (i64, i64))
        ensures
            final(self)@ == old(self)@.begin_drawing(p),
    {
        self.drag_start = Some(p);
        self.dragging = true;
    }

    /// Grabs the item at `i` alone.
    fn grab_one(&mut self, i: usize, p: (i64, i64))
        requires
            i < old(self)@.items.len(),
        ensures
            final(self)@ == old(self)@.grab_one(i as int, p),
            final(self)@.wf(),
    {
        let n: usize = self.annotations.len();
        self.push_undo();
        let orig = self.annotations[i].clone();
        let target: usize = if self.alt {
            let copy = self.annotations[i].clone();
            self.add_item(copy);
            n
        } else {
            i
        };
        let mut sel: Vec<usize> = Vec::new();
        sel.push(target);
        self.selected = sel;
        assert(self.selected@ =~= seq![target]);
        self.edit = EditDrag::Move { grab: p, orig };
        self.request_reframe();
        self.request_redraw();
    }

    /// Grabs the whole selection.
    fn grab_group(&mut self, p: (i64, i64))
        requires
            old(self)@.wf(),
        ensures
            final(self)@ == old(self)@.grab_group(p),
            final(self)@.wf(),
    {
        self.push_undo();
        if self.alt {
            let start: usize = self.annotations.len();
            let mut copies = pick_items(&self.annotations, self.selected.as_slice());
            let ghost before = self.annotations@;
            let ghost added = copies@;
            self.annotations.append(&mut copies);
            assert(items_of(before + added) =~= items_of(before) + items_of(added));
            self.selected = range_list(start, self.annotations.len());
            self.request_reframe();
        }
        let origs = pair_items(&self.annotations, self.selected.as_slice());
        self.edit = EditDrag::GroupMove { grab: p, origs };
        self.request_redraw();
    }

    /// A press of the select tool: a handle resizes or turns, an item is
    /// selected and moved, or added and taken away with Shift, and empty space
    /// starts a marquee.
    pub fn begin_select_drag(&mut self, p: (i64, i64), tol: i64, u: &Under<F>)
        requires
            old(self)@.wf(),
            u.hit matches Some(i) ==> i < old(self)@.items.len(),
        ensures
            old(self)@.select_press(p, tol as int, *u, final(self)@),
            final(self)@.wf(),
    {
        let single = self.single_place();
        let single_polyline: bool = match single {
            Some(i) => matches!(self.annotations[i], Annotation::Polyline { .. }),
            None => false,
        };
        if self.selected.len() > 1 || single_polyline {
            if let Some(d) = self.grab_frame(u) {
                self.begin(d);
                self.request_redraw();
                return;
            }
        }
        if let Some(i) = single {
            if let Some(d) = grab_item(&self.annotations[i], p, tol, u) {
                self.begin(d);
                return;
            }
        }
        match u.hit {
            Some(i) => {
                if self.shift {
                    toggle_index(&mut self.selected, i);
                    self.edit = EditDrag::Idle;
                    self.request_reframe();
                    self.request_redraw();
                } else if self.selected.len() > 1 && has_index(self.selected.as_slice(), i) {
                    self.grab_group(p);
                } else {
                    self.grab_one(i, p);
                }
            },
            None => {
                self.edit = EditDrag::Idle;
                self.begin_drawing(p);
                self.request_redraw();
            },
        }
    }

    /// A press of a drawing tool on the handles or the outline of the single
    /// selected item starts an edit of it. Never on its inside, where drawing
    /// goes first.
    pub fn try_begin_edit_on_current_selection(
        &mut self,
        p: (i64, i64),
        tol: i64,
        u: &Under<F>,
    ) -> (taken: bool)
        requires
            old(self)@.wf(),
        ensures
            match old(self)@.edit_press(p, tol as int, *u) {
                Some(m) => taken && final(self)@ == m,
                None => !taken && final(self)@ == old(self)@,
            },
            final(self)@.wf(),
    {
        let i: usize = match self.single_place() {
            None => {
                return false;
            },
            Some(i) => i,
        };
        if matches!(self.annotations[i], Annotation::Polyline { .. }) {
            if let Some(d) = self.grab_frame(u) {
                self.begin(d);
                self.request_redraw();
                return true;
            }
        }
        if let Some(d) = grab_item(&self.annotations[i], p, tol, u) {
            self.begin(d);
            self.request_redraw();
            return true;
        }
        if moves_from(&self.annotations[i], u) {
            let orig = self.annotations[i].clone();
            self.begin(EditDrag::Move { grab: p, orig });
            self.request_redraw();
            return true;
        }
        false
    }

    /// A press of the guide tool.
    pub fn begin_guide_drag(&mut self, p: (i64, i64), tol: i64)
        requires
            old(self)@.wf(),
        ensures
            final(self)@ == old(self)@.guide_press(p, tol as int),
            final(self)@.wf(),
    {
        if let Some(i) = guide_index(&self.annotations) {
            let orig = self.annotations[i].clone();
            if let Annotation::Guide { r } = &orig {
                let n = rect_norm(*r);
                let mut sel: Vec<usize> = Vec::new();
                sel.push(i);
                assert(sel@ =~= seq![i]);
                if let Some(h) = hit_rect_handle(*r, p, tol) {
                    self.begin(EditDrag::RectHandle { h, orig: n });
                    self.selected = sel;
                    return;
                }
                if p.0 >= n.0 && p.0 <= n.2 && p.1 >= n.1 && p.1 <= n.3 {
                    self.begin(EditDrag::Move { grab: p, orig });
                    self.selected = sel;
                    return;
                }
            }
        }
        self.begin_drawing(p);
    }

    /// Starts typing a text at `p`.
    fn start_text(&mut self, p: (i64, i64))
        ensures
            final(self)@ == old(self)@.start_text(p),
    {
        let text = String::new();
        assert(text@ =~= Seq::<char>::empty());
        self.editing = Some((p, text));
        self.todo.ime = ImeWish::At(p);
        self.request_redraw();
    }

    /// Starts a freehand stroke at `p`.
    fn start_stroke(&mut self, p: (i64, i64))
        ensures
            final(self)@ == old(self)@.start_stroke(p),
    {
        self.begin_drawing(p);
        let mut pts: Vec<(i64, i64)> = Vec::new();
        pts.push(p);
        assert(pts@ =~= seq![p]);
        self.freehand_pts = pts;
        self.todo.drop_cache = true;
        self.request_redraw();
    }

    /// Places the next marker at `p` and selects it.
    fn place_marker(&mut self, p: (i64, i64))
        ensures
            final(self)@ == old(self)@.place_marker(p),
            final(self)@.wf(),
    {
        self.push_undo();
        let a = Annotation::NumberMarker {
            pos: p,
            number: self.next_marker_num,
            color: self.style.color,
            size: self.style.size,
        };
        self.add_item(a);
        self.next_marker_num = self.next_marker_num.saturating_add(1);
        self.select_last();
        self.request_redraw();
    }

    /// What a drawing tool makes at `p`.
    fn create_at(&mut self, p: (i64, i64), seed: u32)
        requires
            old(self)@.wf(),
        ensures
            final(self)@ == old(self)@.create_at(p, seed),
            final(self)@.wf(),
    {
        match self.tool {
            Tool::Text => self.start_text(p),
            Tool::Polyline => {
                self.polyline_pts.push(p);
                self.request_redraw();
            },
            Tool::Draw => self.start_stroke(p),
            Tool::NumberMarker => self.place_marker(p),
            Tool::Mosaic => {
                self.new_item_seed = seed;
                self.begin_drawing(p);
            },
            _ => self.begin_drawing(p),
        }
    }

    /// A press of a drawing tool away from the selection's handles.
    fn create_press(&mut self, p: (i64, i64), seed: u32)
        requires
            old(self)@.wf(),
        ensures
            final(self)@ == old(self)@.create_press(p, seed),
            final(self)@.wf(),
    {
        if !self.selected.is_empty() {
            self.deselect();
            self.request_redraw();
        }
        self.create_at(p, seed);
    }

    /// A press on the canvas at world point `p`. `tol` is the reach of handles
    /// in world px, `seed` the seed of a new mosaic.
    pub fn on_press_canvas(&mut self, p: (i64, i64), tol: i64, u: &Under<F>, seed: u32)
        requires
            old(self)@.wf(),
            u.hit matches Some(i) ==> i < old(self)@.items.len(),
        ensures
            old(self)@.canvas_press(p, tol as int, *u, seed, final(self)@),
            final(self)@.wf(),
    {
        if self.tool == Tool::Select {
            self.begin_select_drag(p, tol, u);
        } else if self.tool == Tool::Guide {
            self.begin_guide_drag(p, tol);
        } else if !self.try_begin_edit_on_current_selection(p, tol, u) {
            self.create_press(p, seed);
        }
    }
}

// ---- The bars ----

/// The operations on sizes and colors that the bars need: what is typed in a
/// number field, a size rounded, a size one larger or smaller within a range, a
/// color taken apart, and the color that the pointer picks.
pub struct Calc<Z, O, W, T, H, K> {
    pub typing: Typing<Z, O>,
    pub whole: W,
    pub step: T,
    pub to_hsv: H,
    pub pick: K,
}

/// Whether every operation is a function.
pub open spec fn calculates<S, Z, O, W, T, H, K>(c: Calc<Z, O, W, T, H, K>) -> bool where
    Z: Fn(i64) -> S,
    O: Fn(&str, (i64, i64)) -> Option<(i64, S)>,
    W: Fn(S) -> i64,
    T: Fn((S, bool, (i64, i64))) -> S,
    H: Fn(u32) -> (S, S, S),
    K: Fn((S, S, S), PickerPart) -> ((S, S, S), u32),
 {
    &&& computes_typing(c.typing)
    &&& pure(c.whole)
    &&& pure(c.step)
    &&& pure(c.to_hsv)
    &&& pure2(c.pick)
}

/// Where a press ended up.
#[derive(Clone, Copy, Debug, PartialEq, Eq, Structural)]
pub enum Press {
    /// In the bars or the picker.
    Done,
    /// On the canvas, which is to handle it.
    Canvas,
}

impl<F, S> Model<F, S> {
    /// Starts dragging in the picker.
    pub open spec fn pick_from<K>(self, part: PickerPart, pick: K) -> Model<F, S> where
        K: Fn((S, S, S), PickerPart) -> ((S, S, S), u32),
     {
        Model { picker_drag: Some(part), ..self.snapshot_if_selected() }.apply_picker(pick)
    }

    /// What a property control does.
    pub open spec fn use_prop<Z, O, W, T, H, K>(self, c: PropCtrl, calc: Calc<Z, O, W, T, H, K>) -> Model<
        F,
        S,
    > where
        Z: Fn(i64) -> S,
        O: Fn(&str, (i64, i64)) -> Option<(i64, S)>,
        W: Fn(S) -> i64,
        T: Fn((S, bool, (i64, i64))) -> S,
        H: Fn(u32) -> (S, S, S),
        K: Fn((S, S, S), PickerPart) -> ((S, S, S), u32),
     {
        match c {
            PropCtrl::Color => self.toggle_picker(calc.typing, calc.to_hsv),
            PropCtrl::Field(f) => self.focus_field(f, calc.typing, calc.whole),
            PropCtrl::Step(f, up) => self.step_field(f, up, calc.typing, calc.step),
            PropCtrl::Fill => self.toggle_fill(calc.typing),
            PropCtrl::Blur => self.toggle_blur(calc.typing),
        }
    }

    /// The property control at a pixel.
    pub open spec fn prop_under(self, labels: Labels, x: int, y: int) -> Option<PropCtrl> {
        first_at(
            prop_layout(
                self.active_field(),
                self.active_fill_checkbox(),
                labels.color,
                labels.beside(self.active_field()),
            ),
            x,
            y,
            0,
        )
    }

    /// A press at a window pixel. An open picker takes it: inside its square
    /// or its hue bar it starts picking, anywhere else it closes. Otherwise a
    /// typed number is taken over, and the top bar, the left bar or the canvas
    /// has the press. A text being typed is committed before the canvas acts.
    pub open spec fn bar_press<Z, O, W, T, H, K>(
        self,
        labels: Labels,
        sw: int,
        x: int,
        y: int,
        calc: Calc<Z, O, W, T, H, K>,
    ) -> (Model<F, S>, Press) where
        Z: Fn(i64) -> S,
        O: Fn(&str, (i64, i64)) -> Option<(i64, S)>,
        W: Fn(S) -> i64,
        T: Fn((S, bool, (i64, i64))) -> S,
        H: Fn(u32) -> (S, S, S),
        K: Fn((S, S, S), PickerPart) -> ((S, S, S), u32),
     {
        if self.picker is Some {
            let (_, sv, hue) = picker_layout(labels.color);
            if sv.holds(x, y) {
                (self.pick_from(PickerPart::Sv, calc.pick), Press::Done)
            } else if hue.holds(x, y) {
                (self.pick_from(PickerPart::Hue, calc.pick), Press::Done)
            } else {
                (Model { picker: None, ..self }.redraw(), Press::Done)
            }
        } else {
            let m = self.commit_field(calc.typing);
            let button = button_under(sw, x, y);
            if y < TOOLBAR_H {
                match m.prop_under(labels, x, y) {
                    Some(c) => (m.use_prop(c, calc), Press::Done),
                    None => (Model { pressed: button, ..m }.redraw(), Press::Done),
                }
            } else if x < TOOLBAR_W {
                (Model { pressed: button, ..m }, Press::Done)
            } else {
                (m.commit_text(), Press::Canvas)
            }
        }
    }
}

impl<F: Copy, S: Copy> Editor<F, S> {
    /// Starts dragging in the picker.
    fn pick_from<K>(&mut self, part: PickerPart, pick: &K) where
        K: Fn((S, S, S), PickerPart) -> ((S, S, S), u32),

        requires
            old(self)@.wf(),
            pure2(*pick),
        ensures
            final(self)@ == old(self)@.pick_from(part, *pick),
            final(self)@.wf(),
    {
        self.push_undo_if_selected();
        self.picker_drag = Some(part);
        self.apply_picker(pick);
    }

    /// What a property control does.
    fn use_prop<Z, O, W, T, H, K>(&mut self, c: PropCtrl, calc: &Calc<Z, O, W, T, H, K>) where
        Z: Fn(i64) -> S,
        O: Fn(&str, (i64, i64)) -> Option<(i64, S)>,
        W: Fn(S) -> i64,
        T: Fn((S, bool, (i64, i64))) -> S,
        H: Fn(u32) -> (S, S, S),
        K: Fn((S, S, S), PickerPart) -> ((S, S, S), u32),

        requires
            old(self)@.wf(),
            calculates(*calc),
        ensures
            final(self)@ == old(self)@.use_prop(c, *calc),
            final(self)@.wf(),
    {
        match c {
            PropCtrl::Color => self.toggle_picker(&calc.typing, &calc.to_hsv),
            PropCtrl::Field(f) => self.focus_field(f, &calc.typing, &calc.whole),
            PropCtrl::Step(f, up) => self.step_field(f, up, &calc.typing, &calc.step),
            PropCtrl::Fill => self.toggle_fill(&calc.typing),
            PropCtrl::Blur => self.toggle_blur(&calc.typing),
        }
    }

    /// A press at a window pixel of a window `sw` wide. Where it ends on the
    /// canvas, [`Editor::on_press_canvas`] goes on, once what lies under the
    /// pointer has been measured.
    pub fn on_press<Z, O, W, T, H, K>(
        &mut self,
        labels: &Labels,
        sw: usize,
        x: usize,
        y: usize,
        calc: &Calc<Z, O, W, T, H, K>,
    ) -> (press: Press) where
        Z: Fn(i64) -> S,
        O: Fn(&str, (i64, i64)) -> Option<(i64, S)>,
        W: Fn(S) -> i64,
        T: Fn((S, bool, (i64, i64))) -> S,
        H: Fn(u32) -> (S, S, S),
        K: Fn((S, S, S), PickerPart) -> ((S, S, S), u32),

        requires
            old(self)@.wf(),
            labels.fit(),
            calculates(*calc),
        ensures
            (final(self)@, press) == old(self)@.bar_press(
                *labels,
                sw as int,
                x as int,
                y as int,
                *calc,
            ),
            final(self)@.wf(),
    {
        if self.picker.is_some() {
            assert(top_fits(0, labels.color, labels.beside(None)));
            let (_, sv, hue) = picker_geom(labels.color);
            if sv.contains(x, y) {
                self.pick_from(PickerPart::Sv, &calc.pick);
            } else if hue.contains(x, y) {
                self.pick_from(PickerPart::Hue, &calc.pick);
            } else {
                self.picker = None;
                self.request_redraw();
            }
            return Press::Done;
        }
        self.commit_field(&calc.typing);
        if y < TOOLBAR_H {
            match self.prop_at(labels, x, y) {
                Some(c) => self.use_prop(c, calc),
                None => {
                    self.pressed = button_at(sw, x, y);
                    self.request_redraw();
                },
            }
            return Press::Done;
        }
        if x < TOOLBAR_W {
            self.pressed = button_at(sw, x, y);
            return Press::Done;
        }
        self.commit_text();
        Press::Canvas
    }
}

} // verus!

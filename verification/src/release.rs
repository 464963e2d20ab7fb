//! The end of a drag, and the editor's other events: moving the pointer,
//! modifiers, the input method, and adding a picture.

use std::rc::Rc;
use vstd::prelude::*;

use crate::annotation::{
    close_by, items_of, near, normalized, rect_of, Annotation, Handle, Item, MosaicMode,
};
use crate::commands::{ink_stroke, inked_item, inks_strokes, merges_lists};
use crate::drag::{travel_fits, Ratio};
use crate::editor::{Drag, EditDrag, Editor, Model, Task, Todo};
use crate::fields::{distance_squared, should_sample_freehand_point, FREEHAND_MIN_STEP};
use crate::measure::{
    boxable, common_rotation, effective_angle, first_named, guide_item, hit_items_in_rect,
    is_guide, marquee_takes, Outline,
};
use crate::order::{ascending, chosen, insert_index};
use crate::pure::{apply, apply2, pure, pure2, result, result2};
use crate::toolbar::{button_at, button_under, EditorBtn, Tool};

verus! {

/// The items without any guide.
pub open spec fn sans_guides<F, S>(items: Seq<Item<F, S>>) -> Seq<Item<F, S>>
    decreases items.len(),
{
    if items.len() == 0 {
        Seq::empty()
    } else if is_guide(items.last()) {
        sans_guides(items.drop_last())
    } else {
        sans_guides(items.drop_last()).push(items.last())
    }
}

/// Takes out every guide.
pub(crate) fn remove_guides<F: Copy, S: Copy>(list: &mut Vec<Annotation<F, S>>)
    ensures
        items_of(final(list)@) == sans_guides(items_of(old(list)@)),
{
    let ghost orig = items_of(list@);
    let n: usize = list.len();
    let mut i: usize = 0;
    let mut j: usize = 0;
    assert(orig.take(0) =~= Seq::<Item<F, S>>::empty());
    assert(items_of(list@) =~= sans_guides(orig.take(0)) + orig.skip(0));
    while i < n
        invariant
            n == orig.len(),
            j <= i <= n,
            j == sans_guides(orig.take(i as int)).len(),
            items_of(list@) == sans_guides(orig.take(i as int)) + orig.skip(i as int),
        decreases n - i,
    {
        let ghost cur = items_of(list@);
        assert(cur.len() == list@.len());
        assert(orig.take(i + 1).drop_last() =~= orig.take(i as int));
        assert(cur[j as int] == orig[i as int]);
        if guide_item(&list[j]) {
            let ghost before = list@;
            let _ = list.remove(j);
            assert(items_of(list@) =~= cur.remove(j as int));
            assert(cur.remove(j as int) =~= sans_guides(orig.take(i + 1)) + orig.skip(i + 1));
        } else {
            assert(cur =~= sans_guides(orig.take(i + 1)) + orig.skip(i + 1));
            j += 1;
        }
        i += 1;
    }
    assert(orig.take(n as int) =~= orig);
    assert(items_of(list@) =~= sans_guides(orig));
}

/// The rectangle's coordinates in the shapes' number type.
pub open spec fn lifted<F, L: Fn(i64) -> F>(lift: L, r: (i64, i64, i64, i64)) -> (F, F, F, F) {
    (result(lift, r.0), result(lift, r.1), result(lift, r.2), result(lift, r.3))
}

/// The rectangle's coordinates in the shapes' number type.
pub fn lift_rect<F: Copy, L: Fn(i64) -> F>(r: (i64, i64, i64, i64), lift: &L) -> (q: (F, F, F, F))
    requires
        pure(*lift),
    ensures
        q == lifted(*lift, r),
{
    (apply(lift, r.0), apply(lift, r.1), apply(lift, r.2), apply(lift, r.3))
}

/// How a mosaic of the current style obscures.
pub open spec fn mode_of(blur: bool) -> MosaicMode {
    if blur {
        MosaicMode::Blur
    } else {
        MosaicMode::Pixelate
    }
}

/// How a release went on.
#[derive(Clone, Copy, Debug, PartialEq, Eq)]
pub enum Release {
    /// All done, but for a task.
    Done(Task),
    /// A marquee from one point to the other, which
    /// [`Editor::marquee_select`] is to resolve.
    Marquee((i64, i64), (i64, i64)),
}

impl<F, S> Model<F, S> {
    /// The item that a drag from `a` to `b` draws with the current tool and
    /// style, for the tools that draw by one drag.
    pub open spec fn drawn<L: Fn(i64) -> F>(self, a: (i64, i64), b: (i64, i64), lift: L) -> Option<
        Item<F, S>,
    > {
        let n = normalized((a.0, a.1, b.0, b.1));
        let r = lifted(lift, n);
        match self.tool {
            Tool::Arrow => Some(
                Item::Arrow { a, b, color: self.style.color, thick: self.style.thick },
            ),
            Tool::Rect => Some(
                Item::Rect {
                    r,
                    color: self.style.color,
                    thick: self.style.thick,
                    rot: self.zero,
                    filled: self.style.filled,
                },
            ),
            Tool::Ellipse => Some(
                Item::Ellipse {
                    r,
                    color: self.style.color,
                    thick: self.style.thick,
                    rot: self.zero,
                    filled: self.style.filled,
                },
            ),
            Tool::Guide => Some(Item::Guide { r: n }),
            Tool::Mosaic => Some(
                Item::Mosaic {
                    r,
                    rot: self.zero,
                    block: self.style.block,
                    mode: mode_of(self.style.blur),
                    seed: self.new_item_seed,
                },
            ),
            _ => None,
        }
    }

    /// Commits the item drawn from `a` to `b` and selects it. A guide replaces
    /// any other and is not selected.
    pub open spec fn push_shape<L: Fn(i64) -> F>(
        self,
        a: (i64, i64),
        b: (i64, i64),
        lift: L,
    ) -> Model<F, S> {
        match self.drawn(a, b, lift) {
            None => self,
            Some(x) => if self.tool == Tool::Guide {
                Model { items: sans_guides(self.items).push(x), ..self.snapshot() }
            } else {
                self.snapshot().with_item(x).select_last()
            },
        }
    }

    /// Commits the freehand stroke, if it has two points or more. It waits to
    /// be merged and is not selected.
    pub open spec fn end_stroke<K>(self, ink: K) -> Model<F, S> where
        K: Fn(Vec<(i64, i64)>, i64, u32) -> Annotation<F, S>,
     {
        let m = Model { drag_start: None, freehand_pts: Seq::empty(), ..self };
        let m = if self.freehand_pts.len() >= 2 {
            let n = m.snapshot().with_item(
                inked_item(ink, self.freehand_pts, self.style.thick, self.style.color),
            );
            Model { freehand_batch: m.freehand_batch.push(m.items.len() as usize), ..n }
        } else {
            m
        };
        m.drop_cache().redraw()
    }

    /// Ends an edit drag. `frame` is the selection's frame where the drag left
    /// it, if the drag has one.
    pub open spec fn end_edit(self, frame: Option<((F, F, F, F), F)>) -> Model<F, S> {
        let m = match frame {
            Some((rect, rot)) => Model { group_rect: rect, group_rot: rot, ..self },
            None => self,
        };
        Model { edit: Drag::Idle, ..m }.redraw()
    }

    /// The button was released at world point `p`, with `button` under the
    /// pointer.
    pub open spec fn release<M, K, L>(
        self,
        button: Option<EditorBtn>,
        p: (i64, i64),
        frame: Option<((F, F, F, F), F)>,
        merge: M,
        ink: K,
        lift: L,
    ) -> (Model<F, S>, Release) where
        M: Fn(Vec<Annotation<F, S>>) -> Annotation<F, S>,
        K: Fn(Vec<(i64, i64)>, i64, u32) -> Annotation<F, S>,
        L: Fn(i64) -> F,
     {
        let done = Release::Done(Task::Nothing);
        if self.picker_drag is Some {
            (Model { picker_drag: None, ..self }, done)
        } else if let Some(btn) = self.pressed {
            let m = Model { pressed: None, ..self };
            if button == Some(btn) {
                let (n, task) = m.activate(btn, merge);
                (n, Release::Done(task))
            } else {
                (m, done)
            }
        } else if self.edit != Drag::<F, S>::Idle {
            (self.end_edit(frame), done)
        } else if self.dragging {
            let m = Model { dragging: false, ..self };
            if self.tool == Tool::Draw {
                (m.end_stroke(ink), done)
            } else {
                match self.drag_start {
                    None => (m, done),
                    Some(a) => {
                        let m = Model { drag_start: None, ..m };
                        if self.tool == Tool::Select {
                            (m, Release::Marquee(a, p))
                        } else {
                            (m.push_shape(a, p, lift).redraw(), done)
                        }
                    },
                }
            }
        } else {
            (self, done)
        }
    }

    /// Whether `after` is this state after a marquee from `a` to `b`. A short
    /// drag counts as a click on nothing.
    pub open spec fn marquee(
        self,
        a: (i64, i64),
        b: (i64, i64),
        tol: int,
        outlines: Seq<Outline>,
        crosses: Seq<bool>,
        after: Model<F, S>,
    ) -> bool {
        if close_by(a, b, tol) {
            after == (if self.shift {
                self.redraw()
            } else {
                self.deselect().redraw()
            })
        } else {
            let rect = normalized((a.0, a.1, b.0, b.1));
            &&& after == (Model { selected: after.selected, ..self }.reframe().redraw())
            &&& ascending(after.selected)
            &&& forall|k: int| #[trigger]
                chosen(after.selected, k) == ((self.shift && chosen(self.selected, k)) || (0 <= k
                    < self.items.len() && marquee_takes(
                    self.items[k],
                    outlines[k],
                    crosses[k],
                    rect,
                )))
        }
    }

    /// Whether a picture centered there fits within the coordinates' range.
    pub open spec fn image_fits(center: (i64, i64), w: i64, h: i64) -> bool {
        w > 0 && h > 0 ==> {
            &&& i64::MIN <= center.0 - w / 2
            &&& center.0 - w / 2 + w <= i64::MAX
            &&& i64::MIN <= center.1 - h / 2
            &&& center.1 - h / 2 + h <= i64::MAX
        }
    }

    /// Adds a picture centered there at its own size, and selects it with the
    /// select tool. A text being typed is committed above it. A picture
    /// without pixels is not added.
    pub open spec fn add_image<L: Fn(i64) -> F>(
        self,
        center: (i64, i64),
        w: i64,
        h: i64,
        pixels: Seq<u32>,
        lift: L,
    ) -> Model<F, S> {
        if w <= 0 || h <= 0 {
            self
        } else {
            let x = center.0 - w / 2;
            let y = center.1 - h / 2;
            let m = self.snapshot().with_item(
                Item::Image {
                    r: lifted(lift, (x as i64, y as i64, (x + w) as i64, (y + h) as i64)),
                    src_w: w,
                    src_h: h,
                    pixels,
                    rot: self.zero,
                },
            ).commit_text();
            Model { tool: Tool::Select, edit: Drag::Idle, ..m }.select_only(
                self.items.len() as int,
            ).redraw()
        }
    }

    /// Adds a point to a freehand stroke being drawn, if it is far enough from
    /// the last one.
    pub open spec fn sample(self, p: (i64, i64)) -> Model<F, S> {
        if self.dragging && self.tool == Tool::Draw && (self.freehand_pts.len() == 0
            || distance_squared(p, self.freehand_pts.last()) >= FREEHAND_MIN_STEP
            * FREEHAND_MIN_STEP) {
            Model { freehand_pts: self.freehand_pts.push(p), ..self }
        } else {
            self
        }
    }

    /// The pointer moved to world point `p` without dragging an item or the
    /// picker, with `button` under it.
    pub open spec fn hover_at(self, p: (i64, i64), button: Option<EditorBtn>) -> Model<F, S> {
        let m = self.sample(p);
        let m = if button != m.hover {
            Model { hover: button, ..m }.redraw()
        } else if m.dragging || (m.tool == Tool::Polyline && m.polyline_pts.len() > 0) {
            m.redraw()
        } else {
            m
        };
        Model { todo: Todo { cursor: true, ..m.todo }, ..m }
    }
}

impl<F: Copy, S: Copy> Editor<F, S> {
    /// The item that a drag from `a` to `b` draws with the current tool and
    /// style, for the tools that draw by one drag.
    pub fn drawn<L: Fn(i64) -> F>(&self, a: (i64, i64), b: (i64, i64), lift: &L) -> (x: Option<
        Annotation<F, S>,
    >)
        requires
            pure(*lift),
        ensures
            match x {
                Some(v) => self@.drawn(a, b, *lift) == Some(v@),
                None => self@.drawn(a, b, *lift) is None,
            },
    {
        let n = rect_of(a, b);
        match self.tool {
            Tool::Arrow => Some(
                Annotation::Arrow { a, b, color: self.style.color, thick: self.style.thick },
            ),
            Tool::Rect => Some(
                Annotation::Rect {
                    r: lift_rect(n, lift),
                    color: self.style.color,
                    thick: self.style.thick,
                    rot: self.zero,
                    filled: self.style.filled,
                },
            ),
            Tool::Ellipse => Some(
                Annotation::Ellipse {
                    r: lift_rect(n, lift),
                    color: self.style.color,
                    thick: self.style.thick,
                    rot: self.zero,
                    filled: self.style.filled,
                },
            ),
            Tool::Guide => Some(Annotation::Guide { r: n }),
            Tool::Mosaic => Some(
                Annotation::Mosaic {
                    r: lift_rect(n, lift),
                    rot: self.zero,
                    block: self.style.block,
                    mode: if self.style.blur {
                        MosaicMode::Blur
                    } else {
                        MosaicMode::Pixelate
                    },
                    seed: self.new_item_seed,
                },
            ),
            _ => None,
        }
    }

    /// Commits the item drawn from `a` to `b` and selects it. A guide replaces
    /// any other and is not selected.
    pub fn push_shape<L: Fn(i64) -> F>(&mut self, a: (i64, i64), b: (i64, i64), lift: &L)
        requires
            old(self)@.wf(),
            pure(*lift),
        ensures
            final(self)@ == old(self)@.push_shape(a, b, *lift),
            final(self)@.wf(),
    {
        if let Some(x) = self.drawn(a, b, lift) {
            self.push_undo();
            if self.tool == Tool::Guide {
                remove_guides(&mut self.annotations);
                self.add_item(x);
            } else {
                self.add_item(x);
                self.select_last();
            }
        }
    }

    /// Commits the freehand stroke, if it has two points or more.
    fn end_stroke<K>(&mut self, ink: &K) where
        K: Fn(Vec<(i64, i64)>, i64, u32) -> Annotation<F, S>,

        requires
            old(self)@.wf(),
            inks_strokes(*ink),
        ensures
            final(self)@ == old(self)@.end_stroke(*ink),
            final(self)@.wf(),
    {
        self.drag_start = None;
        let points = crate::annotation::copy_points(&self.freehand_pts);
        self.freehand_pts = Vec::new();
        if points.len() >= 2 {
            self.push_undo();
            let n: usize = self.annotations.len();
            let a = ink_stroke(ink, points, self.style.thick, self.style.color);
            self.add_item(a);
            self.freehand_batch.push(n);
        }
        self.todo.drop_cache = true;
        self.request_redraw();
    }

    /// Ends an edit drag, which has been followed already.
    fn end_edit(&mut self, frame: Option<((F, F, F, F), F)>)
        requires
            old(self)@.wf(),
        ensures
            final(self)@ == old(self)@.end_edit(frame),
            final(self)@.wf(),
    {
        if let Some((rect, rot)) = frame {
            self.group_rect = rect;
            self.group_rot = rot;
        }
        self.edit = EditDrag::Idle;
        self.request_redraw();
    }

    /// The left button was released over window pixel `(x, y)`, at world point
    /// `p`. The end of an edit keeps the frame that the drag has there.
    pub fn on_release<P, R, G, D, B, M, K, L>(
        &mut self,
        sw: usize,
        x: usize,
        y: usize,
        p: (i64, i64),
        frames: &FrameCalc<P, R, G, D, B>,
        merge: &M,
        ink: &K,
        lift: &L,
    ) -> (r: Release) where
        P: Fn(F, i64) -> F,
        R: Fn(((F, F, F, F), Handle, F, Ratio)) -> (F, F, F, F),
        G: Fn(((F, F), F, bool)) -> F,
        D: Fn(F, F) -> F,
        B: Fn(usize) -> (F, F, F, F),
        M: Fn(Vec<Annotation<F, S>>) -> Annotation<F, S>,
        K: Fn(Vec<(i64, i64)>, i64, u32) -> Annotation<F, S>,
        L: Fn(i64) -> F,

        requires
            old(self)@.wf(),
            old(self)@.picker_drag is None && old(self)@.pressed is None ==> old(self)@.frame_fits(
                p,
            ),
            computes_frames::<F, P, R, G, D, B>(*frames),
            merges_lists(*merge),
            inks_strokes(*ink),
            pure(*lift),
        ensures
            (final(self)@, r) == old(self)@.release(
                button_under(sw as int, x as int, y as int),
                p,
                old(self)@.dragged_frame(p, *frames),
                *merge,
                *ink,
                *lift,
            ),
            final(self)@.wf(),
    {
        if self.picker_drag.is_some() {
            self.picker_drag = None;
            return Release::Done(Task::Nothing);
        }
        if let Some(btn) = self.pressed {
            self.pressed = None;
            let still: bool = match button_at(sw, x, y) {
                Some(b) => b == btn,
                None => false,
            };
            if still {
                let task = self.activate(btn, merge);
                return Release::Done(task);
            }
            return Release::Done(Task::Nothing);
        }
        if !matches!(self.edit, EditDrag::Idle) {
            let frame = self.dragged_frame(p, frames);
            self.end_edit(frame);
        } else if self.dragging {
            self.dragging = false;
            if self.tool == Tool::Draw {
                self.end_stroke(ink);
            } else if let Some(a) = self.drag_start {
                self.drag_start = None;
                if self.tool == Tool::Select {
                    return Release::Marquee(a, p);
                }
                self.push_shape(a, p, lift);
                self.request_redraw();
            }
        }
        Release::Done(Task::Nothing)
    }

    /// Selects what a marquee from `a` to `b` takes; with Shift it is added. A
    /// short drag counts as a click on nothing.
    pub fn marquee_select(
        &mut self,
        a: (i64, i64),
        b: (i64, i64),
        tol: i64,
        outlines: &Vec<Outline>,
        crosses: &Vec<bool>,
    )
        requires
            old(self)@.wf(),
            outlines@.len() == old(self)@.items.len(),
            crosses@.len() == old(self)@.items.len(),
            forall|i: int|
                0 <= i < old(self)@.items.len() ==> boxable(
                    #[trigger] old(self)@.items[i],
                    outlines@[i],
                ),
        ensures
            old(self)@.marquee(a, b, tol as int, outlines@, crosses@, final(self)@),
            final(self)@.wf(),
    {
        if near(a, b, tol) {
            if !self.shift {
                self.deselect();
            }
            self.request_redraw();
            return;
        }
        proof {
            assert forall|i: int| 0 <= i < self.annotations@.len() implies boxable(
                #[trigger] self.annotations@[i]@,
                outlines@[i],
            ) by {
                assert(self@.items[i] == self.annotations@[i]@);
                assert(boxable(self@.items[i], outlines@[i]));
            }
        }
        let ghost before = self@;
        let rect = rect_of(a, b);
        let hits = hit_items_in_rect(&self.annotations, rect, outlines, crosses);
        if self.shift {
            let mut t: usize = 0;
            while t < hits.len()
                invariant
                    t <= hits@.len(),
                    self@ == (Model { selected: self@.selected, ..before }),
                    ascending(self@.selected),
                    forall|k: int| #[trigger]
                        chosen(self@.selected, k) == (chosen(before.selected, k) || chosen(
                            hits@.take(t as int),
                            k,
                        )),
                decreases hits.len() - t,
            {
                let ghost sel = self@.selected;
                insert_index(&mut self.selected, hits[t]);
                proof {
                    let upto = hits@.take(t as int);
                    let next = hits@.take(t + 1);
                    assert forall|k: int| #[trigger]
                        chosen(self@.selected, k) == (chosen(before.selected, k) || chosen(
                            next,
                            k,
                        )) by {
                        assert(chosen(sel, k) == (chosen(before.selected, k) || chosen(upto, k)));
                        if chosen(upto, k) {
                            let s = choose|s: int| 0 <= s < upto.len() && upto[s] == k;
                            assert(next[s] == k);
                        }
                        if k == hits@[t as int] {
                            assert(next[t as int] == k);
                        }
                        if chosen(next, k) {
                            let s = choose|s: int| 0 <= s < next.len() && next[s] == k;
                            if s < t {
                                assert(upto[s] == k);
                            }
                        }
                    }
                }
                t += 1;
            }
            assert(hits@.take(hits@.len() as int) =~= hits@);
        } else {
            self.selected = hits;
        }
        proof {
            assert forall|k: int| 0 <= k < before.items.len() implies #[trigger] before.items[k]
                == self.annotations@[k]@ by {}
        }
        self.request_reframe();
        self.request_redraw();
    }

    /// Whether a picture centered there fits within the coordinates' range.
    pub fn can_add_image(center: (i64, i64), w: i64, h: i64) -> (r: bool)
        ensures
            r == Model::<F, S>::image_fits(center, w, h),
    {
        if w <= 0 || h <= 0 {
            return true;
        }
        let x: i128 = center.0 as i128 - (w / 2) as i128;
        let y: i128 = center.1 as i128 - (h / 2) as i128;
        x >= i64::MIN as i128 && x + w as i128 <= i64::MAX as i128 && y >= i64::MIN as i128 && y
            + h as i128 <= i64::MAX as i128
    }

    /// Adds a picture centered there at its own size, and selects it with the
    /// select tool. A text being typed is committed above it. A picture
    /// without pixels is not added.
    pub fn add_image<L: Fn(i64) -> F>(
        &mut self,
        center: (i64, i64),
        src_w: i64,
        src_h: i64,
        pixels: Rc<Vec<u32>>,
        lift: &L,
    )
        requires
            old(self)@.wf(),
            Model::<F, S>::image_fits(center, src_w, src_h),
            pure(*lift),
        ensures
            final(self)@ == old(self)@.add_image(center, src_w, src_h, pixels@, *lift),
            src_w > 0 && src_h > 0 ==> final(self)@.selected == seq![
                old(self)@.items.len() as usize,
            ] && final(self)@.items[old(self)@.items.len() as int] is Image,
            final(self)@.wf(),
    {
        if src_w <= 0 || src_h <= 0 {
            return;
        }
        self.push_undo();
        let x: i64 = center.0 - src_w / 2;
        let y: i64 = center.1 - src_h / 2;
        let a = Annotation::Image {
            r: lift_rect((x, y, x + src_w, y + src_h), lift),
            src_w,
            src_h,
            pixels,
            rot: self.zero,
        };
        let at: usize = self.annotations.len();
        self.add_item(a);
        self.commit_text();
        self.tool = Tool::Select;
        self.edit = EditDrag::Idle;
        self.select_only(at);
        self.request_redraw();
    }

    /// Adds a point to a freehand stroke being drawn, if it is far enough from
    /// the last one.
    fn sample(&mut self, p: (i64, i64))
        ensures
            final(self)@ == old(self)@.sample(p),
    {
        if self.dragging && self.tool == Tool::Draw {
            let n: usize = self.freehand_pts.len();
            if n == 0 || should_sample_freehand_point(self.freehand_pts[n - 1], p) {
                self.freehand_pts.push(p);
            }
        }
    }

    /// The pointer moved to window pixel `(x, y)`, world point `p`, without
    /// dragging an item or the picker.
    pub fn on_hover(&mut self, sw: usize, x: usize, y: usize, p: (i64, i64))
        requires
            old(self)@.wf(),
        ensures
            final(self)@ == old(self)@.hover_at(p, button_under(sw as int, x as int, y as int)),
            final(self)@.wf(),
    {
        self.sample(p);
        let button = button_at(sw, x, y);
        let same: bool = match (button, self.hover) {
            (Some(b), Some(h)) => b == h,
            (None, None) => true,
            _ => false,
        };
        if !same {
            self.hover = button;
            self.request_redraw();
        } else if self.dragging || (self.tool == Tool::Polyline && !self.polyline_pts.is_empty()) {
            self.request_redraw();
        }
        self.todo.cursor = true;
    }

    /// The modifiers changed.
    pub fn set_modifiers(&mut self, ctrl: bool, shift: bool, alt: bool)
        ensures
            final(self)@ == (Model { ctrl, shift, alt, ..old(self)@ }),
    {
        self.ctrl = ctrl;
        self.shift = shift;
        self.alt = alt;
    }

    /// The input method shows a text it has not committed.
    pub fn on_ime_preedit(&mut self, text: String)
        ensures
            final(self)@ == (Model { ime_preedit: text@, ..old(self)@ }.redraw()),
    {
        self.ime_preedit = text;
        self.request_redraw();
    }

    /// The input method committed a text, which is added to the one being
    /// typed.
    pub fn on_ime_commit(&mut self, text: String)
        ensures
            final(self)@ == (Model {
                ime_preedit: Seq::empty(),
                editing: match old(self)@.editing {
                    Some((pos, buf)) => Some((pos, buf + text@)),
                    None => None,
                },
                ..old(self)@
            }.redraw()),
    {
        self.ime_preedit = String::new();
        if let Some((pos, mut buf)) = self.editing.take() {
            buf.append(text.as_str());
            self.editing = Some((pos, buf));
        }
        self.request_redraw();
    }

    /// The input method was switched off.
    pub fn on_ime_disabled(&mut self)
        ensures
            final(self)@ == (Model { ime_preedit: Seq::empty(), ..old(self)@ }.redraw()),
    {
        self.ime_preedit = String::new();
        self.request_redraw();
    }
}

// ---- The selection's frame ----

impl<F, S> Model<F, S> {
    /// Whether the movement of a group drag to `p` fits.
    pub open spec fn frame_fits(self, p: (i64, i64)) -> bool {
        self.edit matches Drag::GroupMove { grab, .. } ==> travel_fits(grab, p)
    }

    /// The selection's frame at `p`, during a drag that carries it along.
    pub open spec fn active_group_frame<P, R, G, D, B>(
        self,
        p: (i64, i64),
        shift: P,
        resize: R,
        swing: G,
        sum: D,
        boxed: B,
    ) -> Option<((F, F, F, F), F)> where
        P: Fn(F, i64) -> F,
        R: Fn(((F, F, F, F), Handle, F, Ratio)) -> (F, F, F, F),
        G: Fn(((F, F), F, bool)) -> F,
        D: Fn(F, F) -> F,
        B: Fn(usize) -> (F, F, F, F),
     {
        let first = self.first_place();
        match self.edit {
            Drag::GroupMove { grab, .. } => {
                let dx = (p.0 - grab.0) as i64;
                let dy = (p.1 - grab.1) as i64;
                let r = self.group_rect;
                Some(
                    (
                        (
                            result2(shift, r.0, dx),
                            result2(shift, r.1, dy),
                            result2(shift, r.2, dx),
                            result2(shift, r.3, dy),
                        ),
                        self.group_rot,
                    ),
                )
            },
            Drag::GroupHandle { h, orig_rect, rot, .. } => Some(
                (result(resize, (orig_rect, h, rot, Ratio::Free)), rot),
            ),
            Drag::GroupRotate { center, start_angle, orig_rect, orig_rot, .. } => Some(
                (orig_rect, result2(sum, orig_rot, result(swing, (center, start_angle, false)))),
            ),
            Drag::PolylinePoint { .. } => match first {
                Some(i) => Some((result(boxed, i as usize), self.zero)),
                None => None,
            },
            Drag::Move { .. } => match first {
                Some(i) if self.items[i] is Polyline => Some(
                    (result(boxed, i as usize), self.zero),
                ),
                _ => None,
            },
            _ => None,
        }
    }
}

/// How the frame of a drag is computed. `sum` adds angles, `boxed` gives the
/// box of the item at a place; the others are those of
/// [`Editor::apply_edit`].
pub struct FrameCalc<P, R, G, D, B> {
    pub shift: P,
    pub resize: R,
    pub swing: G,
    pub sum: D,
    pub boxed: B,
}

/// Whether every part computes.
pub open spec fn computes_frames<F, P, R, G, D, B>(c: FrameCalc<P, R, G, D, B>) -> bool where
    P: Fn(F, i64) -> F,
    R: Fn(((F, F, F, F), Handle, F, Ratio)) -> (F, F, F, F),
    G: Fn(((F, F), F, bool)) -> F,
    D: Fn(F, F) -> F,
    B: Fn(usize) -> (F, F, F, F),
 {
    pure2(c.shift) && pure(c.resize) && pure(c.swing) && pure2(c.sum) && pure(c.boxed)
}

impl<F, S> Model<F, S> {
    /// The selection's frame at `p`, during a drag that carries it along.
    pub open spec fn dragged_frame<P, R, G, D, B>(
        self,
        p: (i64, i64),
        c: FrameCalc<P, R, G, D, B>,
    ) -> Option<((F, F, F, F), F)> where
        P: Fn(F, i64) -> F,
        R: Fn(((F, F, F, F), Handle, F, Ratio)) -> (F, F, F, F),
        G: Fn(((F, F), F, bool)) -> F,
        D: Fn(F, F) -> F,
        B: Fn(usize) -> (F, F, F, F),
     {
        self.active_group_frame(p, c.shift, c.resize, c.swing, c.sum, c.boxed)
    }
}

impl<F: Copy, S: Copy> Editor<F, S> {
    /// The selection's frame with the pointer at `p`, during a drag that
    /// carries it along.
    pub(crate) fn dragged_frame<P, R, G, D, B>(
        &self,
        p: (i64, i64),
        c: &FrameCalc<P, R, G, D, B>,
    ) -> (frame: Option<((F, F, F, F), F)>) where
        P: Fn(F, i64) -> F,
        R: Fn(((F, F, F, F), Handle, F, Ratio)) -> (F, F, F, F),
        G: Fn(((F, F), F, bool)) -> F,
        D: Fn(F, F) -> F,
        B: Fn(usize) -> (F, F, F, F),

        requires
            self@.frame_fits(p),
            computes_frames::<F, P, R, G, D, B>(*c),
        ensures
            frame == self@.dragged_frame(p, *c),
    {
        self.active_group_frame(p, &c.shift, &c.resize, &c.swing, &c.sum, &c.boxed)
    }

    /// Whether the movement of a group drag to `p` fits.
    pub fn can_frame(&self, p: (i64, i64)) -> (r: bool)
        ensures
            r == self@.frame_fits(p),
    {
        match &self.edit {
            EditDrag::GroupMove { grab, .. } => p.0.checked_sub(grab.0).is_some()
                && p.1.checked_sub(grab.1).is_some(),
            _ => true,
        }
    }

    /// The selection's frame at world point `p`, during a drag that carries it
    /// along: for display, and to keep once the drag ends. Taken from the drag
    /// itself, so that it does not drift. `sum` adds angles, `boxed` gives the
    /// box of the item at a place; the others are those of
    /// [`Editor::apply_edit`].
    pub fn active_group_frame<P, R, G, D, B>(
        &self,
        p: (i64, i64),
        shift: &P,
        resize: &R,
        swing: &G,
        sum: &D,
        boxed: &B,
    ) -> (frame: Option<((F, F, F, F), F)>) where
        P: Fn(F, i64) -> F,
        R: Fn(((F, F, F, F), Handle, F, Ratio)) -> (F, F, F, F),
        G: Fn(((F, F), F, bool)) -> F,
        D: Fn(F, F) -> F,
        B: Fn(usize) -> (F, F, F, F),

        requires
            self@.frame_fits(p),
            pure2(*shift),
            pure(*resize),
            pure(*swing),
            pure2(*sum),
            pure(*boxed),
        ensures
            frame == self@.active_group_frame(p, *shift, *resize, *swing, *sum, *boxed),
    {
        match &self.edit {
            EditDrag::GroupMove { grab, .. } => {
                let dx: i64 = p.0 - grab.0;
                let dy: i64 = p.1 - grab.1;
                let r = self.group_rect;
                Some(
                    (
                        (
                            apply2(shift, r.0, dx),
                            apply2(shift, r.1, dy),
                            apply2(shift, r.2, dx),
                            apply2(shift, r.3, dy),
                        ),
                        self.group_rot,
                    ),
                )
            },
            EditDrag::GroupHandle { h, orig_rect, rot, .. } => Some(
                (apply(resize, (*orig_rect, *h, *rot, Ratio::Free)), *rot),
            ),
            EditDrag::GroupRotate { center, start_angle, orig_rect, orig_rot, .. } => {
                let delta = apply(swing, (*center, *start_angle, false));
                Some((*orig_rect, apply2(sum, *orig_rot, delta)))
            },
            EditDrag::PolylinePoint { .. } => {
                if self.selected.is_empty() || self.selected[0] >= self.annotations.len() {
                    None
                } else {
                    Some((apply(boxed, self.selected[0]), self.zero))
                }
            },
            EditDrag::Move { .. } => {
                if self.selected.is_empty() || self.selected[0] >= self.annotations.len() {
                    return None;
                }
                let i: usize = self.selected[0];
                match &self.annotations[i] {
                    Annotation::Polyline { .. } => Some((apply(boxed, i), self.zero)),
                    _ => None,
                }
            },
            _ => None,
        }
    }

    /// Measures the selection's frame anew: its angle is the one that the
    /// selected items share, else upright, and `frame_at` gives the frame that
    /// holds them at an angle.
    pub fn recompute_group_frame<E, B>(&mut self, same: &E, frame_at: &B) where
        E: Fn(F, F) -> bool,
        B: Fn(F) -> Option<(F, F, F, F)>,

        requires
            old(self)@.wf(),
            forall|p: F, q: F| call_requires(*same, (p, q)),
            pure(*frame_at),
        ensures
            final(self)@ == (Model {
                group_rot: final(self)@.group_rot,
                group_rect: match result(*frame_at, final(self)@.group_rot) {
                    Some(r) => r,
                    None => (old(self)@.zero, old(self)@.zero, old(self)@.zero, old(self)@.zero),
                },
                ..old(self)@
            }),
            shared_angle(
                old(self)@.items,
                old(self)@.selected,
                old(self)@.zero,
                *same,
                final(self)@.group_rot,
            ),
            final(self)@.wf(),
    {
        let rot = common_rotation(
            &self.annotations,
            self.selected.as_slice(),
            self.zero,
            same,
        );
        proof {
            lemma_shared_angle(
                self.annotations@,
                self.selected@,
                self.zero,
                *same,
                rot,
            );
        }
        self.group_rot = rot;
        self.group_rect = match apply(frame_at, rot) {
            Some(r) => r,
            None => (self.zero, self.zero, self.zero, self.zero),
        };
    }
}

/// Whether `out` is the angle the selected items share: the first one's if
/// `same` finds every other equal to it, else upright.
pub open spec fn shared_angle<F, S, E: Fn(F, F) -> bool>(
    items: Seq<Item<F, S>>,
    selected: Seq<usize>,
    zero: F,
    same: E,
    out: F,
) -> bool {
    match first_named(selected, items.len() as int, 0) {
        None => out == zero,
        Some(k) => {
            let c = effective_angle(items[k], zero);
            ||| out == c && forall|t: int|
                0 <= t < selected.len() && #[trigger] selected[t] < items.len() && selected[t] != k
                    ==> call_ensures(
                    same,
                    (c, effective_angle(items[selected[t] as int], zero)),
                    true,
                )
            ||| out == zero && exists|t: int|
                0 <= t < selected.len() && #[trigger] selected[t] < items.len() && call_ensures(
                    same,
                    (c, effective_angle(items[selected[t] as int], zero)),
                    false,
                )
        },
    }
}

proof fn lemma_first_named(selected: Seq<usize>, len: int, t: int)
    requires
        0 <= t,
    ensures
        first_named(selected, len, t) matches Some(k) ==> 0 <= k < len,
    decreases selected.len() - t,
{
    if t < selected.len() {
        lemma_first_named(selected, len, t + 1);
    }
}

proof fn lemma_shared_angle<F, S, E: Fn(F, F) -> bool>(
    list: Seq<Annotation<F, S>>,
    selected: Seq<usize>,
    zero: F,
    same: E,
    out: F,
)
    requires
        match first_named(selected, list.len() as int, 0) {
            None => out == zero,
            Some(k) => {
                let c = effective_angle(list[k]@, zero);
                ||| out == c && forall|t: int|
                    0 <= t < selected.len() && #[trigger] selected[t] < list.len() && selected[t]
                        != k ==> call_ensures(
                        same,
                        (c, effective_angle(list[selected[t] as int]@, zero)),
                        true,
                    )
                ||| out == zero && exists|t: int|
                    0 <= t < selected.len() && #[trigger] selected[t] < list.len()
                        && call_ensures(
                        same,
                        (c, effective_angle(list[selected[t] as int]@, zero)),
                        false,
                    )
            },
        },
    ensures
        shared_angle(items_of(list), selected, zero, same, out),
{
    let items = items_of(list);
    lemma_first_named(selected, items.len() as int, 0);
    assert(forall|k: int| 0 <= k < list.len() ==> #[trigger] items[k] == list[k]@);
    if let Some(k) = first_named(selected, items.len() as int, 0) {
        let c = effective_angle(items[k], zero);
        assert(c == effective_angle(list[k]@, zero));
        assert forall|t: int|
            0 <= t < selected.len() && #[trigger] selected[t] < items.len() implies effective_angle(
            items[selected[t] as int],
            zero,
        ) == effective_angle(list[selected[t] as int]@, zero) by {}
    }
}

} // verus!

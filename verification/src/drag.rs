//! What a drag does to the editor's items while it goes on, and what its end
//! leaves behind.

use vstd::prelude::*;

use crate::annotation::{items_of, normalized, pulled, resize_rect, Annotation, Handle, Item};
use crate::commands::{move_item, moved};
use crate::editor::{origs_of, Drag, EditDrag, Editor, Model};
use crate::measure::guide_item;
use crate::pure::{apply, pure, pure2, result};
use crate::transform::{
    can_translate, item_movable, rotate_annotation_around, rotated, scale_annotation_rotated,
    scaled,
};

verus! {

/// The proportions that a resize keeps.
#[derive(Clone, Copy, Debug, PartialEq, Eq, Structural)]
pub enum Ratio {
    /// Any.
    Free,
    /// Those of the frame when it was grabbed.
    Own,
    /// Those of a picture of this size.
    Source(i64, i64),
}

/// The proportions that a resize of the item keeps: with Shift a picture
/// keeps its source's, anything else its own.
pub open spec fn kept_ratio<F, S>(a: Item<F, S>, shift: bool) -> Ratio {
    if !shift {
        Ratio::Free
    } else {
        match a {
            Item::Image { src_w, src_h, .. } => if src_h > 0 {
                Ratio::Source(src_w, src_h)
            } else {
                Ratio::Free
            },
            _ => Ratio::Own,
        }
    }
}

fn ratio_of<F: Copy, S: Copy>(a: &Annotation<F, S>, shift: bool) -> (r: Ratio)
    ensures
        r == kept_ratio(a@, shift),
{
    if !shift {
        Ratio::Free
    } else {
        match a {
            Annotation::Image { src_w, src_h, .. } => if *src_h > 0 {
                Ratio::Source(*src_w, *src_h)
            } else {
                Ratio::Free
            },
            _ => Ratio::Own,
        }
    }
}

/// The larger part of a movement: with Shift only the axis moved along
/// further counts, the horizontal one if they are equal.
pub open spec fn snapped(dx: int, dy: int, shift: bool) -> (int, int) {
    if !shift {
        (dx, dy)
    } else if abs(dx) >= abs(dy) {
        (dx, 0)
    } else {
        (0, dy)
    }
}

/// The size of a number.
pub open spec fn abs(v: int) -> int {
    if v < 0 {
        -v
    } else {
        v
    }
}

/// The movement from `grab` to `p`.
pub open spec fn travel(grab: (i64, i64), p: (i64, i64), shift: bool) -> (int, int) {
    snapped(p.0 - grab.0, p.1 - grab.1, shift)
}

/// Whether the movement from `grab` to `p` fits.
pub open spec fn travel_fits(grab: (i64, i64), p: (i64, i64)) -> bool {
    i64::MIN <= p.0 - grab.0 <= i64::MAX && i64::MIN <= p.1 - grab.1 <= i64::MAX
}

fn can_travel(grab: (i64, i64), p: (i64, i64)) -> (r: bool)
    ensures
        r == travel_fits(grab, p),
{
    p.0.checked_sub(grab.0).is_some() && p.1.checked_sub(grab.1).is_some()
}

/// The movement from `grab` to `p`.
fn travelled(grab: (i64, i64), p: (i64, i64), shift: bool) -> (d: (i64, i64))
    requires
        travel_fits(grab, p),
    ensures
        (d.0 as int, d.1 as int) == travel(grab, p, shift),
{
    let dx: i64 = p.0 - grab.0;
    let dy: i64 = p.1 - grab.1;
    if !shift {
        (dx, dy)
    } else {
        let ax: i128 = if dx < 0 {
            -(dx as i128)
        } else {
            dx as i128
        };
        let ay: i128 = if dy < 0 {
            -(dy as i128)
        } else {
            dy as i128
        };
        if ax >= ay {
            (dx, 0)
        } else {
            (0, dy)
        }
    }
}

/// The items with each grabbed one replaced by what it became, for the first
/// `n`. Places beyond the items are skipped.
pub open spec fn placed<F, S>(
    items: Seq<Item<F, S>>,
    origs: Seq<(usize, Item<F, S>)>,
    became: Seq<Item<F, S>>,
    n: int,
) -> Seq<Item<F, S>>
    decreases n,
{
    if n <= 0 {
        items
    } else {
        let rest = placed(items, origs, became, n - 1);
        let i = origs[n - 1].0;
        if i < rest.len() {
            rest.update(i as int, became[n - 1])
        } else {
            rest
        }
    }
}

/// What each grabbed item became by a movement.
pub open spec fn all_moved<F, S, P: Fn(F, i64) -> F>(
    shift: P,
    origs: Seq<(usize, Item<F, S>)>,
    d: (int, int),
) -> Seq<Item<F, S>> {
    origs.map_values(|e: (usize, Item<F, S>)| moved(shift, e.1, d.0 as i64, d.1 as i64))
}

/// Whether every grabbed item fits after a movement.
pub open spec fn all_movable<F, S>(origs: Seq<(usize, Item<F, S>)>, d: (int, int)) -> bool {
    forall|k: int| 0 <= k < origs.len() ==> item_movable((#[trigger] origs[k]).1, d.0, d.1)
}

/// A group transformation that a drag asks for.
#[derive(Debug)]
pub enum Follow<F> {
    /// The drag has been followed.
    Done,
    /// Every grabbed item goes from one frame to another, at an angle.
    Scale { from: (F, F, F, F), to: (F, F, F, F), rot: F },
    /// Every grabbed item turns about a center by an angle.
    Turn { center: (F, F), delta: F },
}

impl<F, S> Model<F, S> {
    /// The place of the first selected item, if it exists.
    pub open spec fn first_place(self) -> Option<int> {
        if self.selected.len() > 0 && self.selected[0] < self.items.len() {
            Some(self.selected[0] as int)
        } else {
            None
        }
    }

    /// Whether following the drag to `p` stays within the coordinates' range.
    pub open spec fn edit_fits(self, p: (i64, i64)) -> bool {
        match self.edit {
            Drag::Move { grab, orig } => travel_fits(grab, p) && {
                let d = travel(grab, p, self.shift);
                item_movable(orig, d.0, d.1)
            },
            Drag::GroupMove { grab, origs } => travel_fits(grab, p) && all_movable(
                origs,
                travel(grab, p, self.shift),
            ),
            _ => true,
        }
    }

    /// The first selected item replaced.
    pub open spec fn with_first(self, a: Item<F, S>) -> Model<F, S> {
        Model { items: self.items.update(self.first_place()->0, a), ..self }
    }

    /// What the dragged item becomes at `p`, for a drag of one item.
    pub open spec fn dragged<P, R, A>(
        self,
        a: Item<F, S>,
        p: (i64, i64),
        shift: P,
        resize: R,
        aim: A,
    ) -> Item<F, S> where
        P: Fn(F, i64) -> F,
        R: Fn(((F, F, F, F), Handle, F, Ratio)) -> (F, F, F, F),
        A: Fn(((F, F), bool)) -> Option<F>,
     {
        match self.edit {
            Drag::Move { grab, orig } => {
                let d = travel(grab, p, self.shift);
                moved(shift, orig, d.0 as i64, d.1 as i64)
            },
            Drag::RectHandle { h, orig } => match a {
                Item::Guide { .. } => Item::Guide { r: normalized(pulled(orig, h, p)) },
                _ => a,
            },
            Drag::RotatedHandle { h, orig } => match (a.frame(), a.angle()) {
                (Some(_), Some(rot)) => a.with_frame(
                    result(resize, (orig, h, rot, kept_ratio(a, self.shift))),
                ),
                _ => a,
            },
            Drag::ArrowEnd { end_b } => match a {
                Item::Arrow { a: from, b: to, color, thick } => if end_b {
                    Item::Arrow { a: from, b: p, color, thick }
                } else {
                    Item::Arrow { a: p, b: to, color, thick }
                },
                _ => a,
            },
            Drag::PolylinePoint { index } => match a {
                Item::Polyline { points, color, thick } => if index < points.len() {
                    Item::Polyline { points: points.update(index as int, p), color, thick }
                } else {
                    a
                },
                _ => a,
            },
            Drag::Rotate { center } => if a.angle() is Some {
                match result(aim, (center, self.shift)) {
                    Some(t) => a.with_angle(t),
                    None => a,
                }
            } else {
                a
            },
            _ => a,
        }
    }

    /// Follows the drag to `p`: the items after it, or the group
    /// transformation that is due.
    pub open spec fn apply_edit<P, R, A, G>(
        self,
        p: (i64, i64),
        shift: P,
        resize: R,
        aim: A,
        swing: G,
    ) -> (Model<F, S>, Follow<F>) where
        P: Fn(F, i64) -> F,
        R: Fn(((F, F, F, F), Handle, F, Ratio)) -> (F, F, F, F),
        A: Fn(((F, F), bool)) -> Option<F>,
        G: Fn(((F, F), F, bool)) -> F,
     {
        match self.first_place() {
            None => (self, Follow::Done),
            Some(i) => match self.edit {
                Drag::Idle => (self, Follow::Done),
                Drag::GroupMove { grab, origs } => (
                    Model {
                        items: placed(
                            self.items,
                            origs,
                            all_moved(shift, origs, travel(grab, p, self.shift)),
                            origs.len() as int,
                        ),
                        ..self
                    },
                    Follow::Done,
                ),
                Drag::GroupHandle { h, orig_rect, rot, .. } => (
                    self,
                    Follow::Scale {
                        from: orig_rect,
                        to: result(
                            resize,
                            (
                                orig_rect,
                                h,
                                rot,
                                if self.shift {
                                    Ratio::Own
                                } else {
                                    Ratio::Free
                                },
                            ),
                        ),
                        rot,
                    },
                ),
                Drag::GroupRotate { center, start_angle, .. } => (
                    self,
                    Follow::Turn {
                        center,
                        delta: result(swing, (center, start_angle, self.shift)),
                    },
                ),
                _ => (
                    self.with_first(self.dragged(self.items[i], p, shift, resize, aim)),
                    Follow::Done,
                ),
            },
        }
    }

    /// The items grabbed by a group drag.
    pub open spec fn grabbed_items(self) -> Seq<(usize, Item<F, S>)> {
        match self.edit {
            Drag::GroupMove { origs, .. } => origs,
            Drag::GroupHandle { origs, .. } => origs,
            Drag::GroupRotate { origs, .. } => origs,
            _ => Seq::empty(),
        }
    }
}

/// One item replaced in a list is replaced in what the list stands for.
proof fn lemma_update_item<F, S>(list: Seq<Annotation<F, S>>, i: int, a: Annotation<F, S>)
    requires
        0 <= i < list.len(),
    ensures
        items_of(list.update(i, a)) == items_of(list).update(i, a@),
{
    assert(items_of(list.update(i, a)) =~= items_of(list).update(i, a@));
}

/// Replacing items keeps their number.
proof fn lemma_placed_len<F, S>(
    items: Seq<Item<F, S>>,
    origs: Seq<(usize, Item<F, S>)>,
    became: Seq<Item<F, S>>,
    n: int,
)
    ensures
        placed(items, origs, became, n).len() == items.len(),
    decreases n,
{
    if n > 0 {
        lemma_placed_len(items, origs, became, n - 1);
    }
}

/// What comes later in the list of new items does not matter for the first
/// ones.
proof fn lemma_placed_prefix<F, S>(
    items: Seq<Item<F, S>>,
    origs: Seq<(usize, Item<F, S>)>,
    became: Seq<Item<F, S>>,
    more: Item<F, S>,
    n: int,
)
    requires
        n <= became.len(),
    ensures
        placed(items, origs, became.push(more), n) == placed(items, origs, became, n),
    decreases n,
{
    if n > 0 {
        lemma_placed_prefix(items, origs, became, more, n - 1);
    }
}

/// Puts a new item in the place of a grabbed one.
fn place<F: Copy, S: Copy>(list: &mut Vec<Annotation<F, S>>, i: usize, a: Annotation<F, S>)
    ensures
        items_of(final(list)@) == (if i < old(list)@.len() {
            items_of(old(list)@).update(i as int, a@)
        } else {
            items_of(old(list)@)
        }),
{
    if i < list.len() {
        proof {
            lemma_update_item(list@, i as int, a);
        }
        list.set(i, a);
    }
}

/// The item after a drag of its own handle, end, vertex or angle.
fn drag_item<F: Copy, S: Copy, R, A>(
    ann: &Annotation<F, S>,
    edit: &EditDrag<F, S>,
    p: (i64, i64),
    with_shift: bool,
    resize: &R,
    aim: &A,
) -> (out: Annotation<F, S>) where
    R: Fn(((F, F, F, F), Handle, F, Ratio)) -> (F, F, F, F),
    A: Fn(((F, F), bool)) -> Option<F>,

    requires
        pure(*resize),
        pure(*aim),
    ensures
        out@ == match edit@ {
            Drag::RectHandle { h, orig } => match ann@ {
                Item::Guide { .. } => Item::Guide { r: normalized(pulled(orig, h, p)) },
                _ => ann@,
            },
            Drag::RotatedHandle { h, orig } => match (ann@.frame(), ann@.angle()) {
                (Some(_), Some(rot)) => ann@.with_frame(
                    result(*resize, (orig, h, rot, kept_ratio(ann@, with_shift))),
                ),
                _ => ann@,
            },
            Drag::ArrowEnd { end_b } => match ann@ {
                Item::Arrow { a: from, b: to, color, thick } => if end_b {
                    Item::Arrow { a: from, b: p, color, thick }
                } else {
                    Item::Arrow { a: p, b: to, color, thick }
                },
                _ => ann@,
            },
            Drag::PolylinePoint { index } => match ann@ {
                Item::Polyline { points, color, thick } => if index < points.len() {
                    Item::Polyline { points: points.update(index as int, p), color, thick }
                } else {
                    ann@
                },
                _ => ann@,
            },
            Drag::Rotate { center } => if ann@.angle() is Some {
                match result(*aim, (center, with_shift)) {
                    Some(t) => ann@.with_angle(t),
                    None => ann@,
                }
            } else {
                ann@
            },
            _ => ann@,
        },
{
    let mut out = ann.clone();
    match edit {
        EditDrag::RectHandle { h, orig } => {
            if guide_item(ann) {
                out = Annotation::Guide { r: resize_rect(*orig, *h, p) };
            }
        },
        EditDrag::RotatedHandle { h, orig } => {
            if let (Some(_), Some(rot)) = (ann.get_frame(), ann.get_angle()) {
                let q = apply(resize, (*orig, *h, rot, ratio_of(ann, with_shift)));
                out.set_frame(q);
            }
        },
        EditDrag::ArrowEnd { end_b } => {
            if let Annotation::Arrow { a: from, b: to, color, thick } = ann {
                out = if *end_b {
                    Annotation::Arrow { a: *from, b: p, color: *color, thick: *thick }
                } else {
                    Annotation::Arrow { a: p, b: *to, color: *color, thick: *thick }
                };
            }
        },
        EditDrag::PolylinePoint { index } => {
            if let Annotation::Polyline { points, color, thick } = ann {
                if *index < points.len() {
                    let mut pts = crate::annotation::copy_points(points);
                    pts.set(*index, p);
                    out = Annotation::Polyline { points: pts, color: *color, thick: *thick };
                }
            }
        },
        EditDrag::Rotate { center } => {
            if ann.get_angle().is_some() {
                if let Some(t) = apply(aim, (*center, with_shift)) {
                    out.set_angle(t);
                }
            }
        },
        _ => {},
    }
    out
}

impl<F: Copy, S: Copy> Editor<F, S> {
    /// Whether following the drag to `p` stays within the coordinates' range.
    pub fn can_edit(&self, p: (i64, i64)) -> (r: bool)
        ensures
            r == self@.edit_fits(p),
    {
        match &self.edit {
            EditDrag::Move { grab, orig } => {
                if !can_travel(*grab, p) {
                    return false;
                }
                let d = travelled(*grab, p, self.shift);
                can_translate(orig, d.0, d.1)
            },
            EditDrag::GroupMove { grab, origs } => {
                if !can_travel(*grab, p) {
                    return false;
                }
                let d = travelled(*grab, p, self.shift);
                let mut k: usize = 0;
                while k < origs.len()
                    invariant
                        k <= origs@.len(),
                        self@.edit == (Drag::GroupMove { grab: *grab, origs: origs_of(origs@) }),
                        travel_fits(*grab, p),
                        (d.0 as int, d.1 as int) == travel(*grab, p, self@.shift),
                        forall|j: int|
                            0 <= j < k ==> item_movable(
                                (#[trigger] origs_of(origs@)[j]).1,
                                d.0 as int,
                                d.1 as int,
                            ),
                    decreases origs.len() - k,
                {
                    if !can_translate(&origs[k].1, d.0, d.1) {
                        proof {
                            let os = origs_of(origs@);
                            assert(os[k as int].1 == origs@[k as int].1@);
                            assert(!item_movable(os[k as int].1, d.0 as int, d.1 as int));
                            assert(!all_movable(os, (d.0 as int, d.1 as int)));
                        }
                        return false;
                    }
                    k += 1;
                }
                true
            },
            _ => true,
        }
    }

    /// Moves every grabbed item by `d`.
    fn move_group<P: Fn(F, i64) -> F>(&mut self, d: (i64, i64), shift: &P)
        requires
            pure2(*shift),
            all_movable(old(self)@.grabbed_items(), (d.0 as int, d.1 as int)),
        ensures
            final(self)@ == (Model {
                items: placed(
                    old(self)@.items,
                    old(self)@.grabbed_items(),
                    all_moved(*shift, old(self)@.grabbed_items(), (d.0 as int, d.1 as int)),
                    old(self)@.grabbed_items().len() as int,
                ),
                ..old(self)@
            }),
    {
        let ghost before = self@;
        let ghost origs = before.grabbed_items();
        let ghost became = all_moved(*shift, origs, (d.0 as int, d.1 as int));
        let n: usize = self.grabbed_count();
        let mut k: usize = 0;
        while k < n
            invariant
                k <= n,
                n == origs.len(),
                pure2(*shift),
                origs == before.grabbed_items(),
                became == all_moved(*shift, origs, (d.0 as int, d.1 as int)),
                all_movable(origs, (d.0 as int, d.1 as int)),
                self@ == (Model { items: placed(before.items, origs, became, k as int), ..before }),
            decreases n - k,
        {
            let (i, orig) = self.grabbed_at(k);
            proof {
                assert(item_movable(origs[k as int].1, d.0 as int, d.1 as int));
                lemma_placed_len(before.items, origs, became, k as int);
            }
            let a = move_item(&orig, d.0, d.1, shift);
            assert(became[k as int] == a@);
            place(&mut self.annotations, i, a);
            k += 1;
        }
    }

    /// How many items a group drag has grabbed.
    pub fn grabbed_count(&self) -> (n: usize)
        ensures
            n == self@.grabbed_items().len(),
    {
        match &self.edit {
            EditDrag::GroupMove { origs, .. } | EditDrag::GroupHandle { origs, .. }
            | EditDrag::GroupRotate { origs, .. } => origs.len(),
            _ => 0,
        }
    }

    /// The `k`-th grabbed item as it was, with its place.
    pub fn grabbed_at(&self, k: usize) -> (e: (usize, Annotation<F, S>))
        requires
            k < self@.grabbed_items().len(),
        ensures
            (e.0, e.1@) == self@.grabbed_items()[k as int],
    {
        match &self.edit {
            EditDrag::GroupMove { origs, .. } => (origs[k].0, origs[k].1.clone()),
            EditDrag::GroupHandle { origs, .. } => (origs[k].0, origs[k].1.clone()),
            EditDrag::GroupRotate { origs, .. } => (origs[k].0, origs[k].1.clone()),
            _ => {
                assert(false);
                (0, Annotation::Guide { r: (0, 0, 0, 0) })
            },
        }
    }

    /// Follows the drag to world point `p`. Only geometry changes, style
    /// stays. `shift` moves a coordinate, `resize` gives a frame pulled by a
    /// handle to the pointer, `aim` the angle from a center to the pointer, if
    /// they are apart, `swing` the angle turned since the drag started. A drag
    /// of the selection's frame is not followed here: the transformation that
    /// is due is returned, for [`Editor::scale_group`] or
    /// [`Editor::turn_group`].
    pub fn apply_edit<P, R, A, G>(
        &mut self,
        p: (i64, i64),
        shift: &P,
        resize: &R,
        aim: &A,
        swing: &G,
    ) -> (follow: Follow<F>) where
        P: Fn(F, i64) -> F,
        R: Fn(((F, F, F, F), Handle, F, Ratio)) -> (F, F, F, F),
        A: Fn(((F, F), bool)) -> Option<F>,
        G: Fn(((F, F), F, bool)) -> F,

        requires
            old(self)@.wf(),
            old(self)@.edit_fits(p),
            pure2(*shift),
            pure(*resize),
            pure(*aim),
            pure(*swing),
        ensures
            (final(self)@, follow) == old(self)@.apply_edit(p, *shift, *resize, *aim, *swing),
            final(self)@.wf(),
    {
        if self.selected.is_empty() || self.selected[0] >= self.annotations.len() {
            return Follow::Done;
        }
        let i: usize = self.selected[0];
        match &self.edit {
            EditDrag::Idle => Follow::Done,
            EditDrag::Move { grab, orig } => {
                let d = travelled(*grab, p, self.shift);
                let a = move_item(orig, d.0, d.1, shift);
                place(&mut self.annotations, i, a);
                Follow::Done
            },
            EditDrag::GroupMove { grab, .. } => {
                let d = travelled(*grab, p, self.shift);
                self.move_group(d, shift);
                Follow::Done
            },
            EditDrag::GroupHandle { h, orig_rect, rot, .. } => {
                let ratio = if self.shift {
                    Ratio::Own
                } else {
                    Ratio::Free
                };
                let to = apply(resize, (*orig_rect, *h, *rot, ratio));
                Follow::Scale { from: *orig_rect, to, rot: *rot }
            },
            EditDrag::GroupRotate { center, start_angle, .. } => Follow::Turn {
                center: *center,
                delta: apply(swing, (*center, *start_angle, self.shift)),
            },
            _ => {
                let a = drag_item(&self.annotations[i], &self.edit, p, self.shift, resize, aim);
                place(&mut self.annotations, i, a);
                Follow::Done
            },
        }
    }

    /// Scales every grabbed item. `point`, `rect` and `size` carry a point, a
    /// display rectangle and a size from the frame as it was grabbed to the
    /// frame it has become; `upright` says that the frame is not turned.
    pub fn scale_group<G, R, Z>(&mut self, upright: bool, point: &G, rect: &R, size: &Z) where
        G: Fn((i64, i64)) -> (i64, i64),
        R: Fn((F, F, F, F), F) -> (F, F, F, F),
        Z: Fn(S) -> S,

        requires
            old(self)@.wf(),
            forall|p: (i64, i64)| call_requires(*point, (p,)),
            forall|r: (F, F, F, F), t: F| call_requires(*rect, (r, t)),
            forall|s: S| call_requires(*size, (s,)),
        ensures
            exists|became: Seq<Item<F, S>>| #[trigger]
                all_scaled(
                    *point,
                    *rect,
                    *size,
                    upright,
                    old(self)@.grabbed_items(),
                    became,
                ) && final(self)@ == (Model {
                    items: placed(
                        old(self)@.items,
                        old(self)@.grabbed_items(),
                        became,
                        became.len() as int,
                    ),
                    ..old(self)@
                }),
            final(self)@.wf(),
    {
        let ghost before = self@;
        let ghost origs = before.grabbed_items();
        let ghost mut became = Seq::<Item<F, S>>::empty();
        let n: usize = self.grabbed_count();
        let mut k: usize = 0;
        while k < n
            invariant
                k <= n,
                n == origs.len(),
                origs == before.grabbed_items(),
                became.len() == k,
                forall|p: (i64, i64)| call_requires(*point, (p,)),
                forall|r: (F, F, F, F), t: F| call_requires(*rect, (r, t)),
                forall|s: S| call_requires(*size, (s,)),
                forall|j: int|
                    0 <= j < k ==> scaled(
                        *point,
                        *rect,
                        *size,
                        upright,
                        origs[j].1,
                        #[trigger] became[j],
                    ),
                self@ == (Model { items: placed(before.items, origs, became, k as int), ..before }),
            decreases n - k,
        {
            let (i, orig) = self.grabbed_at(k);
            let a = scale_annotation_rotated(&orig, upright, point, rect, size);
            proof {
                lemma_placed_len(before.items, origs, became, k as int);
                lemma_placed_prefix(before.items, origs, became, a@, k as int);
                became = became.push(a@);
                lemma_placed_len(before.items, origs, became, k as int);
            }
            place(&mut self.annotations, i, a);
            k += 1;
        }
        assert(all_scaled(*point, *rect, *size, upright, origs, became));
    }

    /// Turns every grabbed item. `point`, `orbit` and `turn` carry a point, a
    /// display rectangle and an angle about the center; `text_at` is where
    /// each grabbed text goes.
    pub fn turn_group<G, R, T>(
        &mut self,
        point: &G,
        orbit: &R,
        turn: &T,
        text_at: &Vec<(i64, i64)>,
    ) where
        G: Fn((i64, i64)) -> (i64, i64),
        R: Fn((F, F, F, F)) -> (F, F, F, F),
        T: Fn(F) -> F,

        requires
            old(self)@.wf(),
            text_at@.len() == old(self)@.grabbed_items().len(),
            forall|p: (i64, i64)| call_requires(*point, (p,)),
            forall|r: (F, F, F, F)| call_requires(*orbit, (r,)),
            forall|t: F| call_requires(*turn, (t,)),
        ensures
            exists|became: Seq<Item<F, S>>| #[trigger]
                all_turned(
                    *point,
                    *orbit,
                    *turn,
                    text_at@,
                    old(self)@.grabbed_items(),
                    became,
                ) && final(self)@ == (Model {
                    items: placed(
                        old(self)@.items,
                        old(self)@.grabbed_items(),
                        became,
                        became.len() as int,
                    ),
                    ..old(self)@
                }),
            final(self)@.wf(),
    {
        let ghost before = self@;
        let ghost origs = before.grabbed_items();
        let ghost mut became = Seq::<Item<F, S>>::empty();
        let n: usize = self.grabbed_count();
        let mut k: usize = 0;
        while k < n
            invariant
                k <= n,
                n == origs.len(),
                origs == before.grabbed_items(),
                text_at@.len() == n,
                became.len() == k,
                forall|p: (i64, i64)| call_requires(*point, (p,)),
                forall|r: (F, F, F, F)| call_requires(*orbit, (r,)),
                forall|t: F| call_requires(*turn, (t,)),
                forall|j: int|
                    0 <= j < k ==> rotated(
                        *point,
                        *orbit,
                        *turn,
                        text_at@[j],
                        origs[j].1,
                        #[trigger] became[j],
                    ),
                self@ == (Model { items: placed(before.items, origs, became, k as int), ..before }),
            decreases n - k,
        {
            let (i, orig) = self.grabbed_at(k);
            let a = rotate_annotation_around(&orig, point, orbit, turn, text_at[k]);
            proof {
                lemma_placed_len(before.items, origs, became, k as int);
                lemma_placed_prefix(before.items, origs, became, a@, k as int);
                became = became.push(a@);
                lemma_placed_len(before.items, origs, became, k as int);
            }
            place(&mut self.annotations, i, a);
            k += 1;
        }
        assert(all_turned(*point, *orbit, *turn, text_at@, origs, became));
    }
}

/// Whether each grabbed item became what scaling makes of it.
pub open spec fn all_scaled<F, S, G, R, Z>(
    point: G,
    rect: R,
    size: Z,
    upright: bool,
    origs: Seq<(usize, Item<F, S>)>,
    became: Seq<Item<F, S>>,
) -> bool where
    G: Fn((i64, i64)) -> (i64, i64),
    R: Fn((F, F, F, F), F) -> (F, F, F, F),
    Z: Fn(S) -> S,
 {
    became.len() == origs.len() && forall|j: int|
        0 <= j < origs.len() ==> scaled(
            point,
            rect,
            size,
            upright,
            origs[j].1,
            #[trigger] became[j],
        )
}

/// Whether each grabbed item became what turning makes of it.
pub open spec fn all_turned<F, S, G, R, T>(
    point: G,
    orbit: R,
    turn: T,
    text_at: Seq<(i64, i64)>,
    origs: Seq<(usize, Item<F, S>)>,
    became: Seq<Item<F, S>>,
) -> bool where
    G: Fn((i64, i64)) -> (i64, i64),
    R: Fn((F, F, F, F)) -> (F, F, F, F),
    T: Fn(F) -> F,
 {
    became.len() == origs.len() && forall|j: int|
        0 <= j < origs.len() ==> rotated(
            point,
            orbit,
            turn,
            text_at[j],
            origs[j].1,
            #[trigger] became[j],
        )
}

} // verus!

//! The common style of a selection, and setting a style on it.

use vstd::prelude::*;

use crate::annotation::{items_of, Annotation, Item, MosaicMode};
use crate::order::chosen;

verus! {

/// A property shown for a whole selection. `Mixed` still carries the first
/// item's value, which an edit starts from.
#[derive(Clone, Copy, Debug, PartialEq, Eq)]
pub enum PropVal<T> {
    /// The value agrees across the selection, or is the default.
    Uniform(T),
    /// The value differs across the selection.
    Mixed(T),
}

impl<T: Copy> PropVal<T> {
    /// The value an edit starts from.
    pub fn value(self) -> (v: T)
        ensures
            v == self.shown(),
    {
        match self {
            PropVal::Uniform(v) | PropVal::Mixed(v) => v,
        }
    }
}

impl<T> PropVal<T> {
    /// The value an edit starts from.
    pub open spec fn shown(self) -> T {
        match self {
            PropVal::Uniform(v) => v,
            PropVal::Mixed(v) => v,
        }
    }
}

/// The style of new items, and what a selection is compared with.
#[derive(Clone, Copy, Debug)]
pub struct Style<S> {
    pub color: u32,
    pub thick: i64,
    pub size: S,
    pub filled: bool,
    pub block: S,
    pub blur: bool,
}

/// The common style of a selection.
#[derive(Clone, Copy, Debug)]
pub struct StyleVals<S> {
    pub color: PropVal<u32>,
    pub thick: PropVal<i64>,
    pub size: PropVal<S>,
    pub filled: PropVal<bool>,
    pub block: PropVal<S>,
    pub blur: PropVal<bool>,
}

/// The item's color, for the kinds that have one.
pub open spec fn color_of<F, S>(a: Item<F, S>) -> Option<u32> {
    match a {
        Item::Arrow { color, .. } => Some(color),
        Item::Polyline { color, .. } => Some(color),
        Item::Rect { color, .. } => Some(color),
        Item::Ellipse { color, .. } => Some(color),
        Item::Text { color, .. } => Some(color),
        Item::NumberMarker { color, .. } => Some(color),
        _ => None,
    }
}

/// The item's line thickness, for the kinds that have one.
pub open spec fn thick_of<F, S>(a: Item<F, S>) -> Option<i64> {
    match a {
        Item::Arrow { thick, .. } => Some(thick),
        Item::Polyline { thick, .. } => Some(thick),
        Item::Rect { thick, .. } => Some(thick),
        Item::Ellipse { thick, .. } => Some(thick),
        _ => None,
    }
}

/// The item's size, for the kinds that have one.
pub open spec fn size_of<F, S>(a: Item<F, S>) -> Option<S> {
    match a {
        Item::Text { size, .. } => Some(size),
        Item::NumberMarker { size, .. } => Some(size),
        _ => None,
    }
}

/// Whether the item is filled, for the kinds that can be.
pub open spec fn filled_of<F, S>(a: Item<F, S>) -> Option<bool> {
    match a {
        Item::Rect { filled, .. } => Some(filled),
        Item::Ellipse { filled, .. } => Some(filled),
        _ => None,
    }
}

/// The mosaic's block length.
pub open spec fn block_of<F, S>(a: Item<F, S>) -> Option<S> {
    match a {
        Item::Mosaic { block, .. } => Some(block),
        _ => None,
    }
}

/// Whether the mosaic blurs.
pub open spec fn blur_of<F, S>(a: Item<F, S>) -> Option<bool> {
    match a {
        Item::Mosaic { mode, .. } => Some(mode == MosaicMode::Blur),
        _ => None,
    }
}

/// The values that are there, in order.
pub open spec fn present<T>(vals: Seq<Option<T>>) -> Seq<T>
    decreases vals.len(),
{
    if vals.len() == 0 {
        Seq::empty()
    } else {
        match vals.last() {
            Some(v) => present(vals.drop_last()).push(v),
            None => present(vals.drop_last()),
        }
    }
}

/// Whether `out` sums up the values that are there: the default for none,
/// else the first one, `Uniform` exactly if `same` finds every later one equal
/// to it.
pub open spec fn folded<T, E: Fn(T, T) -> bool>(
    vals: Seq<Option<T>>,
    default: T,
    same: E,
    out: PropVal<T>,
) -> bool {
    let vs = present(vals);
    if vs.len() == 0 {
        out == PropVal::Uniform(default)
    } else {
        ||| out == PropVal::Uniform(vs[0]) && forall|i: int|
            1 <= i < vs.len() ==> call_ensures(same, (#[trigger] vs[i], vs[0]), true)
        ||| out == PropVal::Mixed(vs[0]) && exists|i: int|
            1 <= i < vs.len() && call_ensures(same, (#[trigger] vs[i], vs[0]), false)
    }
}

/// Sums up the values that are there.
fn fold<T: Copy, E: Fn(T, T) -> bool>(vals: &Vec<Option<T>>, default: T, same: &E) -> (out: PropVal<
    T,
>)
    requires
        forall|p: T, q: T| call_requires(*same, (p, q)),
    ensures
        folded(vals@, default, *same, out),
{
    let mut first: Option<T> = None;
    let mut mixed: bool = false;
    let mut i: usize = 0;
    while i < vals.len()
        invariant
            i <= vals.len(),
            forall|p: T, q: T| call_requires(*same, (p, q)),
            match first {
                None => present(vals@.take(i as int)).len() == 0 && !mixed,
                Some(f) => {
                    let vs = present(vals@.take(i as int));
                    &&& vs.len() > 0
                    &&& vs[0] == f
                    &&& !mixed ==> forall|k: int|
                        1 <= k < vs.len() ==> call_ensures(*same, (#[trigger] vs[k], f), true)
                    &&& mixed ==> exists|k: int|
                        1 <= k < vs.len() && call_ensures(*same, (#[trigger] vs[k], f), false)
                },
            },
        decreases vals.len() - i,
    {
        let ghost upto = vals@.take(i as int);
        let ghost next = vals@.take(i + 1);
        assert(next.drop_last() =~= upto);
        assert(next.last() == vals@[i as int]);
        let ghost vs = present(upto);
        if let Some(v) = vals[i] {
            match first {
                None => {
                    first = Some(v);
                },
                Some(f) => {
                    let eq = same(v, f);
                    proof {
                        let ws = present(next);
                        assert(ws == vs.push(v));
                        assert(ws[vs.len() as int] == v);
                        if mixed {
                            let k = choose|k: int|
                                1 <= k < vs.len() && call_ensures(
                                    *same,
                                    (#[trigger] vs[k], f),
                                    false,
                                );
                            assert(ws[k] == vs[k]);
                        }
                    }
                    if !eq {
                        mixed = true;
                    }
                },
            }
        }
        i += 1;
    }
    assert(vals@.take(vals@.len() as int) =~= vals@);
    match first {
        None => PropVal::Uniform(default),
        Some(f) => if mixed {
            PropVal::Mixed(f)
        } else {
            PropVal::Uniform(f)
        },
    }
}

/// Sums up exact values: the default for none, else the first one, `Uniform`
/// exactly if all are equal.
pub open spec fn summed<T>(vals: Seq<Option<T>>, default: T) -> PropVal<T> {
    let vs = present(vals);
    if vs.len() == 0 {
        PropVal::Uniform(default)
    } else if forall|i: int| 0 <= i < vs.len() ==> #[trigger] vs[i] == vs[0] {
        PropVal::Uniform(vs[0])
    } else {
        PropVal::Mixed(vs[0])
    }
}

/// The items that a selection names, in its order. An index beyond the items
/// is skipped.
pub open spec fn named<F, S>(items: Seq<Item<F, S>>, selected: Seq<usize>) -> Seq<Item<F, S>>
    decreases selected.len(),
{
    if selected.len() == 0 {
        Seq::empty()
    } else {
        let rest = named(items, selected.drop_last());
        let i = selected.last() as int;
        if i < items.len() {
            rest.push(items[i])
        } else {
            rest
        }
    }
}

/// One property of each item.
pub open spec fn colors<F, S>(items: Seq<Item<F, S>>) -> Seq<Option<u32>> {
    items.map_values(|a: Item<F, S>| color_of(a))
}

/// One property of each item.
pub open spec fn thicks<F, S>(items: Seq<Item<F, S>>) -> Seq<Option<i64>> {
    items.map_values(|a: Item<F, S>| thick_of(a))
}

/// One property of each item.
pub open spec fn sizes<F, S>(items: Seq<Item<F, S>>) -> Seq<Option<S>> {
    items.map_values(|a: Item<F, S>| size_of(a))
}

/// One property of each item.
pub open spec fn fills<F, S>(items: Seq<Item<F, S>>) -> Seq<Option<bool>> {
    items.map_values(|a: Item<F, S>| filled_of(a))
}

/// One property of each item.
pub open spec fn blocks<F, S>(items: Seq<Item<F, S>>) -> Seq<Option<S>> {
    items.map_values(|a: Item<F, S>| block_of(a))
}

/// One property of each item.
pub open spec fn blurs<F, S>(items: Seq<Item<F, S>>) -> Seq<Option<bool>> {
    items.map_values(|a: Item<F, S>| blur_of(a))
}

/// Whether `out` is the common style of the items. Colors, thicknesses and
/// flags are compared exactly, sizes and block lengths by `same`.
pub open spec fn common_of<F, S, E: Fn(S, S) -> bool>(
    items: Seq<Item<F, S>>,
    defaults: Style<S>,
    same: E,
    out: StyleVals<S>,
) -> bool {
    &&& out.color == summed(colors(items), defaults.color)
    &&& out.thick == summed(thicks(items), defaults.thick)
    &&& folded(sizes(items), defaults.size, same, out.size)
    &&& out.filled == summed(fills(items), defaults.filled)
    &&& folded(blocks(items), defaults.block, same, out.block)
    &&& out.blur == summed(blurs(items), defaults.blur)
}

/// Sums up exact values.
fn sum_up<T: Copy, E: Fn(T, T) -> bool>(vals: &Vec<Option<T>>, default: T, same: &E) -> (out:
    PropVal<T>)
    requires
        forall|p: T, q: T| call_requires(*same, (p, q)),
        forall|p: T, q: T, r: bool| call_ensures(*same, (p, q), r) ==> r == (p == q),
    ensures
        out == summed(vals@, default),
{
    let out = fold(vals, default, same);
    proof {
        let vs = present(vals@);
        if vs.len() > 0 {
            assert(vs[0] == vs[0]);
            if out is Uniform {
                assert(forall|i: int| 0 <= i < vs.len() ==> #[trigger] vs[i] == vs[0]);
            }
        }
    }
    out
}

/// The common style of a selection: the default for a property that no
/// selected item has, `Uniform` if all that have it agree, `Mixed` if they
/// differ. `same` compares sizes and block lengths. Indices beyond the items
/// are skipped.
pub fn common_style<F: Copy, S: Copy, E: Fn(S, S) -> bool>(
    annotations: &Vec<Annotation<F, S>>,
    selected: &[usize],
    defaults: Style<S>,
    same: &E,
) -> (out: StyleVals<S>)
    requires
        forall|p: S, q: S| call_requires(*same, (p, q)),
    ensures
        common_of(named(items_of(annotations@), selected@), defaults, *same, out),
{
    let ghost items = items_of(annotations@);
    let mut color: Vec<Option<u32>> = Vec::new();
    let mut thick: Vec<Option<i64>> = Vec::new();
    let mut size: Vec<Option<S>> = Vec::new();
    let mut filled: Vec<Option<bool>> = Vec::new();
    let mut block: Vec<Option<S>> = Vec::new();
    let mut blur: Vec<Option<bool>> = Vec::new();
    let mut t: usize = 0;
    while t < selected.len()
        invariant
            t <= selected.len(),
            items == items_of(annotations@),
            color@ == colors(named(items, selected@.take(t as int))),
            thick@ == thicks(named(items, selected@.take(t as int))),
            size@ == sizes(named(items, selected@.take(t as int))),
            filled@ == fills(named(items, selected@.take(t as int))),
            block@ == blocks(named(items, selected@.take(t as int))),
            blur@ == blurs(named(items, selected@.take(t as int))),
        decreases selected.len() - t,
    {
        let i: usize = selected[t];
        let ghost rest = named(items, selected@.take(t as int));
        assert(selected@.take(t + 1).drop_last() =~= selected@.take(t as int));
        if i < annotations.len() {
            let a = &annotations[i];
            color.push(a.get_color());
            thick.push(a.get_thick());
            size.push(a.get_size());
            filled.push(a.get_filled());
            block.push(a.get_block());
            blur.push(a.get_blur());
            proof {
                let all = rest.push(a@);
                assert(named(items, selected@.take(t + 1)) == all);
                assert(colors(all) =~= colors(rest).push(color_of(a@)));
                assert(thicks(all) =~= thicks(rest).push(thick_of(a@)));
                assert(sizes(all) =~= sizes(rest).push(size_of(a@)));
                assert(fills(all) =~= fills(rest).push(filled_of(a@)));
                assert(blocks(all) =~= blocks(rest).push(block_of(a@)));
                assert(blurs(all) =~= blurs(rest).push(blur_of(a@)));
            }
        }
        t += 1;
    }
    assert(selected@.take(selected@.len() as int) =~= selected@);
    let same_u32 = |p: u32, q: u32| -> (r: bool)
        ensures
            r == (p == q),
        { p == q };
    let same_i64 = |p: i64, q: i64| -> (r: bool)
        ensures
            r == (p == q),
        { p == q };
    let same_bool = |p: bool, q: bool| -> (r: bool)
        ensures
            r == (p == q),
        { p == q };
    StyleVals {
        color: sum_up(&color, defaults.color, &same_u32),
        thick: sum_up(&thick, defaults.thick, &same_i64),
        size: fold(&size, defaults.size, same),
        filled: sum_up(&filled, defaults.filled, &same_bool),
        block: fold(&block, defaults.block, same),
        blur: sum_up(&blur, defaults.blur, &same_bool),
    }
}

// ---- One property of one item ----

impl<F, S> Item<F, S> {
    /// The item in another color, where it has one.
    pub open spec fn with_color(self, c: u32) -> Item<F, S> {
        match self {
            Item::Arrow { a, b, color: _, thick } => Item::Arrow { a, b, color: c, thick },
            Item::Polyline { points, color: _, thick } => Item::Polyline {
                points,
                color: c,
                thick,
            },
            Item::Rect { r, color: _, thick, rot, filled } => Item::Rect {
                r,
                color: c,
                thick,
                rot,
                filled,
            },
            Item::Ellipse { r, color: _, thick, rot, filled } => Item::Ellipse {
                r,
                color: c,
                thick,
                rot,
                filled,
            },
            Item::Text { pos, text, color: _, size, rot } => Item::Text {
                pos,
                text,
                color: c,
                size,
                rot,
            },
            Item::NumberMarker { pos, number, color: _, size } => Item::NumberMarker {
                pos,
                number,
                color: c,
                size,
            },
            _ => self,
        }
    }

    /// The item with another line thickness, where it has one.
    pub open spec fn with_thick(self, t: i64) -> Item<F, S> {
        match self {
            Item::Arrow { a, b, color, thick: _ } => Item::Arrow { a, b, color, thick: t },
            Item::Polyline { points, color, thick: _ } => Item::Polyline {
                points,
                color,
                thick: t,
            },
            Item::Rect { r, color, thick: _, rot, filled } => Item::Rect {
                r,
                color,
                thick: t,
                rot,
                filled,
            },
            Item::Ellipse { r, color, thick: _, rot, filled } => Item::Ellipse {
                r,
                color,
                thick: t,
                rot,
                filled,
            },
            _ => self,
        }
    }

    /// The item with another size, where it has one.
    pub open spec fn with_size(self, s: S) -> Item<F, S> {
        match self {
            Item::Text { pos, text, color, size: _, rot } => Item::Text {
                pos,
                text,
                color,
                size: s,
                rot,
            },
            Item::NumberMarker { pos, number, color, size: _ } => Item::NumberMarker {
                pos,
                number,
                color,
                size: s,
            },
            _ => self,
        }
    }

    /// The item filled or not, where it can be.
    pub open spec fn with_filled(self, f: bool) -> Item<F, S> {
        match self {
            Item::Rect { r, color, thick, rot, filled: _ } => Item::Rect {
                r,
                color,
                thick,
                rot,
                filled: f,
            },
            Item::Ellipse { r, color, thick, rot, filled: _ } => Item::Ellipse {
                r,
                color,
                thick,
                rot,
                filled: f,
            },
            _ => self,
        }
    }

    /// The mosaic with another block length.
    pub open spec fn with_block(self, s: S) -> Item<F, S> {
        match self {
            Item::Mosaic { r, rot, block: _, mode, seed } => Item::Mosaic {
                r,
                rot,
                block: s,
                mode,
                seed,
            },
            _ => self,
        }
    }

    /// The mosaic blurring or not.
    pub open spec fn with_blur(self, b: bool) -> Item<F, S> {
        match self {
            Item::Mosaic { r, rot, block, mode: _, seed } => Item::Mosaic {
                r,
                rot,
                block,
                mode: if b {
                    MosaicMode::Blur
                } else {
                    MosaicMode::Pixelate
                },
                seed,
            },
            _ => self,
        }
    }
}

/// A change of one style property.
#[derive(Clone, Copy, Debug)]
pub enum Restyle<S> {
    Color(u32),
    Thick(i64),
    Size(S),
    Filled(bool),
    Block(S),
    Blur(bool),
}

impl<S> Restyle<S> {
    /// The item after the change. A kind without the property is kept.
    pub open spec fn of<F>(self, a: Item<F, S>) -> Item<F, S> {
        match self {
            Restyle::Color(c) => a.with_color(c),
            Restyle::Thick(t) => a.with_thick(t),
            Restyle::Size(s) => a.with_size(s),
            Restyle::Filled(f) => a.with_filled(f),
            Restyle::Block(s) => a.with_block(s),
            Restyle::Blur(b) => a.with_blur(b),
        }
    }

    /// The default style after the change.
    pub open spec fn of_style(self, d: Style<S>) -> Style<S> {
        match self {
            Restyle::Color(c) => Style { color: c, ..d },
            Restyle::Thick(t) => Style { thick: t, ..d },
            Restyle::Size(s) => Style { size: s, ..d },
            Restyle::Filled(f) => Style { filled: f, ..d },
            Restyle::Block(s) => Style { block: s, ..d },
            Restyle::Blur(b) => Style { blur: b, ..d },
        }
    }
}

impl<F: Copy, S: Copy> Annotation<F, S> {
    /// The item's color, for the kinds that have one.
    pub fn get_color(&self) -> (out: Option<u32>)
        ensures
            out == color_of(self@),
    {
        match self {
            Annotation::Arrow { color, .. } | Annotation::Polyline { color, .. }
            | Annotation::Rect { color, .. } | Annotation::Ellipse { color, .. }
            | Annotation::Text { color, .. } | Annotation::NumberMarker { color, .. } => Some(
                *color,
            ),
            _ => None,
        }
    }

    /// The item's line thickness, for the kinds that have one.
    pub fn get_thick(&self) -> (out: Option<i64>)
        ensures
            out == thick_of(self@),
    {
        match self {
            Annotation::Arrow { thick, .. } | Annotation::Polyline { thick, .. }
            | Annotation::Rect { thick, .. } | Annotation::Ellipse { thick, .. } => Some(*thick),
            _ => None,
        }
    }

    /// The item's size, for the kinds that have one.
    pub fn get_size(&self) -> (out: Option<S>)
        ensures
            out == size_of(self@),
    {
        match self {
            Annotation::Text { size, .. } | Annotation::NumberMarker { size, .. } => Some(*size),
            _ => None,
        }
    }

    /// Whether the item is filled, for the kinds that can be.
    pub fn get_filled(&self) -> (out: Option<bool>)
        ensures
            out == filled_of(self@),
    {
        match self {
            Annotation::Rect { filled, .. } | Annotation::Ellipse { filled, .. } => Some(*filled),
            _ => None,
        }
    }

    /// The mosaic's block length.
    pub fn get_block(&self) -> (out: Option<S>)
        ensures
            out == block_of(self@),
    {
        match self {
            Annotation::Mosaic { block, .. } => Some(*block),
            _ => None,
        }
    }

    /// Whether the mosaic blurs.
    pub fn get_blur(&self) -> (out: Option<bool>)
        ensures
            out == blur_of(self@),
    {
        match self {
            Annotation::Mosaic { mode, .. } => Some(matches!(mode, MosaicMode::Blur)),
            _ => None,
        }
    }

    /// Applies a style change to the item. A kind without the property is
    /// kept.
    pub fn restyle(&mut self, change: Restyle<S>)
        ensures
            final(self)@ == change.of(old(self)@),
    {
        match change {
            Restyle::Color(c) => self.paint(c),
            Restyle::Thick(t) => self.thicken(t),
            Restyle::Size(s) => match self {
                Annotation::Text { size, .. } => {
                    *size = s;
                },
                Annotation::NumberMarker { size, .. } => {
                    *size = s;
                },
                _ => {},
            },
            Restyle::Filled(f) => match self {
                Annotation::Rect { filled, .. } => {
                    *filled = f;
                },
                Annotation::Ellipse { filled, .. } => {
                    *filled = f;
                },
                _ => {},
            },
            Restyle::Block(s) => match self {
                Annotation::Mosaic { block, .. } => {
                    *block = s;
                },
                _ => {},
            },
            Restyle::Blur(b) => match self {
                Annotation::Mosaic { mode, .. } => {
                    *mode = if b {
                        MosaicMode::Blur
                    } else {
                        MosaicMode::Pixelate
                    };
                },
                _ => {},
            },
        }
    }

    /// Sets the color, where the item has one.
    fn paint(&mut self, c: u32)
        ensures
            final(self)@ == old(self)@.with_color(c),
    {
        match self {
            Annotation::Arrow { color, .. } => {
                *color = c;
            },
            Annotation::Polyline { color, .. } => {
                *color = c;
            },
            Annotation::Rect { color, .. } => {
                *color = c;
            },
            Annotation::Ellipse { color, .. } => {
                *color = c;
            },
            Annotation::Text { color, .. } => {
                *color = c;
            },
            Annotation::NumberMarker { color, .. } => {
                *color = c;
            },
            _ => {},
        }
    }

    /// Sets the line thickness, where the item has one.
    fn thicken(&mut self, t: i64)
        ensures
            final(self)@ == old(self)@.with_thick(t),
    {
        match self {
            Annotation::Arrow { thick, .. } => {
                *thick = t;
            },
            Annotation::Polyline { thick, .. } => {
                *thick = t;
            },
            Annotation::Rect { thick, .. } => {
                *thick = t;
            },
            Annotation::Ellipse { thick, .. } => {
                *thick = t;
            },
            _ => {},
        }
    }
}

/// The items after a style change to the selected ones.
pub open spec fn restyled<F, S>(
    items: Seq<Item<F, S>>,
    selected: Seq<usize>,
    change: Restyle<S>,
) -> Seq<Item<F, S>> {
    Seq::new(
        items.len(),
        |i: int|
            if chosen(selected, i) {
                change.of(items[i])
            } else {
                items[i]
            },
    )
}

/// Applies a style change to every selected item. Indices beyond the items
/// are skipped.
pub fn restyle_selected<F: Copy, S: Copy>(
    annotations: &mut Vec<Annotation<F, S>>,
    selected: &[usize],
    change: Restyle<S>,
)
    ensures
        items_of(final(annotations)@) == restyled(items_of(old(annotations)@), selected@, change),
{
    let ghost start = items_of(annotations@);
    let mut t: usize = 0;
    while t < selected.len()
        invariant
            t <= selected.len(),
            annotations@.len() == start.len(),
            forall|i: int|
                0 <= i < start.len() ==> #[trigger] annotations@[i]@ == (if chosen(
                    selected@.take(t as int),
                    i,
                ) {
                    change.of(start[i])
                } else {
                    start[i]
                }),
        decreases selected.len() - t,
    {
        let i: usize = selected[t];
        let ghost before = annotations@;
        let ghost upto = selected@.take(t as int);
        let ghost next = selected@.take(t + 1);
        proof {
            assert(next[t as int] == i as int);
            assert forall|k: int| #[trigger] chosen(next, k) == (chosen(upto, k) || k == i) by {
                if chosen(upto, k) {
                    let s = choose|s: int| 0 <= s < upto.len() && upto[s] == k;
                    assert(next[s] == k);
                }
                if chosen(next, k) {
                    let s = choose|s: int| 0 <= s < next.len() && next[s] == k;
                    if s < t {
                        assert(upto[s] == k);
                    }
                }
            }
        }
        if i < annotations.len() {
            let mut item = annotations[i].clone();
            item.restyle(change);
            annotations.set(i, item);
            proof {
                lemma_restyle_twice(start[i as int], change);
            }
        }
        t += 1;
    }
    assert(selected@.take(selected@.len() as int) =~= selected@);
    assert(items_of(annotations@) =~= restyled(start, selected@, change));
}

/// Applying the same style change a second time changes nothing more.
pub proof fn lemma_restyle_twice<F, S>(a: Item<F, S>, change: Restyle<S>)
    ensures
        change.of(change.of(a)) == change.of(a),
{
}

/// After a style change the changed property is uniform over every selected
/// item that has it.
pub proof fn law_restyle_makes_uniform<F, S>(a: Item<F, S>, change: Restyle<S>)
    ensures
        change matches Restyle::Color(c) ==> (color_of(change.of(a)) is Some ==> color_of(
            change.of(a),
        ) == Some(c)),
        change matches Restyle::Thick(t) ==> (thick_of(change.of(a)) is Some ==> thick_of(
            change.of(a),
        ) == Some(t)),
        change matches Restyle::Size(s) ==> (size_of(change.of(a)) is Some ==> size_of(change.of(a))
            == Some(s)),
        change matches Restyle::Filled(f) ==> (filled_of(change.of(a)) is Some ==> filled_of(
            change.of(a),
        ) == Some(f)),
        change matches Restyle::Block(s) ==> (block_of(change.of(a)) is Some ==> block_of(
            change.of(a),
        ) == Some(s)),
        change matches Restyle::Blur(b) ==> (blur_of(change.of(a)) is Some ==> blur_of(change.of(a))
            == Some(b)),
{
}

/// A style change leaves the geometry of an item alone.
pub proof fn law_restyle_keeps_geometry<F, S>(a: Item<F, S>, change: Restyle<S>)
    ensures
        change.of(a).frame() == a.frame(),
        change.of(a).angle() == a.angle(),
        a matches Item::Polyline { points, .. } ==> (change.of(a) matches Item::Polyline {
            points: q,
            ..
        } && q == points),
        a matches Item::Arrow { a: p, b: q, .. } ==> (change.of(a) matches Item::Arrow {
            a: p2,
            b: q2,
            ..
        } && p2 == p && q2 == q),
{
}

} // verus!

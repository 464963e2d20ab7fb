//! What the editor shows: the pointer's shape, the item being drawn, the
//! marks of the selection, and the looks of the bars.

use vstd::prelude::*;

use crate::annotation::{
    close_by, grabbed, hit_rect_handle, near, normalized, rect_norm, rect_of, Annotation, Handle,
    Item, copy_points,
};
use crate::commands::Labels;
use crate::drag::Ratio;
use crate::editor::{Editor, Model};
use crate::fields::{decimal, decimal_text};
use crate::measure::{guide_bounds, guide_rect};
use crate::press::{vertex_at, vertex_from, Under};
use crate::pure::{apply, pure, result};
use crate::rect::{floor_sub, Rect};
use crate::release::{computes_frames, FrameCalc};
use crate::style::{common_of, PropVal, StyleVals};
use crate::toolbar::{
    button_color, button_layout, button_look, icon_rect, prop_layout, tool_buttons, tool_layout,
    top_fits, top_layout, EditorBtn, Field, PropCtrl, Tool, ICON_PAD, TOOLBAR_H, TOOLBAR_W,
};

verus! {

/// The pointer's shape.
#[derive(Clone, Copy, Debug, PartialEq, Eq, Structural)]
pub enum CursorShape {
    Default,
    Crosshair,
    Move,
    Grab,
    NwseResize,
    NeswResize,
    NsResize,
    EwResize,
}

/// The shape over a handle: the directions it can be pulled in.
pub open spec fn handle_shape(h: Handle) -> CursorShape {
    match h {
        Handle::TopLeft | Handle::BottomRight => CursorShape::NwseResize,
        Handle::TopRight | Handle::BottomLeft => CursorShape::NeswResize,
        Handle::Top | Handle::Bottom => CursorShape::NsResize,
        Handle::Left | Handle::Right => CursorShape::EwResize,
    }
}

/// The shape over a handle.
pub fn handle_cursor(h: Handle) -> (c: CursorShape)
    ensures
        c == handle_shape(h),
{
    match h {
        Handle::TopLeft | Handle::BottomRight => CursorShape::NwseResize,
        Handle::TopRight | Handle::BottomLeft => CursorShape::NeswResize,
        Handle::Top | Handle::Bottom => CursorShape::NsResize,
        Handle::Left | Handle::Right => CursorShape::EwResize,
    }
}

/// The shape over the single selected item's handles. With the select tool
/// the outline has none of its own, since there the whole item moves.
pub open spec fn item_shape<F, S>(
    a: Item<F, S>,
    p: (i64, i64),
    tol: int,
    u: Under<F>,
    select: bool,
) -> Option<CursorShape> {
    let outline = if !select && u.item.on_outline {
        Some(CursorShape::Move)
    } else {
        None
    };
    match a {
        Item::Arrow { a: from, b: to, .. } => if close_by(p, from, tol) || close_by(p, to, tol) {
            Some(CursorShape::Crosshair)
        } else {
            None
        },
        Item::Polyline { points, .. } => if vertex_from(points, p, tol, 0) is Some {
            Some(CursorShape::Crosshair)
        } else if !select && u.group.on_outline {
            Some(CursorShape::Move)
        } else {
            None
        },
        Item::Text { .. } => if u.item.on_rotate {
            Some(CursorShape::Grab)
        } else {
            outline
        },
        Item::NumberMarker { .. } => if !select && u.in_disc {
            Some(CursorShape::Move)
        } else {
            None
        },
        Item::Guide { .. } => None,
        _ => if u.item.on_rotate {
            Some(CursorShape::Grab)
        } else {
            match u.item.handle {
                Some(h) => Some(handle_shape(h)),
                None => outline,
            }
        },
    }
}

fn shape_over<F: Copy, S: Copy>(
    a: &Annotation<F, S>,
    p: (i64, i64),
    tol: i64,
    u: &Under<F>,
    select: bool,
) -> (c: Option<CursorShape>)
    ensures
        c == item_shape(a@, p, tol as int, *u, select),
{
    let outline: Option<CursorShape> = if !select && u.item.on_outline {
        Some(CursorShape::Move)
    } else {
        None
    };
    match a {
        Annotation::Arrow { a: from, b: to, .. } => if near(p, *from, tol) || near(p, *to, tol) {
            Some(CursorShape::Crosshair)
        } else {
            None
        },
        Annotation::Polyline { points, .. } => if vertex_at(points, p, tol).is_some() {
            Some(CursorShape::Crosshair)
        } else if !select && u.group.on_outline {
            Some(CursorShape::Move)
        } else {
            None
        },
        Annotation::Text { .. } => if u.item.on_rotate {
            Some(CursorShape::Grab)
        } else {
            outline
        },
        Annotation::NumberMarker { .. } => if !select && u.in_disc {
            Some(CursorShape::Move)
        } else {
            None
        },
        Annotation::Guide { .. } => None,
        _ => if u.item.on_rotate {
            Some(CursorShape::Grab)
        } else {
            match u.item.handle {
                Some(h) => Some(handle_cursor(h)),
                None => outline,
            }
        },
    }
}

impl<F, S> Model<F, S> {
    /// The shape with the guide tool: over the guide as it can be adjusted,
    /// elsewhere a cross for a new one.
    pub open spec fn guide_shape(self, p: (i64, i64), tol: int) -> CursorShape {
        match guide_rect(self.items) {
            None => CursorShape::Crosshair,
            Some(r) => {
                let n = normalized(r);
                match grabbed(r, p, tol, 0) {
                    Some(h) => handle_shape(h),
                    None => if n.0 <= p.0 <= n.2 && n.1 <= p.1 <= n.3 {
                        CursorShape::Move
                    } else {
                        CursorShape::Crosshair
                    },
                }
            },
        }
    }

    /// The shape over the selection's handles.
    pub open spec fn selection_shape(self, p: (i64, i64), tol: int, u: Under<F>) -> Option<
        CursorShape,
    > {
        if self.selected.len() > 1 && u.group.on_rotate {
            Some(CursorShape::Grab)
        } else if self.selected.len() > 1 && u.group.handle is Some {
            Some(handle_shape(u.group.handle->0))
        } else {
            match self.single() {
                Some(a) => item_shape(a, p, tol, u, self.tool == Tool::Select),
                None => None,
            }
        }
    }

    /// The pointer's shape at window pixel `(x, y)`, world point `p`.
    pub open spec fn cursor_shape(
        self,
        x: int,
        y: int,
        p: (i64, i64),
        tol: int,
        u: Under<F>,
    ) -> CursorShape {
        if y < TOOLBAR_H || x < TOOLBAR_W {
            CursorShape::Default
        } else if self.tool == Tool::Guide {
            self.guide_shape(p, tol)
        } else if self.tool != Tool::Select && self.selected.len() == 0 {
            CursorShape::Crosshair
        } else {
            match self.selection_shape(p, tol, u) {
                Some(c) => c,
                None => if self.tool != Tool::Select {
                    CursorShape::Crosshair
                } else if u.hit is Some {
                    CursorShape::Move
                } else {
                    CursorShape::Default
                },
            }
        }
    }

    /// The item being drawn, with the pointer at `b`.
    pub open spec fn preview<L: Fn(i64) -> F>(self, b: (i64, i64), lift: L) -> Option<Item<F, S>> {
        if self.dragging {
            match self.drag_start {
                None => None,
                Some(a) => if self.tool == Tool::Draw {
                    Some(
                        Item::Polyline {
                            points: self.freehand_pts.push(b),
                            color: self.style.color,
                            thick: self.style.thick,
                        },
                    )
                } else {
                    self.drawn(a, b, lift)
                },
            }
        } else if self.polyline_pts.len() > 0 {
            Some(
                Item::Polyline {
                    points: self.polyline_pts.push(b),
                    color: self.style.color,
                    thick: self.style.thick,
                },
            )
        } else {
            None
        }
    }

    /// The marquee being drawn, with the pointer at `b`.
    pub open spec fn marquee_rect(self, b: (i64, i64)) -> Option<(i64, i64, i64, i64)> {
        match self.drag_start {
            Some(a) if self.dragging && self.tool == Tool::Select => Some(
                normalized((a.0, a.1, b.0, b.1)),
            ),
            _ => None,
        }
    }

    /// The guide outside of which the canvas is dimmed: the one being drawn,
    /// else the one placed.
    pub open spec fn dim_guide(self, preview: Option<Item<F, S>>) -> Option<(i64, i64, i64, i64)> {
        match preview {
            Some(Item::Guide { r }) => Some(normalized(r)),
            _ => match guide_rect(self.items) {
                Some(r) => Some(normalized(r)),
                None => None,
            },
        }
    }

    /// The text being typed as it is shown: with what the input method has
    /// not committed, and a caret.
    pub open spec fn caret_text(self) -> Option<((i64, i64), Seq<char>)> {
        match self.editing {
            Some((pos, text)) => Some((pos, (text + self.ime_preedit).push('|'))),
            None => None,
        }
    }

    /// How the selection is marked.
    pub open spec fn marks(self) -> Marks {
        if self.tool == Tool::Guide {
            match self.first_place() {
                Some(i) => Marks::Item(i as usize),
                None => Marks::Nothing,
            }
        } else if self.selected.len() > 1 {
            Marks::Frame
        } else {
            match self.single() {
                Some(a) => if a is Polyline {
                    Marks::ItemAndFrame(self.selected[0])
                } else {
                    Marks::Item(self.selected[0])
                },
                None => Marks::Nothing,
            }
        }
    }
}

/// How the selection is marked.
#[derive(Clone, Copy, Debug, PartialEq, Eq, Structural)]
pub enum Marks {
    Nothing,
    /// The handles of the item at this place.
    Item(usize),
    /// The vertices of the polyline at this place, and the selection's frame.
    ItemAndFrame(usize),
    /// The selection's frame.
    Frame,
}

impl<F: Copy, S: Copy> Editor<F, S> {
    /// The shape with the guide tool.
    fn guide_shape(&self, p: (i64, i64), tol: i64) -> (c: CursorShape)
        ensures
            c == self@.guide_shape(p, tol as int),
    {
        match crate::measure::guide_index(&self.annotations) {
            None => CursorShape::Crosshair,
            Some(i) => match &self.annotations[i] {
                Annotation::Guide { r } => {
                    if let Some(h) = hit_rect_handle(*r, p, tol) {
                        return handle_cursor(h);
                    }
                    let n = rect_norm(*r);
                    if p.0 >= n.0 && p.0 <= n.2 && p.1 >= n.1 && p.1 <= n.3 {
                        CursorShape::Move
                    } else {
                        CursorShape::Crosshair
                    }
                },
                _ => CursorShape::Crosshair,
            },
        }
    }

    /// The shape over the selection's handles.
    fn selection_shape(&self, p: (i64, i64), tol: i64, u: &Under<F>) -> (c: Option<CursorShape>)
        ensures
            c == self@.selection_shape(p, tol as int, *u),
    {
        if self.selected.len() > 1 {
            if u.group.on_rotate {
                return Some(CursorShape::Grab);
            }
            if let Some(h) = u.group.handle {
                return Some(handle_cursor(h));
            }
        }
        match self.single_place() {
            Some(i) => shape_over(&self.annotations[i], p, tol, u, self.tool == Tool::Select),
            None => None,
        }
    }

    /// The pointer's shape at window pixel `(x, y)`, world point `p`: over the
    /// bars plain, over handles as they can be pulled, over an item that can
    /// be moved a move, and a cross where drawing starts.
    pub fn update_cursor(
        &self,
        x: usize,
        y: usize,
        p: (i64, i64),
        tol: i64,
        u: &Under<F>,
    ) -> (c: CursorShape)
        ensures
            c == self@.cursor_shape(x as int, y as int, p, tol as int, *u),
    {
        if y < TOOLBAR_H || x < TOOLBAR_W {
            return CursorShape::Default;
        }
        if self.tool == Tool::Guide {
            return self.guide_shape(p, tol);
        }
        if self.tool != Tool::Select && self.selected.is_empty() {
            return CursorShape::Crosshair;
        }
        if let Some(c) = self.selection_shape(p, tol, u) {
            return c;
        }
        if self.tool != Tool::Select {
            CursorShape::Crosshair
        } else if u.hit.is_some() {
            CursorShape::Move
        } else {
            CursorShape::Default
        }
    }

    /// The item being drawn, with the pointer at `b`.
    pub fn preview<L: Fn(i64) -> F>(&self, b: (i64, i64), lift: &L) -> (x: Option<Annotation<F, S>>)
        requires
            pure(*lift),
        ensures
            match x {
                Some(v) => self@.preview(b, *lift) == Some(v@),
                None => self@.preview(b, *lift) is None,
            },
    {
        if self.dragging {
            match self.drag_start {
                None => None,
                Some(a) => {
                    if self.tool == Tool::Draw {
                        let mut points = copy_points(&self.freehand_pts);
                        points.push(b);
                        Some(
                            Annotation::Polyline {
                                points,
                                color: self.style.color,
                                thick: self.style.thick,
                            },
                        )
                    } else {
                        self.drawn(a, b, lift)
                    }
                },
            }
        } else if !self.polyline_pts.is_empty() {
            let mut points = copy_points(&self.polyline_pts);
            points.push(b);
            Some(
                Annotation::Polyline { points, color: self.style.color, thick: self.style.thick },
            )
        } else {
            None
        }
    }

    /// The marquee being drawn, with the pointer at `b`.
    pub fn marquee_rect(&self, b: (i64, i64)) -> (r: Option<(i64, i64, i64, i64)>)
        ensures
            r == self@.marquee_rect(b),
    {
        match self.drag_start {
            Some(a) => if self.dragging && self.tool == Tool::Select {
                Some(rect_of(a, b))
            } else {
                None
            },
            None => None,
        }
    }

    /// The guide outside of which the canvas is dimmed.
    fn dim_guide(&self, preview: &Option<Annotation<F, S>>) -> (g: Option<(i64, i64, i64, i64)>)
        ensures
            g == self@.dim_guide(
                match *preview {
                    Some(a) => Some(a@),
                    None => None,
                },
            ),
    {
        match preview {
            Some(Annotation::Guide { r }) => Some(rect_norm(*r)),
            _ => guide_bounds(&self.annotations),
        }
    }

    /// The text being typed as it is shown.
    pub fn caret_text(&self) -> (t: Option<((i64, i64), String)>)
        ensures
            match t {
                Some((pos, s)) => self@.caret_text() == Some((pos, s@)),
                None => self@.caret_text() is None,
            },
    {
        match &self.editing {
            None => None,
            Some((pos, text)) => {
                let mut s = text.clone();
                s.append(self.ime_preedit.as_str());
                s.push('|');
                Some((*pos, s))
            },
        }
    }

    /// How the selection is marked.
    pub fn marks(&self) -> (m: Marks)
        ensures
            m == self@.marks(),
    {
        if self.tool == Tool::Guide {
            if self.selected.is_empty() || self.selected[0] >= self.annotations.len() {
                Marks::Nothing
            } else {
                Marks::Item(self.selected[0])
            }
        } else if self.selected.len() > 1 {
            Marks::Frame
        } else {
            match self.single_place() {
                Some(i) => match &self.annotations[i] {
                    Annotation::Polyline { .. } => Marks::ItemAndFrame(i),
                    _ => Marks::Item(i),
                },
                None => Marks::Nothing,
            }
        }
    }
}

// ---- The bars ----

/// How a property control looks.
#[derive(Debug)]
pub enum PropLook {
    /// The color field: filled, or with the word "Mixed", and framed if the
    /// picker is open.
    Swatch { color: Option<u32>, open: bool },
    /// A stepper.
    Step { up: bool },
    /// A number field with its text, framed while it is typed in.
    Number { text: String, focused: bool },
    /// A toggle, lit if on for the whole selection.
    Fill { active: bool },
    Blur { active: bool },
}

/// The text of a value, or "Mixed".
pub open spec fn value_text<T>(v: PropVal<T>, text: spec_fn(T) -> Seq<char>) -> Seq<char> {
    match v {
        PropVal::Uniform(x) => text(x),
        PropVal::Mixed(_) => "Mixed"@,
    }
}

impl<F, S> Model<F, S> {
    /// The text in a number field: what is being typed, with a caret, else its
    /// value.
    pub open spec fn field_text<W: Fn(S) -> i64>(self, f: Field, v: StyleVals<S>, whole: W) -> Seq<
        char,
    > {
        if self.focus == Some(f) {
            self.buf.push('|')
        } else {
            match f {
                Field::Line => value_text(v.thick, |x: i64| decimal_text(x as int)),
                Field::Size => value_text(v.size, |x: S| decimal_text(result(whole, x) as int)),
                Field::Number => decimal_text(self.next_marker_num as int),
                Field::Block => value_text(v.block, |x: S| decimal_text(result(whole, x) as int)),
            }
        }
    }

    /// Whether `look` is how a control looks, with the selection's style `v`.
    pub open spec fn looks<W: Fn(S) -> i64>(
        self,
        c: PropCtrl,
        v: StyleVals<S>,
        whole: W,
        look: PropLook,
    ) -> bool {
        match c {
            PropCtrl::Color => look == (PropLook::Swatch {
                color: match v.color {
                    PropVal::Uniform(x) => Some(x),
                    PropVal::Mixed(_) => None,
                },
                open: self.picker is Some,
            }),
            PropCtrl::Step(_, up) => look == (PropLook::Step { up }),
            PropCtrl::Field(f) => look matches PropLook::Number { text, focused } && text@
                == self.field_text(f, v, whole) && focused == (self.focus == Some(f)),
            PropCtrl::Fill => look == (PropLook::Fill { active: v.filled == PropVal::Uniform(true) }),
            PropCtrl::Blur => look == (PropLook::Blur { active: v.blur == PropVal::Uniform(true) }),
        }
    }
}

fn mixed() -> (s: String)
    ensures
        s@ == "Mixed"@,
{
    "Mixed".to_string()
}

impl<F: Copy, S: Copy> Editor<F, S> {
    /// Whether the field is being typed in.
    fn is_focused(&self, f: Field) -> (r: bool)
        ensures
            r == (self@.focus == Some(f)),
    {
        match self.focus {
            Some(g) => g == f,
            None => false,
        }
    }

    /// The text in a number field. `whole` rounds a size.
    pub fn field_text<W: Fn(S) -> i64>(&self, f: Field, v: &StyleVals<S>, whole: &W) -> (t: String)
        requires
            pure(*whole),
        ensures
            t@ == self@.field_text(f, *v, *whole),
    {
        if self.is_focused(f) {
            let mut s = self.buf.clone();
            s.push('|');
            return s;
        }
        match f {
            Field::Line => match v.thick {
                PropVal::Uniform(x) => decimal(x),
                PropVal::Mixed(_) => mixed(),
            },
            Field::Size => match v.size {
                PropVal::Uniform(x) => decimal(apply(whole, x)),
                PropVal::Mixed(_) => mixed(),
            },
            Field::Number => decimal(self.next_marker_num as i64),
            Field::Block => match v.block {
                PropVal::Uniform(x) => decimal(apply(whole, x)),
                PropVal::Mixed(_) => mixed(),
            },
        }
    }

    /// How a property control looks.
    pub fn prop_look<W: Fn(S) -> i64>(&self, c: PropCtrl, v: &StyleVals<S>, whole: &W) -> (look:
        PropLook)
        requires
            pure(*whole),
        ensures
            self@.looks(c, *v, *whole, look),
    {
        match c {
            PropCtrl::Color => PropLook::Swatch {
                color: match v.color {
                    PropVal::Uniform(x) => Some(x),
                    PropVal::Mixed(_) => None,
                },
                open: self.picker.is_some(),
            },
            PropCtrl::Step(_, up) => PropLook::Step { up },
            PropCtrl::Field(f) => PropLook::Number {
                text: self.field_text(f, v, whole),
                focused: self.is_focused(f),
            },
            PropCtrl::Fill => PropLook::Fill { active: matches!(v.filled, PropVal::Uniform(true)) },
            PropCtrl::Blur => PropLook::Blur { active: matches!(v.blur, PropVal::Uniform(true)) },
        }
    }
}

/// A button as it is drawn.
#[derive(Debug)]
pub struct ButtonLook {
    pub btn: EditorBtn,
    pub rect: Rect,
    pub color: u32,
    pub icon: Rect,
}

/// Whether the looks are those of the laid-out buttons, in order.
pub open spec fn buttons_drawn<F, S>(
    m: Model<F, S>,
    layout: Seq<(EditorBtn, Rect)>,
    looks: Seq<ButtonLook>,
) -> bool {
    looks.len() == layout.len() && forall|i: int|
        0 <= i < layout.len() ==> {
            let b = #[trigger] looks[i];
            &&& b.btn == layout[i].0
            &&& b.rect == layout[i].1
            &&& b.color == button_look(layout[i].0, m.tool, m.pinned, m.hover)
            &&& b.icon.x0 == b.rect.x0 + ICON_PAD
            &&& b.icon.y0 == b.rect.y0 + ICON_PAD
            &&& b.icon.x1 == floor_sub(b.rect.x1 as int, ICON_PAD as int)
            &&& b.icon.y1 == floor_sub(b.rect.y1 as int, ICON_PAD as int)
        }
}

/// Whether the looks are those of the laid-out controls, in order.
pub open spec fn props_drawn<F, S, W: Fn(S) -> i64>(
    m: Model<F, S>,
    layout: Seq<(PropCtrl, Rect)>,
    v: StyleVals<S>,
    whole: W,
    looks: Seq<(Rect, PropLook)>,
) -> bool {
    looks.len() == layout.len() && forall|i: int|
        0 <= i < layout.len() ==> {
            let l = #[trigger] looks[i];
            l.0 == layout[i].1 && m.looks(layout[i].0, v, whole, l.1)
        }
}

/// One frame of the editor, ready to be painted from the bottom up.
#[derive(Debug)]
pub struct Scene<F, S> {
    /// Whether the kept background is painted in place of the checkerboard
    /// and the items.
    pub use_cache: bool,
    /// Whether what was painted so far is kept as background.
    pub keep_cache: bool,
    /// The item being drawn.
    pub preview: Option<Annotation<F, S>>,
    /// The guide outside of which the canvas is dimmed.
    pub guide: Option<(i64, i64, i64, i64)>,
    /// The text being typed.
    pub caret: Option<((i64, i64), String)>,
    pub marks: Marks,
    /// The selection's frame and angle, where the marks ask for it.
    pub frame: ((F, F, F, F), F),
    pub marquee: Option<(i64, i64, i64, i64)>,
    pub top_bar: Rect,
    pub left_bar: Rect,
    pub buttons: Vec<ButtonLook>,
    /// The number field whose label is shown.
    pub field: Option<Field>,
    pub props: Vec<(Rect, PropLook)>,
    /// The picker's parts, if it is open.
    pub picker: Option<(S, S, S)>,
}

/// The smaller of two sizes.
fn least(a: usize, b: usize) -> (r: usize)
    ensures
        r == (if a <= b {
            a
        } else {
            b
        }),
{
    if a <= b {
        a
    } else {
        b
    }
}

impl<F: Copy, S: Copy> Editor<F, S> {
    /// The buttons as they are drawn.
    fn draw_buttons(&self, layout: &Vec<(EditorBtn, Rect)>) -> (looks: Vec<ButtonLook>)
        requires
            forall|i: int|
                0 <= i < layout@.len() ==> (#[trigger] layout@[i]).1.x0 + ICON_PAD <= usize::MAX
                    && layout@[i].1.y0 + ICON_PAD <= usize::MAX,
        ensures
            buttons_drawn(self@, layout@, looks@),
    {
        let mut looks: Vec<ButtonLook> = Vec::new();
        let mut i: usize = 0;
        while i < layout.len()
            invariant
                i <= layout@.len(),
                forall|k: int|
                    0 <= k < layout@.len() ==> (#[trigger] layout@[k]).1.x0 + ICON_PAD
                        <= usize::MAX && layout@[k].1.y0 + ICON_PAD <= usize::MAX,
                buttons_drawn(self@, layout@.take(i as int), looks@),
            decreases layout.len() - i,
        {
            let (btn, rect) = layout[i];
            assert(layout@[i as int].1.x0 + ICON_PAD <= usize::MAX);
            looks.push(
                ButtonLook {
                    btn,
                    rect,
                    color: button_color(btn, self.tool, self.pinned, self.hover),
                    icon: icon_rect(rect),
                },
            );
            i += 1;
        }
        assert(layout@.take(layout@.len() as int) =~= layout@);
        looks
    }

    /// The property controls as they are drawn.
    fn draw_props<W: Fn(S) -> i64>(
        &self,
        layout: &Vec<(PropCtrl, Rect)>,
        v: &StyleVals<S>,
        whole: &W,
    ) -> (looks: Vec<(Rect, PropLook)>)
        requires
            pure(*whole),
        ensures
            props_drawn(self@, layout@, *v, *whole, looks@),
    {
        let mut looks: Vec<(Rect, PropLook)> = Vec::new();
        let mut i: usize = 0;
        while i < layout.len()
            invariant
                i <= layout@.len(),
                pure(*whole),
                props_drawn(self@, layout@.take(i as int), *v, *whole, looks@),
            decreases layout.len() - i,
        {
            let (c, rect) = layout[i];
            looks.push((rect, self.prop_look(c, v, whole)));
            i += 1;
        }
        assert(layout@.take(layout@.len() as int) =~= layout@);
        looks
    }

    /// One frame, for a window `size` large with the pointer at world point
    /// `b`. `cache_fits` says that a kept background is of this frame's size
    /// and place. The frame of a drag comes from `frames`, the selection's
    /// style is compared with `same`.
    pub fn draw<P, R, G, D, B, E, L, W>(
        &self,
        size: (usize, usize),
        b: (i64, i64),
        cache_fits: bool,
        labels: &Labels,
        frames: &FrameCalc<P, R, G, D, B>,
        same: &E,
        lift: &L,
        whole: &W,
    ) -> (scene: Scene<F, S>) where
        P: Fn(F, i64) -> F,
        R: Fn(((F, F, F, F), Handle, F, Ratio)) -> (F, F, F, F),
        G: Fn(((F, F), F, bool)) -> F,
        D: Fn(F, F) -> F,
        B: Fn(usize) -> (F, F, F, F),
        E: Fn(S, S) -> bool,
        L: Fn(i64) -> F,
        W: Fn(S) -> i64,

        requires
            self@.frame_fits(b),
            labels.fit(),
            computes_frames::<F, P, R, G, D, B>(*frames),
            forall|p: S, q: S| call_requires(*same, (p, q)),
            pure(*lift),
            pure(*whole),
        ensures
            scene.use_cache == (self@.tool == Tool::Draw && self@.dragging && cache_fits),
            scene.keep_cache == (self@.tool == Tool::Draw && self@.dragging && !cache_fits),
            match scene.preview {
                Some(x) => self@.preview(b, *lift) == Some(x@),
                None => self@.preview(b, *lift) is None,
            },
            scene.guide == self@.dim_guide(self@.preview(b, *lift)),
            match scene.caret {
                Some((pos, s)) => self@.caret_text() == Some((pos, s@)),
                None => self@.caret_text() is None,
            },
            scene.marks == self@.marks(),
            scene.frame == match self@.dragged_frame(b, *frames) {
                Some(f) => f,
                None => (self@.group_rect, self@.group_rot),
            },
            scene.marquee == self@.marquee_rect(b),
            scene.top_bar == (Rect {
                x0: 0,
                y0: 0,
                x1: size.0,
                y1: (if TOOLBAR_H <= size.1 {
                    TOOLBAR_H
                } else {
                    size.1
                }),
            }),
            scene.left_bar == (Rect {
                x0: 0,
                y0: scene.top_bar.y1,
                x1: (if TOOLBAR_W <= size.0 {
                    TOOLBAR_W
                } else {
                    size.0
                }),
                y1: size.1,
            }),
            buttons_drawn(
                self@,
                tool_layout() + button_layout(size.0 as int),
                scene.buttons@,
            ),
            scene.field == self@.active_field(),
            exists|v: StyleVals<S>| #[trigger]
                common_of(self@.picked(), self@.style, *same, v) && props_drawn(
                    self@,
                    prop_layout(
                        self@.active_field(),
                        self@.active_fill_checkbox(),
                        labels.color,
                        labels.beside(self@.active_field()),
                    ),
                    v,
                    *whole,
                    scene.props@,
                ),
            scene.picker == self@.picker,
    {
        let v = self.active_style(same);
        let dragged = self.dragged_frame(b, frames);
        let field = self.active_field();
        let fill = self.active_fill_checkbox();
        let beside = labels.field_label(field);
        assert(top_fits(0, labels.color, labels.beside(field)));
        let (props, mut top) = top_layout(size.0, field, fill, labels.color, beside);
        let mut all = tool_buttons();
        all.append(&mut top);
        let preview = self.preview(b, lift);
        let guide = self.dim_guide(&preview);
        let bar_h: usize = least(TOOLBAR_H, size.1);
        let drawing: bool = self.tool == Tool::Draw && self.dragging;
        Scene {
            use_cache: drawing && cache_fits,
            keep_cache: drawing && !cache_fits,
            preview,
            guide,
            caret: self.caret_text(),
            marks: self.marks(),
            frame: match dragged {
                Some(f) => f,
                None => (self.group_rect, self.group_rot),
            },
            marquee: self.marquee_rect(b),
            top_bar: Rect { x0: 0, y0: 0, x1: size.0, y1: bar_h },
            left_bar: Rect { x0: 0, y0: bar_h, x1: least(TOOLBAR_W, size.0), y1: size.1 },
            buttons: self.draw_buttons(&all),
            field,
            props: self.draw_props(&props, &v, whole),
            picker: self.picker,
        }
    }
}

} // verus!

//! The editor's bars: tools on the left, properties and buttons on top, and
//! the color picker's popup.

use vstd::prelude::*;

use crate::rect::{floor_sub, mk_rect, Rect};

verus! {

/// Top bar height.
pub const TOOLBAR_H: usize = 46;

/// Left bar width.
pub const TOOLBAR_W: usize = 56;

/// Side of a square icon button.
pub const BTN_SIZE: usize = 40;

/// Padding around a button's icon.
pub const ICON_PAD: usize = 6;

pub const BTN_GAP: usize = 6;

/// Gap between Pin and Save.
pub const GROUP_GAP: usize = 18;

/// Height of the color field.
pub const SWATCH: usize = 26;

/// Width of the color field.
pub const COLOR_W: usize = 64;

pub const FIELD_W: usize = 48;

pub const FIELD_H: usize = 26;

/// Gap between a label and its control.
pub const LABEL_GAP: usize = 10;

/// Label widths without a font.
pub const COLOR_LABEL_W_FALLBACK: usize = 40;

pub const LABEL_W_FALLBACK: usize = 72;

/// Gap from the color field to the next label.
pub const COLOR_FIELD_GAP: usize = 24;

pub const STEP_W: usize = 22;

pub const FILL_W: usize = 52;

pub const FILL_GAP: usize = 16;

pub const BLUR_W: usize = 52;

pub const BLUR_GAP: usize = 16;

/// Side of the picker's square, height of its hue bar, and its padding.
pub const PICK_SV: usize = 128;

pub const PICK_HUE_H: usize = 14;

pub const PICK_PAD: usize = 8;

pub const BTN_BG: u32 = 0x0033_3333;

pub const BTN_HOVER: u32 = 0x0045_4545;

pub const BTN_ACTIVE: u32 = 0x004D_A6FF;

/// An editing tool. Every tool stays active after use.
#[derive(Clone, Copy, Debug, PartialEq, Eq, Structural)]
pub enum Tool {
    Select,
    Arrow,
    Polyline,
    Draw,
    Rect,
    Ellipse,
    Text,
    NumberMarker,
    Guide,
    Mosaic,
}

/// A button of the bars.
#[derive(Clone, Copy, Debug, PartialEq, Eq, Structural)]
pub enum EditorBtn {
    Tool(Tool),
    /// Always on top.
    Pin,
    Save,
    Copy,
}

/// A number field.
#[derive(Clone, Copy, Debug, PartialEq, Eq, Structural)]
pub enum Field {
    Line,
    Size,
    /// The number of the next marker to place: a setting of the tool, not of
    /// an item.
    Number,
    /// A mosaic's block length.
    Block,
}

impl Field {
    /// The text beside the field.
    pub open spec fn caption(self) -> Seq<char> {
        match self {
            Field::Line => "Width"@,
            Field::Size => "Size"@,
            Field::Number => "Number"@,
            Field::Block => "Block"@,
        }
    }

    /// The text beside the field.
    pub fn label(self) -> (s: &'static str)
        ensures
            s@ == self.caption(),
    {
        match self {
            Field::Line => "Width",
            Field::Size => "Size",
            Field::Number => "Number",
            Field::Block => "Block",
        }
    }
}

/// A property control of the top bar.
#[derive(Clone, Copy, Debug, PartialEq, Eq, Structural)]
pub enum PropCtrl {
    Color,
    Field(Field),
    /// A stepper; `true` increases.
    Step(Field, bool),
    Fill,
    Blur,
}

/// The rectangle `w` by `h` at `(x, y)`.
pub open spec fn boxed(x: int, y: int, w: int, h: int) -> Rect {
    Rect { x0: x as usize, y0: y as usize, x1: (x + w) as usize, y1: (y + h) as usize }
}

// ---- Left bar ----

/// The tools in their order from top to bottom.
pub open spec fn tool_order() -> Seq<Tool> {
    seq![
        Tool::Select,
        Tool::Arrow,
        Tool::Polyline,
        Tool::Draw,
        Tool::Rect,
        Tool::Ellipse,
        Tool::Mosaic,
        Tool::Text,
        Tool::NumberMarker,
        Tool::Guide,
    ]
}

/// The place of the `i`-th tool button.
pub open spec fn tool_place(i: int) -> Rect {
    boxed(8, 58 + 46 * i, 40, 40)
}

/// The left bar's buttons.
pub open spec fn tool_layout() -> Seq<(EditorBtn, Rect)> {
    Seq::new(10, |i: int| (EditorBtn::Tool(tool_order()[i]), tool_place(i)))
}

/// The left bar's tool buttons with their places, top to bottom.
pub fn tool_buttons() -> (v: Vec<(EditorBtn, Rect)>)
    ensures
        v@ == tool_layout(),
{
    let tools: [Tool; 10] = [
        Tool::Select,
        Tool::Arrow,
        Tool::Polyline,
        Tool::Draw,
        Tool::Rect,
        Tool::Ellipse,
        Tool::Mosaic,
        Tool::Text,
        Tool::NumberMarker,
        Tool::Guide,
    ];
    let x: usize = (TOOLBAR_W - BTN_SIZE) / 2;
    let mut v: Vec<(EditorBtn, Rect)> = Vec::new();
    let mut y: usize = TOOLBAR_H + 12;
    let mut i: usize = 0;
    assert(tools@ =~= tool_order());
    while i < 10
        invariant
            i <= 10,
            x == 8,
            y == 58 + 46 * i,
            tools@ == tool_order(),
            v@ =~= tool_layout().take(i as int),
        decreases 10 - i,
    {
        v.push((EditorBtn::Tool(tools[i]), mk_rect(x, y, BTN_SIZE, BTN_SIZE)));
        y += BTN_SIZE + BTN_GAP;
        i += 1;
    }
    v
}

/// Every tool button lies in the left bar below the top bar, and no two
/// overlap.
pub proof fn law_tool_buttons_in_left_bar(i: int, j: int)
    requires
        0 <= i < 10,
        0 <= j < 10,
    ensures
        tool_layout()[i].1.y0 >= TOOLBAR_H,
        tool_layout()[i].1.x1 <= TOOLBAR_W,
        i != j ==> tool_layout()[i].1.apart(tool_layout()[j].1),
        i != j ==> tool_layout()[i].0 != tool_layout()[j].0,
{
}

// ---- Top bar ----

/// The width of a label column: the measured text and a gap, or a fallback
/// without a font.
pub open spec fn label_width(measured: Option<usize>, fallback: int) -> int {
    match measured {
        Some(m) => m + LABEL_GAP,
        None => fallback,
    }
}

/// The width of a label column.
pub fn label_col_w(measured: Option<usize>, fallback: usize) -> (w: usize)
    requires
        measured matches Some(m) ==> m + LABEL_GAP <= usize::MAX,
    ensures
        w == label_width(measured, fallback as int),
{
    match measured {
        Some(m) => m + LABEL_GAP,
        None => fallback,
    }
}

/// Where the color field starts.
pub open spec fn color_x(color_label: Option<usize>) -> int {
    10 + label_width(color_label, COLOR_LABEL_W_FALLBACK as int)
}

/// Where the number field's decrease button starts.
pub open spec fn step_x(color_label: Option<usize>, field_label: Option<usize>) -> int {
    color_x(color_label) + COLOR_W + COLOR_FIELD_GAP + label_width(
        field_label,
        LABEL_W_FALLBACK as int,
    )
}

/// The property controls from left to right: the color, the number field
/// between its steppers, the fill toggle and, for a mosaic's block length,
/// the blur toggle.
pub open spec fn prop_layout(
    show: Option<Field>,
    show_fill: bool,
    color_label: Option<usize>,
    field_label: Option<usize>,
) -> Seq<(PropCtrl, Rect)> {
    let cx = color_x(color_label);
    let color = seq![(PropCtrl::Color, boxed(cx, 10, 64, 26))];
    let (fields, x) = match show {
        Some(f) => {
            let sx = step_x(color_label, field_label);
            (
                color + seq![
                    (PropCtrl::Step(f, false), boxed(sx, 10, 22, 26)),
                    (PropCtrl::Field(f), boxed(sx + 22, 10, 48, 26)),
                    (PropCtrl::Step(f, true), boxed(sx + 70, 10, 22, 26)),
                ],
                sx + 92,
            )
        },
        None => (color, cx + 88),
    };
    let (filled, x2) = if show_fill {
        (fields.push((PropCtrl::Fill, boxed(x + 16, 10, 52, 26))), x + 16)
    } else {
        (fields, x)
    };
    if show == Some(Field::Block) {
        filled.push((PropCtrl::Blur, boxed(x2 + 16, 10, 52, 26)))
    } else {
        filled
    }
}

/// The top bar's buttons from right to left: Copy, Save and, after a gap,
/// Pin.
pub open spec fn button_layout(sw: int) -> Seq<(EditorBtn, Rect)> {
    let copy = floor_sub(sw, 50);
    let save = floor_sub(copy, 46);
    let pin = floor_sub(floor_sub(save, 46), 18);
    seq![
        (EditorBtn::Copy, boxed(copy, 3, 40, 40)),
        (EditorBtn::Save, boxed(save, 3, 40, 40)),
        (EditorBtn::Pin, boxed(pin, 3, 40, 40)),
    ]
}

/// Whether the top bar's places fit.
pub open spec fn top_fits(
    sw: int,
    color_label: Option<usize>,
    field_label: Option<usize>,
) -> bool {
    sw <= usize::MAX && step_x(color_label, field_label) + 300 <= usize::MAX
}

/// The top bar: property controls on the left, buttons on the right of a
/// window `sw` wide. `show` is the number field to show, the label widths are
/// measured with the font if there is one.
pub fn top_layout(
    sw: usize,
    show: Option<Field>,
    show_fill: bool,
    color_label: Option<usize>,
    field_label: Option<usize>,
) -> (out: (Vec<(PropCtrl, Rect)>, Vec<(EditorBtn, Rect)>))
    requires
        top_fits(sw as int, color_label, field_label),
    ensures
        out.0@ == prop_layout(show, show_fill, color_label, field_label),
        out.1@ == button_layout(sw as int),
{
    let fy: usize = (TOOLBAR_H - FIELD_H) / 2;
    let by: usize = (TOOLBAR_H - BTN_SIZE) / 2;
    let sy: usize = (TOOLBAR_H - SWATCH) / 2;
    let mut props: Vec<(PropCtrl, Rect)> = Vec::new();
    let mut x: usize = 10 + label_col_w(color_label, COLOR_LABEL_W_FALLBACK);
    props.push((PropCtrl::Color, mk_rect(x, sy, COLOR_W, SWATCH)));
    x += COLOR_W + COLOR_FIELD_GAP;
    if let Some(f) = show {
        x += label_col_w(field_label, LABEL_W_FALLBACK);
        props.push((PropCtrl::Step(f, false), mk_rect(x, fy, STEP_W, FIELD_H)));
        x += STEP_W;
        props.push((PropCtrl::Field(f), mk_rect(x, fy, FIELD_W, FIELD_H)));
        x += FIELD_W;
        props.push((PropCtrl::Step(f, true), mk_rect(x, fy, STEP_W, FIELD_H)));
        x += STEP_W;
    }
    if show_fill {
        x += FILL_GAP;
        props.push((PropCtrl::Fill, mk_rect(x, fy, FILL_W, FIELD_H)));
    }
    if show == Some(Field::Block) {
        x += BLUR_GAP;
        props.push((PropCtrl::Blur, mk_rect(x, fy, BLUR_W, FIELD_H)));
    }
    assert(props@ =~= prop_layout(show, show_fill, color_label, field_label));
    let mut buttons: Vec<(EditorBtn, Rect)> = Vec::new();
    let copy: usize = sw.saturating_sub(10 + BTN_SIZE);
    buttons.push((EditorBtn::Copy, mk_rect(copy, by, BTN_SIZE, BTN_SIZE)));
    let save: usize = copy.saturating_sub(BTN_SIZE + BTN_GAP);
    buttons.push((EditorBtn::Save, mk_rect(save, by, BTN_SIZE, BTN_SIZE)));
    let pin: usize = save.saturating_sub(BTN_SIZE + BTN_GAP).saturating_sub(GROUP_GAP);
    buttons.push((EditorBtn::Pin, mk_rect(pin, by, BTN_SIZE, BTN_SIZE)));
    assert(buttons@ =~= button_layout(sw as int));
    (props, buttons)
}

/// Every property control lies within the top bar.
pub proof fn law_props_in_top_bar(
    show: Option<Field>,
    show_fill: bool,
    color_label: Option<usize>,
    field_label: Option<usize>,
    i: int,
)
    requires
        top_fits(0, color_label, field_label),
        0 <= i < prop_layout(show, show_fill, color_label, field_label).len(),
    ensures
        prop_layout(show, show_fill, color_label, field_label)[i].1.y1 <= TOOLBAR_H,
        prop_layout(show, show_fill, color_label, field_label)[i].1.nonempty(),
{
}

/// Property controls stand from left to right without overlapping, except
/// that with both toggles shown the blur toggle starts before the fill toggle
/// ends.
pub proof fn law_props_left_to_right(
    show: Option<Field>,
    show_fill: bool,
    color_label: Option<usize>,
    field_label: Option<usize>,
    i: int,
    j: int,
)
    requires
        top_fits(0, color_label, field_label),
        !(show_fill && show == Some(Field::Block)),
        0 <= i < j < prop_layout(show, show_fill, color_label, field_label).len(),
    ensures
        prop_layout(show, show_fill, color_label, field_label)[i].1.x1 <= prop_layout(
            show,
            show_fill,
            color_label,
            field_label,
        )[j].1.x0,
{
}

/// The buttons lie within the top bar and, in a window wide enough for the
/// three, side by side and inside the window.
pub proof fn law_buttons_in_top_bar(sw: int, i: int, j: int)
    requires
        160 <= sw <= usize::MAX,
        0 <= i < j < 3,
    ensures
        button_layout(sw)[i].1.y1 <= TOOLBAR_H,
        button_layout(sw)[j].1.y1 <= TOOLBAR_H,
        button_layout(sw)[j].1.x1 <= button_layout(sw)[i].1.x0,
        button_layout(sw)[i].1.x1 <= sw,
{
}

/// The first entry whose rectangle holds the pixel, from the `k`-th on.
pub open spec fn first_at<B>(layout: Seq<(B, Rect)>, x: int, y: int, k: int) -> Option<B>
    decreases layout.len() - k,
{
    if k >= layout.len() {
        None
    } else if layout[k].1.holds(x, y) {
        Some(layout[k].0)
    } else {
        first_at(layout, x, y, k + 1)
    }
}

/// The first entry whose rectangle holds the pixel.
pub fn find_at<B: Copy>(layout: &Vec<(B, Rect)>, x: usize, y: usize) -> (b: Option<B>)
    ensures
        b == first_at(layout@, x as int, y as int, 0),
{
    let mut k: usize = 0;
    while k < layout.len()
        invariant
            k <= layout@.len(),
            first_at(layout@, x as int, y as int, 0) == first_at(
                layout@,
                x as int,
                y as int,
                k as int,
            ),
        decreases layout.len() - k,
    {
        if layout[k].1.contains(x, y) {
            return Some(layout[k].0);
        }
        k += 1;
    }
    None
}

/// The button at a pixel: the left bar's tools first, then the top bar's.
pub open spec fn button_under(sw: int, x: int, y: int) -> Option<EditorBtn> {
    match first_at(tool_layout(), x, y, 0) {
        Some(b) => Some(b),
        None => first_at(button_layout(sw), x, y, 0),
    }
}

/// The button at a pixel of a window `sw` wide.
pub fn button_at(sw: usize, x: usize, y: usize) -> (b: Option<EditorBtn>)
    ensures
        b == button_under(sw as int, x as int, y as int),
{
    match find_at(&tool_buttons(), x, y) {
        Some(b) => Some(b),
        None => {
            let (_, buttons) = top_layout(sw, None, false, None, None);
            find_at(&buttons, x, y)
        },
    }
}

/// The property control at a pixel.
pub fn prop_at(
    show: Option<Field>,
    show_fill: bool,
    color_label: Option<usize>,
    field_label: Option<usize>,
    x: usize,
    y: usize,
) -> (c: Option<PropCtrl>)
    requires
        top_fits(0, color_label, field_label),
    ensures
        c == first_at(
            prop_layout(show, show_fill, color_label, field_label),
            x as int,
            y as int,
            0,
        ),
{
    let (props, _) = top_layout(0, show, show_fill, color_label, field_label);
    find_at(&props, x, y)
}

// ---- Picker ----

/// The picker's popup, its saturation-value square and its hue bar.
pub open spec fn picker_layout(color_label: Option<usize>) -> (Rect, Rect, Rect) {
    let px = color_x(color_label);
    (boxed(px, 50, 144, 166), boxed(px + 8, 58, 128, 128), boxed(px + 8, 194, 128, 14))
}

/// The picker's rectangles, directly below the color field.
pub fn picker_geom(color_label: Option<usize>) -> (out: (Rect, Rect, Rect))
    requires
        top_fits(0, color_label, None),
    ensures
        out == picker_layout(color_label),
{
    let px: usize = 10 + label_col_w(color_label, COLOR_LABEL_W_FALLBACK);
    let py: usize = TOOLBAR_H + 4;
    let popup = mk_rect(
        px,
        py,
        PICK_SV + 2 * PICK_PAD,
        PICK_SV + PICK_HUE_H + 3 * PICK_PAD,
    );
    let sv = mk_rect(px + PICK_PAD, py + PICK_PAD, PICK_SV, PICK_SV);
    let hue = mk_rect(px + PICK_PAD, sv.y1 + PICK_PAD, PICK_SV, PICK_HUE_H);
    (popup, sv, hue)
}

/// The square and the hue bar lie inside the popup, below the top bar, and do
/// not overlap.
pub proof fn law_picker_parts_inside_popup(color_label: Option<usize>)
    requires
        top_fits(0, color_label, None),
    ensures
        ({
            let (popup, sv, hue) = picker_layout(color_label);
            &&& popup.covers(sv)
            &&& popup.covers(hue)
            &&& sv.apart(hue)
            &&& popup.y0 >= TOOLBAR_H
        }),
{
}

// ---- Looks ----

/// A button's background: active for the current tool or a set pin, else
/// hovered or plain.
pub open spec fn button_look(
    btn: EditorBtn,
    tool: Tool,
    pinned: bool,
    hover: Option<EditorBtn>,
) -> u32 {
    if btn == EditorBtn::Tool(tool) || (btn == EditorBtn::Pin && pinned) {
        BTN_ACTIVE
    } else if hover == Some(btn) {
        BTN_HOVER
    } else {
        BTN_BG
    }
}

/// A button's background color.
pub fn button_color(
    btn: EditorBtn,
    tool: Tool,
    pinned: bool,
    hover: Option<EditorBtn>,
) -> (c: u32)
    ensures
        c == button_look(btn, tool, pinned, hover),
{
    let active: bool = btn == EditorBtn::Tool(tool) || (btn == EditorBtn::Pin && pinned);
    if active {
        BTN_ACTIVE
    } else {
        match hover {
            Some(h) => if h == btn {
                BTN_HOVER
            } else {
                BTN_BG
            },
            None => BTN_BG,
        }
    }
}

/// Where a button's icon goes.
pub fn icon_rect(r: Rect) -> (i: Rect)
    requires
        r.x0 + ICON_PAD <= usize::MAX,
        r.y0 + ICON_PAD <= usize::MAX,
    ensures
        i.x0 == r.x0 + ICON_PAD,
        i.y0 == r.y0 + ICON_PAD,
        i.x1 == floor_sub(r.x1 as int, ICON_PAD as int),
        i.y1 == floor_sub(r.y1 as int, ICON_PAD as int),
{
    crate::rect::inset(r, ICON_PAD)
}

} // verus!

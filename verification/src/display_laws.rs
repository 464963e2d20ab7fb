//! What the windows show: where the buttons stand and what they stand for,
//! what the pointer looks like, and what the canvas and the overlay draw.

use vstd::prelude::*;

use crate::annotation::Item;
use crate::backdrop::{crossed_pixel, on_frame, NO_SOURCE, ZoomRowCtx};
use crate::canvas::{handle_shape, CursorShape, Marks, PropLook};
use crate::press::Under;
use crate::editor::Model;
use crate::fields::decimal_text;
use crate::grid::at;
use crate::measure::guide_rect;
use crate::overlay::{CtrlBtn, Mode, OverlayModel, Recording, Spot};
use crate::pure::result;
use crate::recording::{base_of, ctrl_caption, lightened, looks_like, meter_of, CtrlLook};
use crate::rect::Rect;
use crate::style::{PropVal, StyleVals};
use crate::toolbar::{
    boxed, button_layout, button_look, button_under, color_x, first_at, picker_layout, prop_layout,
    step_x, tool_layout, EditorBtn, Field, PropCtrl, Tool,
};

verus! {

// ---- The editor's bars ----

proof fn lemma_first_at<B>(layout: Seq<(B, Rect)>, x: int, y: int, i: int, k: int)
    requires
        0 <= i <= k < layout.len(),
        layout[k].1.holds(x, y),
        forall|j: int| i <= j < k ==> !(#[trigger] layout[j]).1.holds(x, y),
    ensures
        first_at(layout, x, y, i) == Some(layout[k].0),
    decreases k - i,
{
    if i < k {
        assert(!layout[i].1.holds(x, y));
        lemma_first_at(layout, x, y, i + 1, k);
    }
}

proof fn lemma_none_at<B>(layout: Seq<(B, Rect)>, x: int, y: int, i: int)
    requires
        0 <= i <= layout.len(),
        forall|j: int| i <= j < layout.len() ==> !(#[trigger] layout[j]).1.holds(x, y),
    ensures
        first_at(layout, x, y, i) is None,
    decreases layout.len() - i,
{
    if i < layout.len() {
        assert(!layout[i].1.holds(x, y));
        lemma_none_at(layout, x, y, i + 1);
    }
}

/// The tools stand below each other in the left bar, in the order in which
/// they are listed here, and the pointer meets the tool it is over.
pub proof fn law_left_bar_has_the_tools(sw: int, k: int, x: int, y: int)
    requires
        0 <= k < 10,
        8 <= x < 48,
        58 + 46 * k <= y < 98 + 46 * k,
    ensures
        button_under(sw, x, y) == Some(
            EditorBtn::Tool(
                seq![
                    Tool::Select,
                    Tool::Arrow,
                    Tool::Polyline,
                    Tool::Draw,
                    Tool::Rect,
                    Tool::Ellipse,
                    Tool::Mosaic,
                    Tool::Text,
                    Tool::NumberMarker,
                    Tool::Guide,
                ][k],
            ),
        ),
{
    let layout = tool_layout();
    assert(layout[k].1 == boxed(8, 58 + 46 * k, 40, 40));
    assert forall|j: int| 0 <= j < k implies !(#[trigger] layout[j]).1.holds(x, y) by {
        assert(layout[j].1 == boxed(8, 58 + 46 * j, 40, 40));
    }
    lemma_first_at(layout, x, y, 0, k);
}

/// Copy stands at the right end of the top bar, Save left of it and Pin, with
/// a gap, left of that, and the pointer meets the one it is over.
pub proof fn law_top_bar_has_the_buttons(sw: int, x: int, y: int)
    requires
        300 <= sw <= 0x1000_0000,
        3 <= y < 43,
    ensures
        sw - 50 <= x < sw - 10 ==> button_under(sw, x, y) == Some(EditorBtn::Copy),
        sw - 96 <= x < sw - 56 ==> button_under(sw, x, y) == Some(EditorBtn::Save),
        sw - 160 <= x < sw - 120 ==> button_under(sw, x, y) == Some(EditorBtn::Pin),
{
    let tools = tool_layout();
    assert forall|j: int| 0 <= j < tools.len() implies !(#[trigger] tools[j]).1.holds(x, y) by {
        assert(tools[j].1 == boxed(8, 58 + 46 * j, 40, 40));
    }
    lemma_none_at(tools, x, y, 0);
    let layout = button_layout(sw);
    if sw - 50 <= x < sw - 10 {
        lemma_first_at(layout, x, y, 0, 0);
    } else if sw - 96 <= x < sw - 56 {
        lemma_first_at(layout, x, y, 0, 1);
    } else if sw - 160 <= x < sw - 120 {
        lemma_first_at(layout, x, y, 0, 2);
    }
}

/// The color stands first in the top bar; a number field has its stepper down
/// at its left and its stepper up at its right; the toggles for filling and
/// blurring follow where they are shown.
pub proof fn law_top_bar_has_the_controls(
    show: Option<Field>,
    show_fill: bool,
    color_label: Option<usize>,
    field_label: Option<usize>,
)
    requires
        step_x(color_label, field_label) + 300 <= usize::MAX,
    ensures
        ({
            let layout = prop_layout(show, show_fill, color_label, field_label);
            &&& layout.len() >= 1 && layout[0].0 == PropCtrl::Color
            &&& layout[0].1.x1 - layout[0].1.x0 == 64
            &&& show matches Some(f) ==> {
                &&& layout.len() >= 4
                &&& layout[1].0 == PropCtrl::Step(f, false)
                &&& layout[2].0 == PropCtrl::Field(f)
                &&& layout[3].0 == PropCtrl::Step(f, true)
                &&& layout[1].1.x1 == layout[2].1.x0
                &&& layout[2].1.x1 == layout[3].1.x0
                &&& layout[0].1.x1 < layout[1].1.x0
                &&& show_fill ==> layout.len() >= 5 && layout[4].0 == PropCtrl::Fill
                &&& !show_fill && f == Field::Block ==> layout.len() == 5 && layout[4].0
                    == PropCtrl::Blur
                &&& !show_fill && f != Field::Block ==> layout.len() == 4
            }
            &&& show is None && show_fill ==> layout.len() == 2 && layout[1].0 == PropCtrl::Fill
            &&& show is None && !show_fill ==> layout.len() == 1
        }),
{
}

/// The button of the tool in use is lit, and so is Pin while the window is
/// pinned; of the others the one under the pointer is lighter.
pub proof fn law_button_in_use_is_lit(
    btn: EditorBtn,
    tool: Tool,
    pinned: bool,
    hover: Option<EditorBtn>,
)
    ensures
        ({
            let lit = btn == EditorBtn::Tool(tool) || (btn == EditorBtn::Pin && pinned);
            let c = button_look(btn, tool, pinned, hover);
            &&& c == 0x004D_A6FFu32 <==> lit
            &&& c == 0x0045_4545u32 <==> !lit && hover == Some(btn)
            &&& c == 0x0033_3333u32 <==> !lit && hover != Some(btn)
        }),
{
}

/// A color that agrees across the selection is shown, and none if it differs;
/// a toggle is lit only if it is on for the whole selection; a number field
/// shows what is being typed into it, else its number, or "Mixed".
pub proof fn law_controls_show_the_values<F, S, W: Fn(S) -> i64>(
    m: Model<F, S>,
    v: StyleVals<S>,
    whole: W,
    look: PropLook,
    n: i64,
    c: u32,
    s: S,
)
    ensures
        m.looks(PropCtrl::Color, v, whole, look) && v.color == PropVal::Uniform(c) ==> (
        look matches PropLook::Swatch { color, open } && color == Some(c) && open
            == m.picker is Some),
        m.looks(PropCtrl::Color, v, whole, look) && v.color is Mixed ==> (
        look matches PropLook::Swatch { color, .. } && color is None),
        m.looks(PropCtrl::Fill, v, whole, look) ==> (look matches PropLook::Fill { active }
            && active == (v.filled == PropVal::Uniform(true))),
        m.looks(PropCtrl::Blur, v, whole, look) ==> (look matches PropLook::Blur { active }
            && active == (v.blur == PropVal::Uniform(true))),
        m.looks(PropCtrl::Step(Field::Line, true), v, whole, look) ==> (
        look matches PropLook::Step { up } && up),
        m.looks(PropCtrl::Field(Field::Line), v, whole, look) && m.focus is None && v.thick
            == PropVal::Uniform(n) ==> (look matches PropLook::Number { text, focused } && text@
            == decimal_text(n as int) && !focused),
        m.looks(PropCtrl::Field(Field::Size), v, whole, look) && m.focus is None && v.size
            == PropVal::Uniform(s) ==> (look matches PropLook::Number { text, .. } && text@
            == decimal_text(result(whole, s) as int)),
        m.looks(PropCtrl::Field(Field::Block), v, whole, look) && m.focus is None && v.block
            == PropVal::Uniform(s) ==> (look matches PropLook::Number { text, .. } && text@
            == decimal_text(result(whole, s) as int)),
        m.looks(PropCtrl::Field(Field::Number), v, whole, look) && m.focus is None ==> (
        look matches PropLook::Number { text, .. } && text@ == decimal_text(
            m.next_marker_num as int,
        )),
        forall|f: Field| #[trigger]
            m.looks(PropCtrl::Field(f), v, whole, look) && m.focus == Some(f) ==> (
            look matches PropLook::Number { text, focused } && text@ == m.buf.push('|') && focused),
{
}

/// The picker opens below the color, with the square of shades above the row
/// of hues.
pub proof fn law_picker_hangs_below_the_color(color_label: Option<usize>, show_fill: bool)
    requires
        color_x(color_label) + 400 <= usize::MAX,
    ensures
        ({
            let (popup, square, hues) = picker_layout(color_label);
            let color = prop_layout(None, show_fill, color_label, None)[0].1;
            &&& popup.x0 == color.x0
            &&& popup.y0 > color.y1
            &&& square.x1 - square.x0 == 128 && square.y1 - square.y0 == 128
            &&& hues.x0 == square.x0 && hues.x1 == square.x1
            &&& hues.y0 > square.y1
            &&& popup.covers(square) && popup.covers(hues)
        }),
{
}

// ---- The pointer ----

/// The pointer over the bars is an arrow. Over the canvas it is a cross while
/// something is to be drawn, and shows with the selection tool that an item
/// can be moved.
pub proof fn law_pointer_shows_what_a_press_does<F, S>(
    m: Model<F, S>,
    x: int,
    y: int,
    p: (i64, i64),
    tol: int,
    u: Under<F>,
)
    ensures
        y < 46 || x < 56 ==> m.cursor_shape(x, y, p, tol, u) == CursorShape::Default,
        y >= 46 && x >= 56 && m.tool != Tool::Select && m.tool != Tool::Guide && m.selected.len()
            == 0 ==> m.cursor_shape(x, y, p, tol, u) == CursorShape::Crosshair,
        y >= 46 && x >= 56 && m.tool == Tool::Select && m.selected.len() == 0 ==> m.cursor_shape(
            x,
            y,
            p,
            tol,
            u,
        ) == (if u.hit is Some {
            CursorShape::Move
        } else {
            CursorShape::Default
        }),
        y >= 46 && x >= 56 && m.tool != Tool::Guide && m.selected.len() > 1 && u.group.on_rotate
            ==> m.cursor_shape(x, y, p, tol, u) == CursorShape::Grab,
        y >= 46 && x >= 56 && m.tool != Tool::Guide && m.selected.len() > 1 && !u.group.on_rotate
            && u.group.handle is Some ==> m.cursor_shape(x, y, p, tol, u) == handle_shape(
            u.group.handle->0,
        ),
{
}

// ---- The canvas ----

/// While the pen draws, its stroke up to the pointer is shown, and while a
/// polyline is being clicked, its points and the pointer; nothing is shown
/// while nothing is being drawn.
pub proof fn law_preview_ends_at_the_pointer<F, S, L: Fn(i64) -> F>(
    m: Model<F, S>,
    b: (i64, i64),
    lift: L,
)
    ensures
        m.dragging && m.drag_start is Some && m.tool == Tool::Draw ==> (m.preview(
            b,
            lift,
        ) matches Some(Item::Polyline { points, color, thick }) && points == m.freehand_pts.push(b)
            && color == m.style.color && thick == m.style.thick),
        !m.dragging && m.polyline_pts.len() > 0 ==> (m.preview(b, lift) matches Some(
            Item::Polyline { points, color, thick },
        ) && points == m.polyline_pts.push(b) && color == m.style.color && thick == m.style.thick),
        !m.dragging && m.polyline_pts.len() == 0 ==> m.preview(b, lift) is None,
{
}

/// The frame of a selection being dragged out has the press and the pointer in
/// its corners.
pub proof fn law_marquee_spans_the_drag<F, S>(m: Model<F, S>, a: (i64, i64), b: (i64, i64))
    requires
        m.dragging,
        m.drag_start == Some(a),
        m.tool == Tool::Select,
    ensures
        m.marquee_rect(b) matches Some(r) && r.0 <= r.2 && r.1 <= r.3 && ((r.0 == a.0 && r.2 == b.0)
            || (r.0 == b.0 && r.2 == a.0)) && ((r.1 == a.1 && r.3 == b.1) || (r.1 == b.1 && r.3
            == a.1)),
{
}

/// The canvas is dimmed around the guide: the one being drawn, if there is
/// one, else the one that was placed.
pub proof fn law_canvas_is_dimmed_around_the_guide<F, S>(
    m: Model<F, S>,
    preview: Option<Item<F, S>>,
    r: (i64, i64, i64, i64),
)
    requires
        r.0 <= r.2,
        r.1 <= r.3,
    ensures
        preview == Some(Item::<F, S>::Guide { r }) ==> m.dim_guide(preview) == Some(r),
        !(preview matches Some(Item::Guide { .. })) && guide_rect(m.items) == Some(r)
            ==> m.dim_guide(preview) == Some(r),
        !(preview matches Some(Item::Guide { .. })) && guide_rect(m.items) is None ==> m.dim_guide(
            preview,
        ) is None,
{
}

/// The text being typed is shown where it was begun, with what the input
/// method shows so far and a caret at its end.
pub proof fn law_typed_text_has_a_caret<F, S>(m: Model<F, S>, pos: (i64, i64), text: Seq<char>)
    requires
        m.editing == Some((pos, text)),
    ensures
        m.caret_text() matches Some((at, shown)) && at == pos && shown.len() == text.len()
            + m.ime_preedit.len() + 1 && shown.last() == '|' && shown.take(text.len() as int)
            == text && shown.subrange(text.len() as int, shown.len() - 1) == m.ime_preedit,
{
    let shown = (text + m.ime_preedit).push('|');
    assert(shown.take(text.len() as int) =~= text);
    assert(shown.subrange(text.len() as int, shown.len() - 1) =~= m.ime_preedit);
}

/// One selected item has its handles shown, several have a frame, and none has
/// nothing.
pub proof fn law_selected_items_are_marked<F, S>(m: Model<F, S>)
    requires
        m.tool != Tool::Guide,
    ensures
        m.selected.len() == 0 && m.single() is None ==> m.marks() == Marks::Nothing,
        m.selected.len() > 1 ==> m.marks() == Marks::Frame,
        m.selected.len() == 1 && (m.single() matches Some(a) && !(a is Polyline)) ==> m.marks()
            == Marks::Item(m.selected[0]),
        m.selected.len() == 1 && (m.single() matches Some(a) && a is Polyline) ==> m.marks()
            == Marks::ItemAndFrame(m.selected[0]),
{
}

// ---- The overlay ----

/// The selection is what is shown bright; before there is one, it is what a
/// click or the drag in progress would select. The crosshair is shown as long
/// as nothing is selected, and while anything is magnified finely.
pub proof fn law_sight_is_the_selection(m: OverlayModel, s: Spot, r: Rect)
    ensures
        m.scene.selection == Some(r) ==> m.sight(s).rect == Some(r),
        m.scene.selection is None && !m.snapping(s.still) ==> m.sight(s).rect == m.current(s.pixel),
        m.scene.selection is None && m.snapping(s.still) ==> m.sight(s).rect == m.scene.snap_rect,
        m.scene.mode == Mode::Selecting && m.scene.selection is None ==> m.sight(s).crosshair,
        m.scene.selection is Some && !m.scene.fine ==> !m.sight(s).crosshair,
        m.sight(s).zoomed == m.scene.zoomed,
{
}

/// A magnified row shows the pixels of the picture that its columns name:
/// bright in the selection's rows and lit columns, dimmed elsewhere, and black
/// beside the picture.
pub proof fn law_magnified_row_shows_the_picture(c: ZoomRowCtx, y: usize, x: int)
    ensures
        y == NO_SOURCE || c.cols@[x] == NO_SOURCE ==> c.pixel(y, x) == 0,
        y != NO_SOURCE && c.cols@[x] != NO_SOURCE && (c.rect matches Some(r) && r.y0 <= y < r.y1)
            && c.lit.0 <= x < c.lit.1 ==> c.pixel(y, x) == c.bright@[y * c.img.0 + c.cols@[x]],
        y != NO_SOURCE && c.cols@[x] != NO_SOURCE && !(c.lit.0 <= x < c.lit.1) ==> c.pixel(y, x)
            == c.dim@[y * c.img.0 + c.cols@[x]],
        y != NO_SOURCE && c.cols@[x] != NO_SOURCE && (c.rect matches Some(r) ==> !(r.y0 <= y
            < r.y1)) ==> c.pixel(y, x) == c.dim@[y * c.img.0 + c.cols@[x]],
{
    if y != NO_SOURCE && c.cols@[x] != NO_SOURCE {
        assert(at(c.img.0 as int, c.cols@[x] as int, y as int) == y * c.img.0 + c.cols@[x]);
    }
}

/// The selection's frame is two pixels wide, along the inside of its edges.
pub proof fn law_frame_lines_the_selection(r: Rect, x: int, y: int)
    ensures
        on_frame(r, x, y) ==> r.holds(x, y),
        r.holds(x, y) ==> (on_frame(r, x, y) <==> !(r.x0 + 2 <= x < r.x1 - 2 && r.y0 + 2 <= y < r.y1
            - 2)),
{
}

/// The crosshair's arms lie along the pointer's row and column, from four
/// pixels off the pointer to their reach: accented near it and striped black
/// and white farther out. It leaves the other pixels as they are.
pub proof fn law_crosshair_meets_the_pointer(
    under: u32,
    c: (i64, i64),
    reach: int,
    x: int,
    y: int,
    d: int,
)
    requires
        4 <= d <= reach,
    ensures
        d <= 100 && (x == c.0 + d || x == c.0 - d) ==> crossed_pixel(under, c, reach, x, c.1 as int)
            == 0x004D_A6FFu32,
        d <= 100 && (y == c.1 + d || y == c.1 - d) ==> crossed_pixel(under, c, reach, c.0 as int, y)
            == 0x004D_A6FFu32,
        d > 100 && (x == c.0 + d || x == c.0 - d) ==> crossed_pixel(under, c, reach, x, c.1 as int)
            == (if (d / 6) % 2 == 0 {
            0x00FF_FFFFu32
        } else {
            0
        }),
        (x > c.0 + 1 || x < c.0 - 1) && (y > c.1 + 1 || y < c.1 - 1) ==> crossed_pixel(
            under,
            c,
            reach,
            x,
            y,
        ) == under,
        c.0 - 4 < x < c.0 + 4 && c.1 - 4 < y < c.1 + 4 ==> crossed_pixel(under, c, reach, x, y)
            == under,
{
}

// ---- The control bar ----

/// What stands on the control bar's buttons.
pub proof fn law_control_buttons_are_labeled(rec: Recording, recording: bool)
    ensures
        ctrl_caption(CtrlBtn::Primary, false, rec) == "Start"@,
        ctrl_caption(CtrlBtn::Primary, true, rec) == "Stop"@,
        rec.gif ==> ctrl_caption(CtrlBtn::Format, recording, rec) == "GIF"@,
        !rec.gif ==> ctrl_caption(CtrlBtn::Format, recording, rec) == "MP4"@,
        ctrl_caption(CtrlBtn::Fps, recording, rec) == decimal_text(rec.fps as int) + " FPS"@,
        ctrl_caption(CtrlBtn::Desktop, recording, rec) == "Desktop"@,
        ctrl_caption(CtrlBtn::Mic, recording, rec) == "Mic"@,
        ctrl_caption(CtrlBtn::Quit, recording, rec) == "Quit"@,
{
}

/// A sound that is switched on is lit, and for a GIF both are grayed out.
pub proof fn law_sounds_show_their_state(rec: Recording, recording: bool)
    ensures
        ({
            let (desktop, can_desktop) = base_of(CtrlBtn::Desktop, recording, rec);
            let (mic, can_mic) = base_of(CtrlBtn::Mic, recording, rec);
            &&& can_desktop == !rec.gif && can_mic == !rec.gif
            &&& desktop == 0x004D_A6FFu32 <==> rec.desktop_audio && !rec.gif
            &&& mic == 0x004D_A6FFu32 <==> rec.mic && !rec.gif
            &&& rec.gif ==> desktop == 0x0033_3333u32 && mic == 0x0033_3333u32
            &&& base_of(CtrlBtn::Primary, true, rec) == (0x00E0_4040u32, true)
            &&& base_of(CtrlBtn::Primary, false, rec) == (0x0033_A852u32, true)
        }),
{
}

/// A button of the control bar that can be used is lighter under the pointer,
/// each channel by 40 as far as that goes, and one that cannot is not.
pub proof fn law_hovered_control_is_lighter(
    look: CtrlLook,
    btn: CtrlBtn,
    i: int,
    mode: Mode,
    rec: Recording,
    desktop: spec_fn(int) -> int,
    mic: spec_fn(int) -> int,
)
    requires
        looks_like(look, btn, i, mode, rec, desktop, mic),
    ensures
        rec.hover != Some(btn) ==> look.bg == base_of(btn, mode == Mode::Recording, rec).0,
        (btn == CtrlBtn::Quit || btn == CtrlBtn::Format || btn == CtrlBtn::Fps) && rec.hover == Some(
            btn,
        ) ==> look.bg == 0x006C_6C6Cu32,
        rec.gif && (btn == CtrlBtn::Desktop || btn == CtrlBtn::Mic) ==> look.bg == 0x0033_3333u32
            && look.text == 0x0088_8888u32 && look.meter is None,
        !rec.gif || !(btn == CtrlBtn::Desktop || btn == CtrlBtn::Mic) ==> look.text
            == 0x00FF_FFFFu32,
        look.label@ == ctrl_caption(btn, mode == Mode::Recording, rec),
{
    assert(0x0044_4444u32 >> 16u32 & 0xff == 0x44 && 0x0044_4444u32 >> 8u32 & 0xff == 0x44
        && 0x0044_4444u32 & 0xff == 0x44) by (bit_vector);
    assert((0x6Cu32 << 16u32) | (0x6Cu32 << 8u32) | 0x6Cu32 == 0x006C_6C6Cu32) by (bit_vector);
    assert(lightened(0x0044_4444u32) == 0x006C_6C6Cu32);
}

/// A level meter stands at the right inside its button, and its lit part grows
/// from its foot.
pub proof fn law_meter_grows_from_its_foot(r: Rect, lit: spec_fn(int) -> int)
    requires
        r.x1 - r.x0 == 56,
        r.y1 - r.y0 == 56,
        0 <= lit(48) <= 48,
    ensures
        meter_of(r, lit) matches Some((track, level)) && track.x0 == r.x1 - 8 && track.x1 == r.x1 - 4
            && track.y0 == r.y0 + 4 && track.y1 == r.y1 - 4 && (lit(48) == 0 ==> level is None) && (
        lit(48) > 0 ==> (level matches Some(l) && l.x0 == track.x0 && l.x1 == track.x1 && l.y1
            == track.y1 && l.y1 - l.y0 == lit(48))),
{
}

} // verus!

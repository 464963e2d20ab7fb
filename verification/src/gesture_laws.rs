//! What a press grabs or uses, how the selection's frame follows a drag, how
//! pictures and mosaics are painted, and how the menu is laid out.

use vstd::prelude::*;

use crate::annotation::{grabbed, handle_places, Handle, Item};
use crate::backdrop::{source_of, NO_SOURCE};
use crate::bake::{
    block_pixel, blurred_pixel, cell_painted, col_window, is_mix, picture_pixel, row_window,
    rows_mixed, scrambled_pixel,
};
use crate::canvas::{buttons_drawn, handle_shape, item_shape, ButtonLook, CursorShape};
use crate::drag::{travel, Ratio};
use crate::editor::{Drag, Model, PickerPart};
use crate::measure::{guide_from, guide_rect, picked_boxes, tight_box, Outline};
use crate::menu::{
    divider_line, dividers_of, look_of, menu_origin, option_drawn, place_of, presets, slot_rect,
    MenuButton, MenuModel, MenuScale,
};
use crate::monitors::{first_cover, info_at, scale_of, MonitorInfo};
use crate::opening::room_along;
use crate::overlay::{Adjust, OverlayModel, Spot, Warp};
use crate::pixels::mosaic_mix;
use crate::press::{item_grab, paired, vertex_from, Calc, Press, Under};
use crate::pure::{result, result2, spoken};
use crate::rect::Rect;
use crate::region::{resized, shifted};
use crate::release::shared_angle;
use crate::resident::{read_all, AppModel};
use crate::settings::unloadable_text;
use crate::stroke::{merge_step, pictures_box};
use crate::style::{folded, present, PropVal};
use crate::toolbar::{picker_layout, EditorBtn, Field, PropCtrl};

verus! {

// ---- What a press grabs ----

/// A press near an arrow's end grabs that end, and the tip where it is near
/// both; one beside both grabs neither.
pub proof fn law_press_grabs_the_arrow_end<F, S>(
    from: (i64, i64),
    to: (i64, i64),
    color: u32,
    thick: i64,
    p: (i64, i64),
    tol: int,
    u: Under<F>,
)
    ensures
        ({
            let a = Item::<F, S>::Arrow { a: from, b: to, color, thick };
            let near_to = -tol <= p.0 - to.0 <= tol && -tol <= p.1 - to.1 <= tol;
            let near_from = -tol <= p.0 - from.0 <= tol && -tol <= p.1 - from.1 <= tol;
            &&& near_to ==> item_grab(a, p, tol, u) == Some(Drag::<F, S>::ArrowEnd { end_b: true })
            &&& near_from && !near_to ==> item_grab(a, p, tol, u) == Some(
                Drag::<F, S>::ArrowEnd { end_b: false },
            )
            &&& !near_from && !near_to ==> item_grab(a, p, tol, u) is None
        }),
{
}

proof fn lemma_vertex(points: Seq<(i64, i64)>, p: (i64, i64), tol: int, i: int, k: int)
    requires
        0 <= i <= k < points.len() <= usize::MAX,
        -tol <= p.0 - points[k].0 <= tol && -tol <= p.1 - points[k].1 <= tol,
        forall|j: int|
            i <= j < k ==> !(-tol <= p.0 - (#[trigger] points[j]).0 <= tol && -tol <= p.1
                - points[j].1 <= tol),
    ensures
        vertex_from(points, p, tol, i) == Some(k as usize),
    decreases k - i,
{
    if i < k {
        assert(!(-tol <= p.0 - points[i].0 <= tol && -tol <= p.1 - points[i].1 <= tol));
        lemma_vertex(points, p, tol, i + 1, k);
    }
}

/// A press near a polyline's vertex grabs the first that is near.
pub proof fn law_press_grabs_the_vertex<F, S>(
    points: Seq<(i64, i64)>,
    color: u32,
    thick: i64,
    p: (i64, i64),
    tol: int,
    u: Under<F>,
    k: int,
)
    requires
        0 <= k < points.len() <= usize::MAX,
        -tol <= p.0 - points[k].0 <= tol && -tol <= p.1 - points[k].1 <= tol,
        forall|j: int|
            0 <= j < k ==> !(-tol <= p.0 - (#[trigger] points[j]).0 <= tol && -tol <= p.1
                - points[j].1 <= tol),
    ensures
        item_grab(Item::<F, S>::Polyline { points, color, thick }, p, tol, u) == Some(
            Drag::<F, S>::PolylinePoint { index: k as usize },
        ),
{
    lemma_vertex(points, p, tol, 0, k);
}

/// A press on a shape's rotate handle turns it about its center; one on a
/// resize handle resizes the frame it has; one elsewhere grabs no handle. A
/// text has only the rotate handle, a marker none.
pub proof fn law_press_grabs_the_handle<F, S>(
    a: Item<F, S>,
    p: (i64, i64),
    tol: int,
    u: Under<F>,
    h: Handle,
)
    ensures
        ({
            let shape = a is Rect || a is Ellipse || a is Image || a is Mosaic;
            let grab = item_grab(a, p, tol, u);
            &&& (shape || a is Text) && u.item.on_rotate ==> grab == Some(
                Drag::<F, S>::Rotate { center: u.item.center },
            )
            &&& shape && !u.item.on_rotate && u.item.handle == Some(h) ==> grab == Some(
                Drag::<F, S>::RotatedHandle { h, orig: u.item.norm },
            )
            &&& shape && !u.item.on_rotate && u.item.handle is None ==> grab is None
            &&& a is Text && !u.item.on_rotate ==> grab is None
            &&& a is NumberMarker || a is Guide ==> grab is None
        }),
{
}

/// With a drawing tool, the selected item can be moved by its outline, a
/// marker by its disc, a polyline by the selection's frame; an arrow and the
/// guide cannot.
pub proof fn law_selected_item_moves_by_its_outline<F, S>(
    m: Model<F, S>,
    a: Item<F, S>,
    p: (i64, i64),
    tol: int,
    u: Under<F>,
)
    requires
        m.single() == Some(a),
        item_grab(a, p, tol, u) is None,
        !(a is Polyline && m.group_grab(u) is Some),
    ensures
        (a is Rect || a is Ellipse || a is Image || a is Mosaic || a is Text) && u.item.on_outline
            ==> (m.edit_press(p, tol, u) matches Some(after) && after.edit == (Drag::<F, S>::Move {
            grab: p,
            orig: a,
        }) && after.items == m.items && after.history.past == m.history.past.push(m.items)),
        a is NumberMarker && u.in_disc ==> (m.edit_press(p, tol, u) matches Some(after)
            && after.edit == (Drag::<F, S>::Move { grab: p, orig: a })),
        a is NumberMarker && !u.in_disc ==> m.edit_press(p, tol, u) is None,
        a is Polyline && u.group.on_outline ==> (m.edit_press(p, tol, u) matches Some(after)
            && after.edit == (Drag::<F, S>::Move { grab: p, orig: a })),
        a is Polyline && !u.group.on_outline ==> m.edit_press(p, tol, u) is None,
        a is Arrow || a is Guide ==> m.edit_press(p, tol, u) is None,
{
}

/// Dragging with Alt held moves a copy, on top and alone selected, and leaves
/// the item; without Alt it moves the item.
pub proof fn law_alt_moves_a_copy<F, S>(m: Model<F, S>, i: int, p: (i64, i64))
    requires
        0 <= i < m.items.len(),
        m.items.len() < usize::MAX,
    ensures
        ({
            let after = m.grab_one(i, p);
            &&& after.edit == (Drag::<F, S>::Move { grab: p, orig: m.items[i] })
            &&& m.alt ==> after.items == m.items.push(m.items[i]) && after.selected == seq![
                m.items.len() as usize,
            ]
            &&& !m.alt ==> after.items == m.items && after.selected == seq![i as usize]
        }),
{
}

/// The guide's tool grabs an edge or a corner of the guide, moves the guide by
/// its inside, and draws a new one elsewhere.
pub proof fn law_guide_tool_grabs_the_guide<F, S>(
    m: Model<F, S>,
    p: (i64, i64),
    tol: int,
    i: int,
    r: (i64, i64, i64, i64),
)
    requires
        guide_from(m.items, 0) == Some(i),
        0 <= i < m.items.len() <= usize::MAX,
        m.items[i] == (Item::<F, S>::Guide { r }),
        r.0 <= r.2,
        r.1 <= r.3,
        tol >= 0,
    ensures
        p == (r.0, r.1) ==> m.guide_press(p, tol).edit == (Drag::<F, S>::RectHandle {
            h: Handle::TopLeft,
            orig: r,
        }),
        grabbed(r, p, tol, 0) is None && r.0 <= p.0 <= r.2 && r.1 <= p.1 <= r.3
            ==> m.guide_press(p, tol).edit == (Drag::<F, S>::Move { grab: p, orig: m.items[i] })
            && m.guide_press(p, tol).selected == seq![i as usize],
        grabbed(r, p, tol, 0) is None && !(r.0 <= p.0 <= r.2 && r.1 <= p.1
            <= r.3) ==> m.guide_press(p, tol).dragging && m.guide_press(p, tol).drag_start == Some(
            p,
        ) && m.guide_press(p, tol).items == m.items,
{
    assert(handle_places(r)[0] == (Handle::TopLeft, (r.0, r.1)));
}

/// The handles of a rectangle stand on its corners and in the middle of its
/// edges.
pub proof fn law_handles_stand_on_the_edges(r: (i64, i64, i64, i64))
    requires
        0 <= r.0 <= r.2,
        0 <= r.1 <= r.3,
    ensures
        ({
            let h = handle_places(r);
            let mx = (r.0 + r.2) / 2;
            let my = (r.1 + r.3) / 2;
            &&& h.len() == 8
            &&& h.contains((Handle::TopLeft, (r.0, r.1)))
            &&& h.contains((Handle::TopRight, (r.2, r.1)))
            &&& h.contains((Handle::BottomRight, (r.2, r.3)))
            &&& h.contains((Handle::BottomLeft, (r.0, r.3)))
            &&& h.contains((Handle::Top, (mx as i64, r.1)))
            &&& h.contains((Handle::Right, (r.2, my as i64)))
            &&& h.contains((Handle::Bottom, (mx as i64, r.3)))
            &&& h.contains((Handle::Left, (r.0, my as i64)))
        }),
{
    let h = handle_places(r);
    assert(h[0].0 == Handle::TopLeft && h[1].0 == Handle::TopRight);
    assert(h[2].0 == Handle::BottomRight && h[3].0 == Handle::BottomLeft);
    assert(h[4].0 == Handle::Top && h[5].0 == Handle::Right);
    assert(h[6].0 == Handle::Bottom && h[7].0 == Handle::Left);
}

/// Grabbing a selection keeps each selected item beside its place, in order.
pub proof fn law_grabbed_items_keep_their_places<F, S>(
    items: Seq<Item<F, S>>,
    places: Seq<usize>,
    k: int,
)
    requires
        0 <= k < places.len(),
        forall|t: int| 0 <= t < places.len() ==> #[trigger] places[t] < items.len(),
    ensures
        paired(items, places).len() == places.len(),
        paired(items, places)[k] == (places[k], items[places[k] as int]),
    decreases places.len(),
{
    let rest = places.drop_last();
    assert(places.last() == places[places.len() - 1]);
    assert forall|t: int| 0 <= t < rest.len() implies #[trigger] rest[t] < items.len() by {
        assert(rest[t] == places[t]);
    }
    if rest.len() > 0 {
        law_grabbed_items_keep_their_places(
            items,
            rest,
            if k < rest.len() {
                k
            } else {
                0
            },
        );
    }
}

// ---- What a press in the bars uses ----

/// A control that is pressed does what it stands for.
pub proof fn law_controls_do_what_they_say<F, S, Z, O, W, T, H, K>(
    m: Model<F, S>,
    f: Field,
    up: bool,
    calc: Calc<Z, O, W, T, H, K>,
) where
    Z: Fn(i64) -> S,
    O: Fn(&str, (i64, i64)) -> Option<(i64, S)>,
    W: Fn(S) -> i64,
    T: Fn((S, bool, (i64, i64))) -> S,
    H: Fn(u32) -> (S, S, S),
    K: Fn((S, S, S), PickerPart) -> ((S, S, S), u32),

    ensures
        m.use_prop(PropCtrl::Color, calc) == m.toggle_picker(calc.typing, calc.to_hsv),
        m.use_prop(PropCtrl::Field(f), calc).focus == Some(f),
        m.use_prop(PropCtrl::Step(f, up), calc) == m.step_field(f, up, calc.typing, calc.step),
        m.use_prop(PropCtrl::Fill, calc) == m.toggle_fill(calc.typing),
        m.use_prop(PropCtrl::Blur, calc) == m.toggle_blur(calc.typing),
{
}

/// While the picker is open, a press in its square or on its hues picks there
/// and one anywhere else closes it, without reaching the canvas.
pub proof fn law_open_picker_takes_the_press<F, S, Z, O, W, T, H, K>(
    m: Model<F, S>,
    labels: crate::commands::Labels,
    sw: int,
    x: int,
    y: int,
    calc: Calc<Z, O, W, T, H, K>,
) where
    Z: Fn(i64) -> S,
    O: Fn(&str, (i64, i64)) -> Option<(i64, S)>,
    W: Fn(S) -> i64,
    T: Fn((S, bool, (i64, i64))) -> S,
    H: Fn(u32) -> (S, S, S),
    K: Fn((S, S, S), PickerPart) -> ((S, S, S), u32),

    requires
        m.picker is Some,
    ensures
        ({
            let (popup, square, hues) = picker_layout(labels.color);
            let (after, press) = m.bar_press(labels, sw, x, y, calc);
            &&& press == Press::Done
            &&& square.holds(x, y) ==> after.picker_drag == Some(PickerPart::Sv)
                && after.style.color == result2(calc.pick, m.picker->0, PickerPart::Sv).1
            &&& hues.holds(x, y) && !square.holds(x, y) ==> after.picker_drag == Some(
                PickerPart::Hue,
            ) && after.style.color == result2(calc.pick, m.picker->0, PickerPart::Hue).1
            &&& !square.holds(x, y) && !hues.holds(x, y) ==> after.picker is None && after.items
                == m.items && after.style == m.style
        }),
{
}

/// A press on the canvas, with no picker open and no field in use, goes to the
/// canvas; one in the bars does not.
pub proof fn law_bars_keep_their_presses<F, S, Z, O, W, T, H, K>(
    m: Model<F, S>,
    labels: crate::commands::Labels,
    sw: int,
    x: int,
    y: int,
    calc: Calc<Z, O, W, T, H, K>,
) where
    Z: Fn(i64) -> S,
    O: Fn(&str, (i64, i64)) -> Option<(i64, S)>,
    W: Fn(S) -> i64,
    T: Fn((S, bool, (i64, i64))) -> S,
    H: Fn(u32) -> (S, S, S),
    K: Fn((S, S, S), PickerPart) -> ((S, S, S), u32),

    requires
        m.picker is None,
        m.focus is None,
    ensures
        ({
            let (after, press) = m.bar_press(labels, sw, x, y, calc);
            &&& press == Press::Canvas <==> x >= 56 && y >= 46
            &&& x >= 56 && y >= 46 ==> after == m.commit_text()
            &&& x < 56 && y >= 46 ==> after.pressed == crate::toolbar::button_under(sw, x, y)
                && after.items == m.items
            &&& y < 46 && m.prop_under(labels, x, y) is None ==> after.pressed
                == crate::toolbar::button_under(sw, x, y) && after.items == m.items
        }),
{
}

// ---- The selection's frame ----

/// While a selection is dragged its frame moves along; while it is resized the
/// frame is the resized one at its angle; while it is turned the frame keeps
/// its sides and has the angle it had and the turn.
pub proof fn law_frame_follows_the_drag<F, S, P, R, G, D, B>(
    m: Model<F, S>,
    p: (i64, i64),
    shift: P,
    resize: R,
    swing: G,
    sum: D,
    boxed: B,
) where
    P: Fn(F, i64) -> F,
    R: Fn(((F, F, F, F), Handle, F, Ratio)) -> (F, F, F, F),
    G: Fn(((F, F), F, bool)) -> F,
    D: Fn(F, F) -> F,
    B: Fn(usize) -> (F, F, F, F),

    requires
        m.frame_fits(p),
    ensures
        m.edit matches Drag::GroupMove { grab, .. } ==> (m.active_group_frame(
            p,
            shift,
            resize,
            swing,
            sum,
            boxed,
        ) matches Some((r, rot)) && r.0 == result2(shift, m.group_rect.0, (p.0 - grab.0) as i64)
            && r.1 == result2(shift, m.group_rect.1, (p.1 - grab.1) as i64) && r.2 == result2(
            shift,
            m.group_rect.2,
            (p.0 - grab.0) as i64,
        ) && r.3 == result2(shift, m.group_rect.3, (p.1 - grab.1) as i64) && rot == m.group_rot),
        m.edit matches Drag::GroupHandle { h, orig_rect, rot, .. } ==> m.active_group_frame(
            p,
            shift,
            resize,
            swing,
            sum,
            boxed,
        ) == Some((result(resize, (orig_rect, h, rot, Ratio::Free)), rot)),
        m.edit matches Drag::GroupRotate { center, start_angle, orig_rect, orig_rot, .. } ==> (
        m.active_group_frame(p, shift, resize, swing, sum, boxed) matches Some((r, rot)) && r
            == orig_rect && rot == result2(
            sum,
            orig_rot,
            result(swing, (center, start_angle, false)),
        )),
        m.edit is Idle ==> m.active_group_frame(p, shift, resize, swing, sum, boxed) is None,
{
}

/// A drag goes the way of the pointer, and with Shift held along the axis of
/// its longer part only.
pub proof fn law_shift_keeps_to_an_axis(grab: (i64, i64), p: (i64, i64))
    ensures
        travel(grab, p, false) == (p.0 - grab.0, p.1 - grab.1),
        p.1 == grab.1 ==> travel(grab, p, true) == (p.0 - grab.0, 0int),
        p.0 == grab.0 ==> travel(grab, p, true) == (0int, p.1 - grab.1),
        p.0 - grab.0 > p.1 - grab.1 > 0 ==> travel(grab, p, true) == (p.0 - grab.0, 0int),
        p.1 - grab.1 > p.0 - grab.0 > 0 ==> travel(grab, p, true) == (0int, p.1 - grab.1),
{
}

/// A frame around one item has the item's angle, and around none it is
/// upright; lines and markers are upright.
pub proof fn law_frame_has_the_items_angle<F, S, E: Fn(F, F) -> bool>(
    items: Seq<Item<F, S>>,
    i: usize,
    zero: F,
    same: E,
    out: F,
)
    requires
        i < items.len(),
        forall|c: F| !call_ensures(same, (c, c), false),
    ensures
        shared_angle(items, seq![i], zero, same, out) ==> out == (match items[i as int] {
            Item::Rect { rot, .. } => rot,
            Item::Ellipse { rot, .. } => rot,
            Item::Image { rot, .. } => rot,
            Item::Mosaic { rot, .. } => rot,
            Item::Text { rot, .. } => rot,
            _ => zero,
        }),
        shared_angle(items, Seq::empty(), zero, same, out) ==> out == zero,
{
    let sel = seq![i];
    assert(sel[0] == i);
}

/// A property that is compared by measure is shown as the first item's that
/// has it, or as the default where none has.
pub proof fn law_measured_value_is_the_first<T, E: Fn(T, T) -> bool>(
    vals: Seq<Option<T>>,
    default: T,
    same: E,
    out: PropVal<T>,
)
    requires
        folded(vals, default, same, out),
    ensures
        present(vals).len() == 0 ==> out == PropVal::Uniform(default),
        present(vals).len() > 0 ==> out.shown() == present(vals)[0],
        present(vals).len() == 1 ==> out is Uniform,
        out is Mixed ==> exists|i: int|
            1 <= i < present(vals).len() && call_ensures(
                same,
                (#[trigger] present(vals)[i], present(vals)[0]),
                false,
            ),
{
}

// ---- Painting ----

/// What is painted with a clip leaves every pixel beside the clip.
pub proof fn law_paint_stays_in_the_clip<G: Fn(usize, usize, u32) -> Option<u32>>(
    pixel: G,
    w: int,
    clip: Rect,
    x: int,
    y: int,
    old_px: u32,
    new_px: u32,
)
    requires
        0 <= x < w,
        0 <= y,
        cell_painted(pixel, w, clip, y * w + x, old_px, new_px),
    ensures
        !clip.holds(x, y) ==> new_px == old_px,
        clip.holds(x, y) && (forall|o: Option<u32>| #[trigger]
            call_ensures(pixel, (x as usize, y as usize, old_px), o) ==> o is None) ==> new_px
            == old_px,
{
    vstd::arithmetic::div_mod::lemma_fundamental_div_mod_converse(y * w + x, w, y, x);
}

/// A picture is blended, with its color and its opacity, over what lies under
/// it, and leaves the pixels that it does not cover.
pub proof fn law_picture_is_blended<M, B>(
    sample: M,
    blend: B,
    pixels: Seq<u32>,
    sw: int,
    sh: int,
    x: usize,
    y: usize,
    s: (i64, i64),
    old_px: u32,
    new_px: u32,
) where M: Fn(usize, usize) -> Option<(i64, i64)>, B: Fn(u32, u32, u32) -> u32
    requires
        picture_pixel(sample, blend, pixels, sw, sh, x, y, old_px, new_px),
    ensures
        (forall|m: Option<(i64, i64)>| #[trigger]
            call_ensures(sample, (x, y), m) ==> m is None) ==> new_px
            == old_px,
        0 <= s.0 < sw && 0 <= s.1 < sh && (forall|m: Option<(i64, i64)>| #[trigger]
            call_ensures(sample, (x, y), m) ==> m == Some(s)) ==> ({
            let src = pixels[s.1 * sw + s.0];
            call_ensures(blend, (old_px, src & 0x00FF_FFFF, (src >> 24) & 0xff), new_px)
        }),
{
}

/// A mosaic shows in each of its pixels the one its block is sampled at, and
/// leaves the pixels outside its shape.
pub proof fn law_mosaic_shows_its_samples<I, C>(
    inside: I,
    center: C,
    old_buf: Seq<u32>,
    w: int,
    clip: Rect,
    x: usize,
    y: usize,
    s: (i64, i64),
    old_px: u32,
    px: u32,
) where I: Fn(usize, usize) -> bool, C: Fn(usize, usize) -> (i64, i64)
    requires
        block_pixel(inside, center, old_buf, w, clip, x, y, old_px, px),
    ensures
        (forall|b: bool| #[trigger]
            call_ensures(inside, (x, y), b) ==> !b) ==> px == old_px,
        (forall|b: bool| #[trigger]
            call_ensures(inside, (x, y), b) ==> b) && (forall|c: (i64, i64)| #[trigger]
            call_ensures(center, (x, y), c) ==> c == s) && clip.holds(s.0 as int, s.1 as int) ==> px
            == old_buf[s.1 * w + s.0],
{
}

/// A blur mixes the pixels within its radius along the row, and along the
/// column, each at its distance.
pub proof fn law_blur_mixes_the_neighbors(
    src: Seq<u32>,
    bw: int,
    bh: int,
    radius: int,
    i: int,
    j: int,
    d: int,
)
    requires
        0 <= radius,
        -radius <= d <= radius,
    ensures
        row_window(src, bw, radius, i, j).len() == 2 * radius + 1,
        col_window(src, bw, bh, radius, i, j).len() == 2 * radius + 1,
        0 <= i + d < bw ==> row_window(src, bw, radius, i, j)[radius + d] == src[j * bw + i + d],
        0 <= j + d < bh ==> col_window(src, bw, bh, radius, i, j)[radius + d] == src[(j + d) * bw
            + i],
{
}

// ---- The menu ----

/// The menu lies below the selection where there is room, else above it, and
/// is centered on it where the monitor's edges allow.
pub proof fn law_menu_is_centered(sel: Rect, bounds: Rect, w: int, scale: MenuScale)
    requires
        sel.ordered(),
        bounds.covers(sel),
        0 <= w,
        bounds.x0 + w <= bounds.x1,
    ensures
        ({
            let (x, y) = menu_origin(sel, bounds, w, scale);
            let middle = (sel.x0 + sel.x1) / 2;
            &&& bounds.x0 <= middle - w / 2 && middle - w / 2 + w <= bounds.x1 ==> x == middle - w
                / 2
            &&& sel.y1 + scale.margin + scale.action_btn <= bounds.y1 ==> y == sel.y1
                + scale.margin
            &&& sel.y1 + scale.margin + scale.action_btn > bounds.y1 && sel.y0 >= bounds.y0
                + scale.action_btn + scale.margin ==> y + scale.action_btn + scale.margin == sel.y0
        }),
{
}

/// The size and the aspect ratio are shown where their entries stand.
pub proof fn law_entries_stand_in_their_slots(
    order: Seq<MenuButton>,
    b: MenuButton,
    btn: int,
    at: (int, int),
    n: int,
    i: int,
)
    requires
        0 <= i < n <= order.len(),
        order[i] == b,
        forall|j: int| i < j < n ==> #[trigger] order[j] != b,
    ensures
        place_of(order, b, btn, at, n) == Some(slot_rect(order, btn, at, i)),
    decreases n,
{
    if i < n - 1 {
        assert(order[n - 1] != b);
        law_entries_stand_in_their_slots(order, b, btn, at, n - 1, i);
    }
}

/// A disabled entry is grayed whatever the pointer does; an enabled one is lit
/// while pressed and lighter under the pointer.
pub proof fn law_menu_entry_looks(pressed: bool, hovered: bool)
    ensures
        look_of(true, pressed, hovered) == (0x0026_2626u32, 0x0055_5555u32, 0x0066_6666u32),
        look_of(false, true, hovered).0 == 0x004D_A6FFu32,
        look_of(false, false, true).0 == 0x0045_4545u32,
        look_of(false, false, false).0 == 0x0033_3333u32,
        look_of(false, pressed, hovered).1 == 0x0099_9999u32,
        look_of(false, pressed, hovered).2 == 0x00EA_EAEAu32,
{
}

/// A divider's line stands in the middle of its slot, a fifth of the height
/// short of each end.
pub proof fn law_divider_stands_in_the_middle(r: Rect)
    requires
        r.ordered(),
        r.x0 + r.x1 <= usize::MAX,
    ensures
        ({
            let (x, top, bottom) = divider_line(r);
            &&& r.x0 <= x <= r.x1 && (x - r.x0 == r.x1 - x || x - r.x0 + 1 == r.x1 - x)
            &&& top - r.y0 == r.y1 - bottom
            &&& top - r.y0 == (r.y1 - r.y0) / 5
        }),
{
}

/// The list of aspect ratios offers free, 1:1, 16:9 and 4:3 and lights the one
/// in force.
pub proof fn law_aspect_list_lights_the_lock(
    closed: Rect,
    lock: Option<(u32, u32)>,
    i: int,
    row: (Rect, u32, String),
)
    requires
        0 <= i < 4,
        option_drawn(closed, lock, i, row),
    ensures
        presets()[0] is None,
        presets()[1] == Some((1u32, 1u32)),
        presets()[2] == Some((16u32, 9u32)),
        presets()[3] == Some((4u32, 3u32)),
        presets().len() == 4,
        row.1 == 0x004D_A6FFu32 <==> presets()[i] == lock,
        row.2@ == crate::menu::aspect_text(presets()[i]),
{
}

// ---- Monitors and the resident program ----

proof fn lemma_info_at<F>(handles: Seq<MonitorInfo<F>>, p: (int, int), i: int, k: int)
    requires
        0 <= i <= k < handles.len(),
        crate::monitors::info_holds(handles[k], p),
        forall|j: int| i <= j < k ==> !crate::monitors::info_holds(#[trigger] handles[j], p),
    ensures
        info_at(handles, p, i) == Some(k),
    decreases k - i,
{
    if i < k {
        assert(!crate::monitors::info_holds(handles[i], p));
        lemma_info_at(handles, p, i + 1, k);
    }
}

/// A monitor's scale is that of the monitor of the system in which its middle
/// lies.
pub proof fn law_scale_is_the_monitors<F>(
    origin: (i32, i32),
    m: Rect,
    handles: Seq<MonitorInfo<F>>,
    one: F,
    k: int,
)
    requires
        0 <= k < handles.len(),
        ({
            let p = (origin.0 + m.x0 + (m.x1 - m.x0) / 2, origin.1 + m.y0 + (m.y1 - m.y0) / 2);
            let h = handles[k];
            &&& h.0.0 <= p.0 < h.0.0 + h.1.0 && h.0.1 <= p.1 < h.0.1 + h.1.1
            &&& forall|j: int|
                0 <= j < k ==> !crate::monitors::info_holds(#[trigger] handles[j], p)
        }),
    ensures
        scale_of(origin, m, handles, one) == handles[k].2,
{
    lemma_info_at(
        handles,
        (origin.0 + m.x0 + (m.x1 - m.x0) / 2, origin.1 + m.y0 + (m.y1 - m.y0) / 2),
        0,
        k,
    );
}

/// Hotkeys are read in their order, and a text that is none is passed over.
pub proof fn law_hotkeys_are_read_in_order<H, P: Fn(&str) -> Option<H>>(
    specs: Seq<String>,
    parse: P,
    n: int,
    h: H,
)
    requires
        0 <= n < specs.len(),
    ensures
        read_all(specs, parse, 0).len() == 0,
        spoken(parse, specs[n]@) == Some(h) ==> read_all(specs, parse, n + 1) == read_all(
            specs,
            parse,
            n,
        ).push(h),
        spoken(parse, specs[n]@) is None ==> read_all(specs, parse, n + 1) == read_all(
            specs,
            parse,
            n,
        ),
{
}

/// The settings open when they are asked for, unless a capture is in progress.
pub proof fn law_settings_wait_for_the_capture(app: AppModel)
    ensures
        app.session is None ==> app.settings_asked().settings_open,
        app.session is Some ==> app.settings_asked().settings_open == app.settings_open,
        app.settings_asked().session == app.session,
{
}

// ---- Motion and release ----

/// The button under the pointer is the one that is lit as hovered.
pub proof fn law_hovered_button_is_known<F, S>(
    m: Model<F, S>,
    p: (i64, i64),
    button: Option<EditorBtn>,
)
    ensures
        m.hover_at(p, button).hover == button,
        m.hover_at(p, button).items == m.items,
        m.hover_at(p, button).todo.cursor,
        button != m.hover ==> m.hover_at(p, button).todo.redraw,
        !m.dragging ==> m.hover_at(p, button).freehand_pts == m.freehand_pts,
{
}

/// A released edit leaves the items as dragged, and the selection's frame as
/// the drag left it.
pub proof fn law_release_ends_the_edit<F, S>(
    m: Model<F, S>,
    rect: (F, F, F, F),
    rot: F,
)
    ensures
        ({
            let after = m.end_edit(Some((rect, rot)));
            &&& after.edit is Idle
            &&& after.group_rect == rect && after.group_rot == rot
            &&& after.items == m.items && after.selected == m.selected
        }),
        m.end_edit(None).group_rect == m.group_rect,
        m.end_edit(None).group_rot == m.group_rot,
        m.end_edit(None).items == m.items,
{
}

/// While the picture is magnified finely, motion pulls a grabbed edge or moves
/// a grabbed selection, and finds the window under the pointer before there is
/// one; otherwise raw motion does nothing.
pub proof fn law_fine_motion_is_followed(
    m: OverlayModel,
    s: Spot,
    snap: Option<Rect>,
    r: Rect,
    h: Handle,
    orig: Rect,
)
    ensures
        !m.scene.fine ==> m.nudged(s, snap) == m,
        m.scene.fine && m.scene.selection == Some(r) && m.scene.adjust == Adjust::Resizing(h)
            ==> m.nudged(s, snap).scene.selection == Some(resized(r, h, s.pixel, m.img())),
        m.scene.fine && m.scene.selection == Some(r) && m.scene.adjust == (Adjust::Moving { orig })
            ==> m.nudged(s, snap).scene.selection == Some(shifted(orig, s.moved, m.img())),
        m.scene.fine && m.scene.selection is None && m.scene.adjust == Adjust::Idle
            && !m.scene.dragging ==> m.nudged(s, snap).scene.snap_rect == snap,
        m.scene.fine ==> m.nudged(s, snap).chores.warp == Warp::Center,
{
}

// ---- The pointer's shape ----

/// The pointer shows what can be grabbed of the selected item: an arrow's ends
/// and a polyline's vertices, a rotate handle, a resize handle's way, and with
/// a drawing tool the outline or the disc by which the item moves.
pub proof fn law_pointer_shows_the_items_grips<F, S>(
    a: Item<F, S>,
    p: (i64, i64),
    tol: int,
    u: Under<F>,
    select: bool,
    h: Handle,
)
    ensures
        ({
            let shape = a is Rect || a is Ellipse || a is Image || a is Mosaic;
            let c = item_shape(a, p, tol, u, select);
            &&& a matches Item::Arrow { a: from, b: to, .. } ==> (p == from && tol >= 0 || p == to
                && tol >= 0 ==> c == Some(CursorShape::Crosshair))
            &&& (shape || a is Text) && u.item.on_rotate ==> c == Some(CursorShape::Grab)
            &&& shape && !u.item.on_rotate && u.item.handle == Some(h) ==> c == Some(
                handle_shape(h),
            )
            &&& shape && !u.item.on_rotate && u.item.handle is None && u.item.on_outline && !select
                ==> c == Some(CursorShape::Move)
            &&& shape && !u.item.on_rotate && u.item.handle is None && (!u.item.on_outline
                || select) ==> c is None
            &&& a is NumberMarker && u.in_disc && !select ==> c == Some(CursorShape::Move)
            &&& a is Guide ==> c is None
        }),
{
}

/// With the guide's tool the pointer shows that a press draws a guide, moves
/// the one there is, or pulls its edge.
pub proof fn law_pointer_shows_the_guides_grips<F, S>(
    m: Model<F, S>,
    p: (i64, i64),
    tol: int,
    r: (i64, i64, i64, i64),
    h: Handle,
)
    requires
        r.0 <= r.2,
        r.1 <= r.3,
    ensures
        guide_rect(m.items) is None ==> m.guide_shape(p, tol) == CursorShape::Crosshair,
        guide_rect(m.items) == Some(r) && grabbed(r, p, tol, 0) == Some(h) ==> m.guide_shape(p, tol)
            == handle_shape(h),
        guide_rect(m.items) == Some(r) && grabbed(r, p, tol, 0) is None ==> m.guide_shape(p, tol)
            == (if r.0 <= p.0 <= r.2 && r.1 <= p.1 <= r.3 {
            CursorShape::Move
        } else {
            CursorShape::Crosshair
        }),
{
}

// ---- Merging and measuring ----

/// Merging pictures lays each that reaches a pixel over those before it, and
/// leaves the pixel where a picture does not reach it or is none.
pub proof fn law_merging_lays_pictures_over<F, S, E, M, O>(
    extent: E,
    sample: M,
    over: O,
    a: Item<F, S>,
    i: usize,
    origin: (i64, i64),
    w: int,
    h: int,
    x: usize,
    y: usize,
    s: (i64, i64),
    prev: u32,
    px: u32,
) where
    E: Fn(usize, (i64, i64)) -> Option<((i64, i64), (i64, i64))>,
    M: Fn(usize, (i64, i64), usize, usize) -> Option<(i64, i64)>,
    O: Fn(u32, u32) -> u32,

    requires
        merge_step(extent, sample, over, a, i, origin, w, h, x, y, prev, px),
    ensures
        !(a is Image) ==> px == prev,
        (forall|e: Option<((i64, i64), (i64, i64))>| #[trigger]
            call_ensures(extent, (i, origin), e) ==> e is None) ==> px == prev,
        (forall|e: Option<((i64, i64), (i64, i64))>| #[trigger]
            call_ensures(extent, (i, origin), e) ==> (e matches Some((lo, hi)) && !(lo.0 <= x
                < hi.0 && lo.1 <= y < hi.1))) ==> px == prev,
        (a matches Item::Image { src_w, src_h, pixels, .. } && 0 <= s.0 < src_w && 0 <= s.1 < src_h
            && x < w && y < h && (forall|e: Option<((i64, i64), (i64, i64))>| #[trigger]
            call_ensures(extent, (i, origin), e) ==> (e matches Some((lo, hi)) && lo.0 <= x < hi.0
                && lo.1 <= y < hi.1)) && (forall|m: Option<(i64, i64)>| #[trigger]
            call_ensures(sample, (i, origin, x, y), m) ==> m == Some(s))) ==> ({
            let src = a->Image_pixels[s.1 * a->Image_src_w + s.0];
            call_ensures(over, (prev, src), px)
        }),
{
}

/// The room for a picture is nine tenths of the monitor's side less the bar,
/// and never nothing.
pub proof fn law_room_leaves_a_tenth(side: int, bar: int)
    requires
        0 <= side,
        0 <= bar,
    ensures
        room_along(side, bar) >= 1,
        side * 9 / 10 > bar ==> room_along(side, bar) == side * 9 / 10 - bar,
{
}

/// A magnified column or row shows the picture's where there is one.
pub proof fn law_magnified_line_names_its_source(v: i64, len: int)
    requires
        0 <= len < usize::MAX,
    ensures
        0 <= v < len ==> source_of(v, len) == v,
        v < 0 || v >= len ==> source_of(v, len) == NO_SOURCE,
{
}

/// A session that cannot be read is told with the reason behind.
pub proof fn law_reason_is_told(error: Seq<char>)
    ensures
        ({
            let text = unloadable_text(error);
            text.len() >= error.len() && text.skip(text.len() - error.len()) == error
        }),
{
    let text = unloadable_text(error);
    assert(text.skip(text.len() - error.len()) =~= error);
}

/// Each divider of the menu has its line where it stands among the entries.
pub proof fn law_dividers_stand_in_their_slots(
    order: Seq<MenuButton>,
    btn: int,
    at: (int, int),
    n: int,
    i: int,
)
    requires
        0 <= i < n <= order.len(),
        order[i] == MenuButton::Divider,
    ensures
        dividers_of(order, btn, at, n).contains(slot_rect(order, btn, at, i)),
    decreases n,
{
    let all = dividers_of(order, btn, at, n);
    if i == n - 1 {
        assert(all[all.len() - 1] == slot_rect(order, btn, at, i));
    } else {
        law_dividers_stand_in_their_slots(order, btn, at, n - 1, i);
        let rest = dividers_of(order, btn, at, n - 1);
        let k = choose|k: int| 0 <= k < rest.len() && rest[k] == slot_rect(order, btn, at, i);
        assert(all[k] == slot_rect(order, btn, at, i));
    }
}

/// Each button of the editor is drawn in its place, with its icon six pixels
/// inside, lit as it is used.
pub proof fn law_buttons_are_drawn_in_place<F, S>(
    m: Model<F, S>,
    layout: Seq<(EditorBtn, Rect)>,
    looks: Seq<ButtonLook>,
    i: int,
)
    requires
        buttons_drawn(m, layout, looks),
        0 <= i < layout.len(),
        layout[i].1.x0 + 12 <= layout[i].1.x1,
        layout[i].1.y0 + 12 <= layout[i].1.y1,
    ensures
        looks[i].btn == layout[i].0,
        looks[i].rect == layout[i].1,
        looks[i].icon.x0 - layout[i].1.x0 == 6,
        looks[i].icon.y0 - layout[i].1.y0 == 6,
        layout[i].1.x1 - looks[i].icon.x1 == 6,
        layout[i].1.y1 - looks[i].icon.y1 == 6,
        layout[i].0 == EditorBtn::Tool(m.tool) ==> looks[i].color == 0x004D_A6FFu32,
{
}

proof fn lemma_first_cover(monitors: Seq<Rect>, sel: Rect, i: int, k: int)
    requires
        0 <= i <= k < monitors.len(),
        monitors[k].covers(sel),
        forall|j: int| i <= j < k ==> !(#[trigger] monitors[j]).covers(sel),
    ensures
        first_cover(monitors, sel, i) == Some(k),
    decreases k - i,
{
    if i < k {
        assert(!monitors[i].covers(sel));
        lemma_first_cover(monitors, sel, i + 1, k);
    }
}

/// The menu of a selection is laid out on the monitor that shows it, in that
/// monitor's measures, with the session's entries and keys.
pub proof fn law_menu_suits_the_monitor(m: OverlayModel, sel: Rect, k: int)
    requires
        0 <= k < m.kit.frozen.monitors@.len(),
        k < m.kit.frozen.scales@.len(),
        m.kit.frozen.monitors@[k].covers(sel),
        forall|j: int| 0 <= j < k ==> !(#[trigger] m.kit.frozen.monitors@[j]).covers(sel),
    ensures
        m.menu_for(sel) == MenuModel::laid_out(
            sel,
            m.kit.frozen.monitors@[k],
            m.kit.keys,
            m.kit.order@,
            m.avail(),
            None,
            m.kit.frozen.scales@[k],
        ),
{
    lemma_first_cover(m.kit.frozen.monitors@, sel, 0, k);
}

/// The box of the pictures to be merged holds every corner of each.
pub proof fn law_pictures_lie_in_their_box<F, S>(
    items: Seq<Item<F, S>>,
    outlines: Seq<Outline>,
    n: int,
    i: int,
    c: int,
)
    requires
        0 <= i < n <= items.len(),
        items[i] is Image,
        0 <= c < 4,
    ensures
        ({
            let b = pictures_box(items, outlines, n);
            let p = outlines[i].corners@[c];
            b.0 <= p.0 <= b.2 && b.1 <= p.1 <= b.3
        }),
    decreases n,
{
    if i < n - 1 {
        law_pictures_lie_in_their_box(items, outlines, n - 1, i, c);
    }
}

/// The selection's boxes are those of the selected items, in order.
pub proof fn law_selected_boxes_are_the_items<F, S>(
    items: Seq<Item<F, S>>,
    outlines: Seq<Outline>,
    selected: Seq<usize>,
    k: int,
)
    requires
        0 <= k < selected.len(),
        forall|t: int| 0 <= t < selected.len() ==> #[trigger] selected[t] < items.len(),
    ensures
        picked_boxes(items, outlines, selected).len() == selected.len(),
        picked_boxes(items, outlines, selected)[k] == tight_box(
            items[selected[k] as int],
            outlines[selected[k] as int],
        ),
    decreases selected.len(),
{
    let rest = selected.drop_last();
    assert(selected.last() == selected[selected.len() - 1]);
    assert forall|t: int| 0 <= t < rest.len() implies #[trigger] rest[t] < items.len() by {
        assert(rest[t] == selected[t]);
    }
    if rest.len() > 0 {
        law_selected_boxes_are_the_items(
            items,
            outlines,
            rest,
            if k < rest.len() {
                k
            } else {
                0
            },
        );
    }
}

/// A blur first scatters each pixel inside its shape by a jitter drawn from
/// the seed and the place, and leaves the others.
pub proof fn law_blur_scatters_by_its_seed<I, J>(
    inside: I,
    jitter: J,
    seed: u32,
    old_buf: Seq<u32>,
    w: int,
    clip: Rect,
    x: usize,
    y: usize,
    s: (i64, i64),
    px: u32,
) where I: Fn(usize, usize) -> bool, J: Fn(u64, usize, usize) -> (i64, i64)
    requires
        scrambled_pixel(inside, jitter, seed, old_buf, w, clip, x, y, px),
    ensures
        (forall|b: bool| #[trigger] call_ensures(inside, (x, y), b) ==> !b) ==> px == old_buf[y * w
            + x],
        (forall|b: bool| #[trigger] call_ensures(inside, (x, y), b) ==> b) && (forall|c: (i64, i64)|
         #[trigger]
            call_ensures(jitter, (mosaic_mix(seed, x as i64, y as i64, 0), x, y), c) ==> c == s)
            && clip.holds(s.0 as int, s.1 as int) ==> px == old_buf[s.1 * w + s.0],
{
}

/// A blur's pixel inside its shape is the mix of its column of mixed rows, and
/// the others are left.
pub proof fn law_blur_mixes_rows_and_columns<I, X>(
    inside: I,
    mix: X,
    scr: Seq<u32>,
    rows: Seq<u32>,
    clip: Rect,
    radius: int,
    x: usize,
    y: usize,
    k: int,
    old_px: u32,
    px: u32,
) where I: Fn(usize, usize) -> bool, X: Fn(Vec<u32>) -> u32
    requires
        blurred_pixel(inside, mix, rows, clip, radius, x, y, old_px, px),
        rows_mixed(mix, scr, clip.x1 - clip.x0, radius, rows),
        0 <= k < rows.len(),
    ensures
        (forall|b: bool| #[trigger] call_ensures(inside, (x, y), b) ==> !b) ==> px == old_px,
        (forall|b: bool| #[trigger] call_ensures(inside, (x, y), b) ==> b) ==> exists|v: Vec<u32>|
            v@ == col_window(
                rows,
                clip.x1 - clip.x0,
                clip.y1 - clip.y0,
                radius,
                x - clip.x0,
                y - clip.y0,
            ) && #[trigger] call_ensures(mix, (v,), px),
        rows.len() == scr.len(),
        exists|v: Vec<u32>|
            v@ == row_window(
                scr,
                clip.x1 - clip.x0,
                radius,
                k % (clip.x1 - clip.x0),
                k / (clip.x1 - clip.x0),
            ) && #[trigger] call_ensures(mix, (v,), rows[k]),
{
    assert(is_mix(
        mix,
        row_window(
            scr,
            clip.x1 - clip.x0,
            radius,
            k % (clip.x1 - clip.x0),
            k / (clip.x1 - clip.x0),
        ),
        rows[k],
    ));
}

} // verus!

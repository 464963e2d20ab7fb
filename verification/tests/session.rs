//! An editing session: tools, keys, the pointer, and the history behind
//! them.

use std::rc::Rc;

use pashari::annotation::{
    hit_rect_handle, rect_norm, resize_rect, Annotation, Handle, MosaicMode,
};
use pashari::canvas::{CursorShape, Marks, PropLook};
use pashari::commands::{KeyPress, Labels};
use pashari::drag::{Follow, Ratio};
use pashari::editor::{EditDrag, Editor, ImeWish, PickerPart, Task};
use pashari::events::{EditorEvent, Turn};
use pashari::fields::{
    decimal, only_digits, parse_dim, typed_dim, typed_number, Numbers, Typing, NUMBER_RANGE,
    THICK_RANGE,
};
use pashari::history::UndoStack;
use pashari::keys::{parse, EditorAction, EditorKeys, HotkeyConfig, LocalKey};
use pashari::measure::{export_bounds, export_size, guide_index, Outline};
use pashari::opening::{
    drop_center, initial_items, is_whole, on_canvas, opening, session_is_loadable, session_size,
    window_plan, EditorInit, Opened, Opening,
};
use pashari::order::{has_index, insert_index, members_below, remove_chosen, sorted_set};
use pashari::order::reorder_selection;
use pashari::paint::{paint_annotations, paint_one, paint_selection, Chrome, Layer, OnScreen};
use pashari::pixels::{
    dim_color, lighten, mix_seed, mosaic_hash, pack, rgba_to_packed_alpha, Shot,
};
use pashari::press::{Calc, FrameProbe, Press, Under};
use pashari::release::{FrameCalc, Release};
use pashari::style::{PropVal, Restyle, Style};
use pashari::toolbar::{
    button_at, picker_geom, tool_buttons, top_layout, EditorBtn, Field, PropCtrl, Tool, TOOLBAR_H,
};
use pashari::transform::{can_translate, translate_annotation};

type Ann = Annotation<f64, f32>;
type Session = Editor<f64, f32>;
type Frame = (f64, f64, f64, f64);
type Frames = FrameCalc<
    fn(f64, i64) -> f64,
    fn((Frame, Handle, f64, Ratio)) -> Frame,
    fn(((f64, f64), f64, bool)) -> f64,
    fn(f64, f64) -> f64,
    fn(usize) -> Frame,
>;

fn style() -> Style<f32> {
    Style {
        color: 0x00E0_3030,
        thick: 4,
        size: 24.0,
        filled: false,
        block: 16.0,
        blur: false,
    }
}

fn session(items: Vec<Ann>) -> Session {
    let keys = EditorKeys::from_config(&HotkeyConfig::default());
    Editor::new(items, style(), 0.0, keys)
}

// The operations a session is handed.

fn lift(v: i64) -> f64 {
    v as f64
}

fn shift(v: f64, d: i64) -> f64 {
    v + d as f64
}

fn to_size(v: i64) -> f32 {
    v as f32
}

fn numbers() -> Numbers<fn(i64) -> f64, fn(&str) -> Option<f64>, fn(f64, f64) -> bool> {
    Numbers {
        lift,
        read: |s| s.parse().ok(),
        less: |a, b| a < b,
    }
}

fn other_number(s: &str, range: (i64, i64)) -> Option<(i64, f32)> {
    typed_dim(s, range, &numbers()).map(|v| (v.round() as i64, v as f32))
}

fn typing() -> Typing<fn(i64) -> f32, fn(&str, (i64, i64)) -> Option<(i64, f32)>> {
    Typing {
        to_size,
        other: other_number,
    }
}

fn whole(s: f32) -> i64 {
    s.round() as i64
}

fn same(a: f32, b: f32) -> bool {
    a == b
}

fn merge(items: Vec<Ann>) -> Ann {
    Annotation::Text {
        pos: (0, 0),
        text: format!("{} merged", items.len()),
        color: 0,
        size: 1.0,
        rot: 0.0,
    }
}

fn ink(points: Vec<(i64, i64)>, thick: i64, color: u32) -> Ann {
    Annotation::Polyline {
        points,
        color,
        thick,
    }
}

fn step(s: f32, up: bool, range: (i64, i64)) -> f32 {
    let moved = if up { s + 1.0 } else { s - 1.0 };
    moved.clamp(range.0 as f32, range.1 as f32)
}

fn probe() -> FrameProbe<f64> {
    FrameProbe {
        on_rotate: false,
        handle: None,
        on_outline: false,
        center: (0.0, 0.0),
        norm: (0.0, 0.0, 0.0, 0.0),
    }
}

fn under(hit: Option<usize>) -> Under<f64> {
    Under {
        group: probe(),
        item: probe(),
        angle: 0.0,
        in_disc: false,
        hit,
    }
}

fn no_labels() -> Labels {
    Labels {
        color: None,
        line: None,
        size: None,
        number: None,
        block: None,
    }
}

/// A handle leaves the frame as it is, every swing is half a turn, and item
/// `i` has a box from `(i, i)` on.
fn frames() -> Frames {
    FrameCalc {
        shift,
        resize: |a| a.0,
        swing: |_| 0.5,
        sum: |a, b| a + b,
        boxed: |i| (i as f64, i as f64, 9.0, 9.0),
    }
}

fn press(e: &mut Session, p: (i64, i64), hit: Option<usize>) {
    e.on_press_canvas(p, 6, &under(hit), 7);
}

fn release(e: &mut Session, p: (i64, i64)) -> Release {
    assert!(e.can_frame(p));
    e.on_release(1000, 500, 500, p, &frames(), &merge, &ink, &lift)
}

fn draw(e: &mut Session, tool: Tool, a: (i64, i64), b: (i64, i64)) {
    e.activate(EditorBtn::Tool(tool), &merge);
    press(e, a, None);
    release(e, b);
}

fn key(e: &mut Session, k: KeyPress) -> Task {
    assert!(e.can_paste());
    e.on_key(&k, &typing(), &merge, &shift)
}

fn text(e: &mut Session, s: &str) -> Task {
    key(e, KeyPress::Text(s.to_string()))
}

fn follow(e: &mut Session, p: (i64, i64)) -> Follow<f64> {
    assert!(e.can_edit(p));
    let resize = |a: ((f64, f64, f64, f64), Handle, f64, Ratio)| match a.1 {
        Handle::BottomRight => (a.0 .0, a.0 .1, p.0 as f64, p.1 as f64),
        _ => a.0,
    };
    let aim = |_a: ((f64, f64), bool)| Some(0.5);
    let swing = |_a: ((f64, f64), f64, bool)| 0.25;
    e.apply_edit(p, &shift, &resize, &aim, &swing)
}

fn look(a: &Ann) -> String {
    format!("{a:?}")
}

fn looks(e: &Session) -> Vec<String> {
    e.annotations.iter().map(look).collect()
}

fn arrow(x: i64) -> Ann {
    Annotation::Arrow {
        a: (x, 0),
        b: (x + 10, 0),
        color: 1,
        thick: 2,
    }
}

fn boxed(x: i64) -> Ann {
    Annotation::Rect {
        r: (x as f64, 0.0, (x + 10) as f64, 10.0),
        color: 1,
        thick: 2,
        rot: 0.0,
        filled: false,
    }
}

// ---- Drawing ----

#[test]
fn drawing_selects_the_new_item_and_can_be_undone_and_redone() {
    let mut e = session(vec![]);
    draw(&mut e, Tool::Rect, (30, 40), (10, 20));
    assert_eq!(
        looks(&e),
        vec![look(&Annotation::Rect {
            r: (10.0, 20.0, 30.0, 40.0),
            color: 0x00E0_3030,
            thick: 4,
            rot: 0.0,
            filled: false,
        })]
    );
    assert_eq!(e.selected, vec![0]);
    draw(&mut e, Tool::Arrow, (1, 2), (3, 4));
    assert_eq!(e.selected, vec![1]);
    let both = looks(&e);
    e.undo();
    assert_eq!(e.annotations.len(), 1);
    assert!(e.selected.is_empty());
    e.redo();
    assert_eq!(looks(&e), both);
    e.undo();
    e.undo();
    assert!(e.annotations.is_empty());
    e.undo();
    assert!(e.annotations.is_empty());
}

#[test]
fn the_preview_is_what_is_drawn() {
    for tool in [Tool::Rect, Tool::Ellipse, Tool::Arrow, Tool::Mosaic, Tool::Guide] {
        let mut e = session(vec![]);
        e.activate(EditorBtn::Tool(tool), &merge);
        press(&mut e, (5, 6), None);
        let shown = look(&e.preview((50, 60), &lift).unwrap());
        release(&mut e, (50, 60));
        assert_eq!(look(&e.annotations[0]), shown);
    }
}

#[test]
fn a_mosaic_keeps_the_seed_of_its_press() {
    let mut e = session(vec![]);
    draw(&mut e, Tool::Mosaic, (0, 0), (8, 8));
    assert!(matches!(
        e.annotations[0],
        Annotation::Mosaic {
            seed: 7,
            mode: MosaicMode::Pixelate,
            ..
        }
    ));
}

#[test]
fn there_is_one_guide_after_placing_one() {
    let mut e = session(vec![]);
    draw(&mut e, Tool::Guide, (0, 0), (10, 10));
    draw(&mut e, Tool::Rect, (0, 0), (5, 5));
    draw(&mut e, Tool::Guide, (100, 100), (50, 40));
    assert_eq!(e.annotations.len(), 2);
    assert_eq!(guide_index(&e.annotations), Some(1));
    assert!(matches!(
        e.annotations[1],
        Annotation::Guide {
            r: (50, 40, 100, 100)
        }
    ));
    // Inside an existing one the guide tool moves it.
    e.activate(EditorBtn::Tool(Tool::Guide), &merge);
    press(&mut e, (65, 60), None);
    follow(&mut e, (66, 62));
    release(&mut e, (66, 62));
    assert!(matches!(
        e.annotations[1],
        Annotation::Guide {
            r: (51, 42, 101, 102)
        }
    ));
    // On a corner it resizes it.
    press(&mut e, (101, 102), None);
    follow(&mut e, (120, 130));
    release(&mut e, (120, 130));
    assert!(matches!(
        e.annotations[1],
        Annotation::Guide {
            r: (51, 42, 120, 130)
        }
    ));
}

#[test]
fn markers_count_up() {
    let mut e = session(vec![Annotation::NumberMarker {
        pos: (0, 0),
        number: 4,
        color: 0,
        size: 5.0,
    }]);
    e.activate(EditorBtn::Tool(Tool::NumberMarker), &merge);
    for n in 5..8 {
        press(&mut e, (10, 10), None);
        release(&mut e, (10, 10));
        assert!(matches!(
            e.annotations.last(),
            Some(Annotation::NumberMarker { number, .. }) if *number == n
        ));
    }
    assert_eq!(e.selected, vec![3]);
}

#[test]
fn a_polyline_is_ended_by_enter_and_dropped_by_escape() {
    let mut e = session(vec![]);
    e.activate(EditorBtn::Tool(Tool::Polyline), &merge);
    press(&mut e, (0, 0), None);
    release(&mut e, (0, 0));
    key(&mut e, KeyPress::Enter);
    assert!(e.annotations.is_empty());
    for p in [(0, 0), (10, 0), (10, 10)] {
        press(&mut e, p, None);
        release(&mut e, p);
    }
    key(&mut e, KeyPress::Enter);
    assert!(matches!(
        &e.annotations[0],
        Annotation::Polyline { points, .. } if *points == vec![(0, 0), (10, 0), (10, 10)]
    ));
    e.undo();
    press(&mut e, (0, 0), None);
    release(&mut e, (0, 0));
    key(&mut e, KeyPress::Escape);
    assert!(e.polyline_pts.is_empty());
}

#[test]
fn strokes_wait_and_are_merged_when_the_tool_changes() {
    let mut e = session(vec![arrow(0)]);
    e.activate(EditorBtn::Tool(Tool::Draw), &merge);
    for y in [0, 10, 20] {
        press(&mut e, (0, y), None);
        e.on_hover(1000, 500, 500, (1, y));
        e.on_hover(1000, 500, 500, (5, y));
        e.on_hover(1000, 500, 500, (9, y));
        release(&mut e, (9, y));
    }
    assert_eq!(e.annotations.len(), 4);
    // The nearest point is thinned out.
    assert!(matches!(
        &e.annotations[1],
        Annotation::Polyline { points, .. } if *points == vec![(0, 0), (5, 0), (9, 0)]
    ));
    assert_eq!(e.freehand_batch, vec![1, 2, 3]);
    e.activate(EditorBtn::Tool(Tool::Select), &merge);
    assert_eq!(e.annotations.len(), 2);
    assert_eq!(look(&e.annotations[0]), look(&arrow(0)));
    assert!(matches!(
        &e.annotations[1],
        Annotation::Text { text, .. } if text == "3 merged"
    ));
    assert!(e.freehand_batch.is_empty());
    // One undo gives the strokes back.
    e.undo();
    assert_eq!(e.annotations.len(), 4);
}

#[test]
fn a_text_is_typed_and_committed() {
    let mut e = session(vec![]);
    e.activate(EditorBtn::Tool(Tool::Text), &merge);
    press(&mut e, (3, 4), None);
    assert_eq!(e.take_todo().ime, ImeWish::At((3, 4)));
    text(&mut e, "Hx");
    key(&mut e, KeyPress::Backspace);
    key(&mut e, KeyPress::Space);
    e.on_ime_preedit("preview".to_string());
    assert_eq!(e.caret_text(), Some(((3, 4), "H preview|".to_string())));
    e.on_ime_commit("z".to_string());
    key(&mut e, KeyPress::Enter);
    assert!(matches!(
        &e.annotations[0],
        Annotation::Text { pos: (3, 4), text, .. } if text == "H z"
    ));
    assert_eq!(e.selected, vec![0]);
    assert_eq!(e.take_todo().ime, ImeWish::Off);
    // An empty text leaves nothing, and Escape drops what was typed.
    press(&mut e, (50, 50), None);
    key(&mut e, KeyPress::Enter);
    press(&mut e, (50, 50), None);
    text(&mut e, "gone");
    key(&mut e, KeyPress::Escape);
    assert_eq!(e.annotations.len(), 1);
}

#[test]
fn a_picture_is_added_at_its_size_and_selected() {
    let mut e = session(vec![]);
    assert!(Session::can_add_image((100, 100), 3, 2));
    e.add_image((100, 100), 3, 2, Rc::new(vec![1; 6]), &lift);
    assert_eq!(e.tool, Tool::Select);
    assert_eq!(e.selected, vec![0]);
    assert!(matches!(
        &e.annotations[0],
        Annotation::Image { r, src_w: 3, src_h: 2, .. } if *r == (99.0, 99.0, 102.0, 101.0)
    ));
    e.add_image((0, 0), 0, 2, Rc::new(vec![]), &lift);
    assert_eq!(e.annotations.len(), 1);
    assert!(!Session::can_add_image((i64::MAX, 0), 3, 2));
}

#[test]
fn a_picture_added_while_typing_is_the_selected_item() {
    let mut e = session(vec![arrow(0)]);
    e.activate(EditorBtn::Tool(Tool::Text), &merge);
    press(&mut e, (50, 50), None);
    text(&mut e, "note");
    e.add_image((100, 100), 4, 4, Rc::new(vec![1; 16]), &lift);
    assert_eq!(e.annotations.len(), 3);
    assert_eq!(e.selected, vec![1]);
    assert!(matches!(e.annotations[1], Annotation::Image { .. }));
    assert!(matches!(&e.annotations[2], Annotation::Text { text, .. } if text == "note"));
    assert_eq!(e.tool, Tool::Select);
    assert!(e.editing.is_none());
}

// ---- Selecting and dragging ----

#[test]
fn a_press_selects_and_a_drag_moves_as_one_change() {
    let mut e = session(vec![boxed(0), arrow(100)]);
    press(&mut e, (100, 0), Some(1));
    assert_eq!(e.selected, vec![1]);
    follow(&mut e, (105, 3));
    follow(&mut e, (110, 7));
    release(&mut e, (110, 7));
    assert!(matches!(
        e.annotations[1],
        Annotation::Arrow {
            a: (110, 7),
            b: (120, 7),
            ..
        }
    ));
    assert_eq!(look(&e.annotations[0]), look(&boxed(0)));
    e.undo();
    assert_eq!(look(&e.annotations[1]), look(&arrow(100)));
}

#[test]
fn shift_keeps_a_drag_to_one_axis() {
    let mut e = session(vec![arrow(0)]);
    press(&mut e, (0, 0), Some(0));
    e.set_modifiers(false, true, false);
    follow(&mut e, (20, 3));
    assert!(matches!(
        e.annotations[0],
        Annotation::Arrow {
            a: (20, 0),
            b: (30, 0),
            ..
        }
    ));
}

#[test]
fn alt_drags_a_copy() {
    let mut e = session(vec![arrow(0), boxed(50)]);
    e.set_modifiers(false, false, true);
    press(&mut e, (0, 0), Some(0));
    follow(&mut e, (0, 30));
    release(&mut e, (0, 30));
    assert_eq!(look(&e.annotations[0]), look(&arrow(0)));
    assert_eq!(look(&e.annotations[1]), look(&boxed(50)));
    assert!(matches!(
        e.annotations[2],
        Annotation::Arrow {
            a: (0, 30),
            b: (10, 30),
            ..
        }
    ));
    assert_eq!(e.selected, vec![2]);
}

#[test]
fn shift_adds_to_the_selection_and_a_group_moves_together() {
    let mut e = session(vec![arrow(0), boxed(50), arrow(100)]);
    press(&mut e, (0, 0), Some(0));
    release(&mut e, (0, 0));
    e.set_modifiers(false, true, false);
    press(&mut e, (100, 0), Some(2));
    release(&mut e, (100, 0));
    assert_eq!(e.selected, vec![0, 2]);
    assert!(e.history.can_undo());
    e.set_modifiers(false, false, false);
    press(&mut e, (0, 0), Some(0));
    assert!(matches!(e.edit, EditDrag::GroupMove { .. }));
    follow(&mut e, (1, 2));
    // The frame goes along, on screen and once the drag has ended.
    e.group_rect = (0.0, 0.0, 110.0, 10.0);
    let scene = e.draw(
        (1000, 800),
        (1, 2),
        false,
        &no_labels(),
        &frames(),
        &same,
        &lift,
        &whole,
    );
    assert_eq!(scene.frame, ((1.0, 2.0, 111.0, 12.0), 0.0));
    release(&mut e, (1, 2));
    assert_eq!(e.group_rect, (1.0, 2.0, 111.0, 12.0));
    assert!(matches!(e.annotations[0], Annotation::Arrow { a: (1, 2), .. }));
    assert!(matches!(
        e.annotations[2],
        Annotation::Arrow { a: (101, 2), .. }
    ));
    assert_eq!(look(&e.annotations[1]), look(&boxed(50)));
    // Shift takes away as well.
    e.set_modifiers(false, true, false);
    press(&mut e, (0, 0), Some(0));
    assert_eq!(e.selected, vec![2]);
}

#[test]
fn a_marquee_selects_what_it_meets_and_a_click_on_nothing_selects_nothing() {
    let o = Outline {
        corners: [(0, 0), (10, 0), (10, 10), (0, 10)],
        oval: (0, 0, 0, 0),
        radius: 0,
        reach: 0,
        barbs: None,
    };
    let mut e = session(vec![boxed(0), arrow(100)]);
    press(&mut e, (-5, -5), None);
    assert_eq!(e.marquee_rect((20, 20)), Some((-5, -5, 20, 20)));
    let r = release(&mut e, (20, 20));
    assert_eq!(r, Release::Marquee((-5, -5), (20, 20)));
    e.marquee_select((-5, -5), (20, 20), 6, &vec![o, o], &vec![true, false]);
    assert_eq!(e.selected, vec![0]);
    e.set_modifiers(false, true, false);
    e.marquee_select((90, -5), (120, 20), 6, &vec![o, o], &vec![false, false]);
    assert_eq!(e.selected, vec![0, 1]);
    e.set_modifiers(false, false, false);
    e.marquee_select((90, 90), (91, 91), 6, &vec![o, o], &vec![false, false]);
    assert!(e.selected.is_empty());
}

#[test]
fn handles_resize_and_the_rotate_handle_turns() {
    let mut e = session(vec![boxed(0)]);
    press(&mut e, (5, 5), Some(0));
    release(&mut e, (5, 5));
    let mut u = under(Some(0));
    u.item.handle = Some(Handle::BottomRight);
    u.item.norm = (0.0, 0.0, 10.0, 10.0);
    e.on_press_canvas((10, 10), 6, &u, 0);
    assert!(matches!(e.edit, EditDrag::RotatedHandle { .. }));
    follow(&mut e, (30, 40));
    release(&mut e, (30, 40));
    assert!(matches!(
        e.annotations[0],
        Annotation::Rect { r, .. } if r == (0.0, 0.0, 30.0, 40.0)
    ));
    let mut u = under(Some(0));
    u.item.on_rotate = true;
    e.on_press_canvas((10, 10), 6, &u, 0);
    assert!(matches!(e.edit, EditDrag::Rotate { .. }));
    follow(&mut e, (30, 40));
    assert!(matches!(e.annotations[0], Annotation::Rect { rot, .. } if rot == 0.5));
}

#[test]
fn an_arrow_is_pulled_by_its_ends_and_a_polyline_by_its_vertices() {
    let line = Annotation::Polyline {
        points: vec![(0, 50), (50, 50), (50, 90)],
        color: 0,
        thick: 1,
    };
    let mut e = session(vec![arrow(0), line]);
    press(&mut e, (5, 0), Some(0));
    release(&mut e, (5, 0));
    press(&mut e, (11, 1), Some(0));
    assert!(matches!(e.edit, EditDrag::ArrowEnd { end_b: true }));
    follow(&mut e, (40, 40));
    release(&mut e, (40, 40));
    assert!(matches!(
        e.annotations[0],
        Annotation::Arrow {
            a: (0, 0),
            b: (40, 40),
            ..
        }
    ));
    press(&mut e, (20, 50), Some(1));
    release(&mut e, (20, 50));
    press(&mut e, (49, 51), Some(1));
    assert!(matches!(e.edit, EditDrag::PolylinePoint { index: 1 }));
    follow(&mut e, (60, 61));
    release(&mut e, (60, 61));
    assert!(matches!(
        &e.annotations[1],
        Annotation::Polyline { points, .. } if *points == vec![(0, 50), (60, 61), (50, 90)]
    ));
}

#[test]
fn a_group_is_scaled_and_turned_by_what_its_frame_does() {
    let mut e = session(vec![arrow(0), boxed(50)]);
    e.set_modifiers(false, true, false);
    press(&mut e, (5, 1), Some(0));
    press(&mut e, (55, 5), Some(1));
    e.set_modifiers(false, false, false);
    let mut u = under(None);
    u.group.handle = Some(Handle::BottomRight);
    e.on_press_canvas((60, 10), 6, &u, 0);
    assert!(matches!(follow(&mut e, (120, 20)), Follow::Scale { .. }));
    assert_eq!(e.grabbed_count(), 2);
    assert_eq!(e.grabbed_at(1).0, 1);
    let twice = |p: (i64, i64)| (2 * p.0, 2 * p.1);
    let rect = |r: (f64, f64, f64, f64), _t: f64| (2.0 * r.0, 2.0 * r.1, 2.0 * r.2, 2.0 * r.3);
    let size = |s: f32| 2.0 * s;
    e.scale_group(true, &twice, &rect, &size);
    assert!(matches!(e.annotations[0], Annotation::Arrow { b: (20, 0), .. }));
    assert!(matches!(
        e.annotations[1],
        Annotation::Rect { r, .. } if r == (100.0, 0.0, 120.0, 20.0)
    ));
    release(&mut e, (120, 20));
    let mut u = under(None);
    u.group.on_rotate = true;
    e.on_press_canvas((60, 10), 6, &u, 0);
    assert!(matches!(follow(&mut e, (0, 0)), Follow::Turn { delta, .. } if delta == 0.25));
    let quarter = |p: (i64, i64)| (-p.1, p.0);
    let orbit = |r: (f64, f64, f64, f64)| r;
    let turn = |t: f64| t + 1.5;
    e.turn_group(&quarter, &orbit, &turn, &vec![(0, 0), (0, 0)]);
    assert!(matches!(e.annotations[0], Annotation::Arrow { b: (0, 20), .. }));
    assert!(matches!(e.annotations[1], Annotation::Rect { rot, .. } if rot == 1.5));
}

#[test]
fn nothing_is_undone_during_a_drag() {
    let mut e = session(vec![arrow(0)]);
    press(&mut e, (0, 0), Some(0));
    follow(&mut e, (50, 50));
    assert!(!e.is_at_rest());
    let before = looks(&e);
    e.undo();
    assert_eq!(looks(&e), before);
    e.redo();
    assert_eq!(looks(&e), before);
}

// ---- Keys ----

#[test]
fn delete_takes_out_the_selected_and_undo_brings_them_back() {
    let mut e = session(vec![arrow(0), boxed(50), arrow(100)]);
    let before = looks(&e);
    e.set_modifiers(false, true, false);
    press(&mut e, (5, 99), Some(0));
    press(&mut e, (105, 99), Some(2));
    key(&mut e, KeyPress::Delete);
    assert_eq!(looks(&e), vec![look(&boxed(50))]);
    assert!(e.selected.is_empty());
    e.undo();
    assert_eq!(looks(&e), before);
}

#[test]
fn copies_are_pasted_with_an_offset() {
    let mut e = session(vec![arrow(0), boxed(50)]);
    press(&mut e, (0, 0), Some(0));
    release(&mut e, (0, 0));
    e.set_modifiers(true, false, false);
    assert_eq!(text(&mut e, "c"), Task::Nothing);
    assert_eq!(text(&mut e, "v"), Task::Nothing);
    assert_eq!(e.annotations.len(), 3);
    assert!(matches!(
        e.annotations[2],
        Annotation::Arrow { a: (16, 16), .. }
    ));
    assert_eq!(e.selected, vec![2]);
    assert_eq!(look(&e.annotations[0]), look(&arrow(0)));
    // The copied item stays for another paste.
    text(&mut e, "v");
    assert_eq!(e.annotations.len(), 4);
}

#[test]
fn a_guide_is_not_copied() {
    let mut e = session(vec![]);
    draw(&mut e, Tool::Guide, (0, 0), (100, 100));
    // Pressed inside, the guide is selected.
    press(&mut e, (50, 50), None);
    release(&mut e, (50, 50));
    assert_eq!(e.selected, vec![0]);
    e.set_modifiers(true, false, false);
    assert_eq!(text(&mut e, "c"), Task::CopyImage);
    assert_eq!(text(&mut e, "v"), Task::PasteImage);
    assert_eq!(e.annotations.len(), 1);
}

#[test]
fn without_copies_the_clipboard_is_asked_and_the_image_is_copied_as_a_whole() {
    let mut e = session(vec![arrow(0)]);
    e.set_modifiers(true, false, false);
    assert_eq!(text(&mut e, "v"), Task::PasteImage);
    assert_eq!(text(&mut e, "c"), Task::CopyImage);
    assert_eq!(text(&mut e, "s"), Task::Save);
    assert_eq!(text(&mut e, "0"), Task::ResetZoom);
    e.set_modifiers(false, false, false);
    assert_eq!(text(&mut e, "r"), Task::Nothing);
    assert_eq!(e.tool, Tool::Rect);
}

#[test]
fn page_keys_reorder_the_selection() {
    let mut e = session(vec![arrow(0), boxed(50), arrow(100)]);
    press(&mut e, (0, 0), Some(0));
    release(&mut e, (0, 0));
    key(&mut e, KeyPress::PageUp);
    assert_eq!(e.selected, vec![1]);
    assert_eq!(look(&e.annotations[1]), look(&arrow(0)));
    key(&mut e, KeyPress::PageDown);
    assert_eq!(e.selected, vec![0]);
    assert_eq!(look(&e.annotations[0]), look(&arrow(0)));
    assert_eq!(look(&e.annotations[1]), look(&boxed(50)));
}

// ---- Style ----

#[test]
fn a_typed_number_is_kept_within_its_range() {
    let mut e = session(vec![boxed(0)]);
    press(&mut e, (0, 0), Some(0));
    release(&mut e, (0, 0));
    e.focus_field(Field::Line, &typing(), &whole);
    assert_eq!(e.buf, "2");
    text(&mut e, "x");
    text(&mut e, "99");
    assert_eq!(e.buf, "299");
    key(&mut e, KeyPress::Enter);
    assert!(matches!(e.annotations[0], Annotation::Rect { thick: 200, .. }));
    assert_eq!(e.style.thick, 200);
    e.undo();
    assert!(matches!(e.annotations[0], Annotation::Rect { thick: 2, .. }));
    // The next marker's number is not part of the items.
    let changes = e.history.can_redo();
    e.focus_field(Field::Number, &typing(), &whole);
    key(&mut e, KeyPress::Backspace);
    text(&mut e, "42");
    e.commit_field(&typing());
    assert_eq!(e.next_marker_num, 42);
    assert_eq!(e.history.can_redo(), changes);
}

#[test]
fn a_field_reads_fractions_too() {
    let mut e = session(vec![boxed(0)]);
    press(&mut e, (0, 0), Some(0));
    release(&mut e, (0, 0));
    let mut typed = |field: Field, s: &str| {
        e.focus_field(field, &typing(), &whole);
        e.buf = s.to_string();
        e.commit_field(&typing());
        (e.style.thick, e.style.size, e.next_marker_num)
    };
    assert_eq!(typed(Field::Line, " 8.5 ").0, 9);
    assert_eq!(typed(Field::Line, "1e9").0, 200);
    assert_eq!(typed(Field::Line, "0.2").0, 1);
    assert_eq!(typed(Field::Line, "abc").0, 1);
    assert_eq!(typed(Field::Size, "12.25").1, 12.25);
    assert_eq!(typed(Field::Number, "7.4").2, 7);
    assert_eq!(typed(Field::Number, "").2, 7);
}

#[test]
fn steps_and_toggles_change_the_selected_items_only() {
    let mut e = session(vec![boxed(0), boxed(50)]);
    press(&mut e, (0, 0), Some(0));
    release(&mut e, (0, 0));
    let by_one = |a: (f32, bool, (i64, i64))| step(a.0, a.1, a.2);
    e.step_field(Field::Line, true, &typing(), &by_one);
    assert!(matches!(e.annotations[0], Annotation::Rect { thick: 3, .. }));
    e.toggle_fill(&typing());
    assert!(matches!(
        e.annotations[0],
        Annotation::Rect { filled: true, .. }
    ));
    assert_eq!(look(&e.annotations[1]), look(&boxed(50)));
    e.restyle(Restyle::Color(9));
    assert_eq!(e.active_style(&same).color, PropVal::Uniform(9));
    assert_eq!(e.shown().thick, 3);
    e.step_field(Field::Size, false, &typing(), &by_one);
    assert_eq!(e.style.size, 23.0);
    e.toggle_blur(&typing());
    assert!(e.style.blur);
}

#[test]
fn the_picker_sets_the_color() {
    let mut e = session(vec![boxed(0)]);
    press(&mut e, (0, 0), Some(0));
    release(&mut e, (0, 0));
    let to_hsv = |c: u32| (c as f32, 0.0, 0.0);
    e.toggle_picker(&typing(), &to_hsv);
    assert_eq!(e.picker, Some((1.0, 0.0, 0.0)));
    e.picker_drag = Some(PickerPart::Hue);
    let pick = |hsv: (f32, f32, f32), _p: PickerPart| ((hsv.0, 0.5, 0.5), 77);
    e.apply_picker(&pick);
    assert_eq!(e.picker, Some((1.0, 0.5, 0.5)));
    assert!(matches!(e.annotations[0], Annotation::Rect { color: 77, .. }));
    // A press outside closes it before anything else.
    let calc = Calc {
        typing: typing(),
        whole,
        step: |a: (f32, bool, (i64, i64))| step(a.0, a.1, a.2),
        to_hsv,
        pick,
    };
    e.picker_drag = None;
    e.on_press(&no_labels(), 1000, 500, 500, &calc);
    assert_eq!(e.picker, None);
}

#[test]
fn a_press_goes_to_the_bar_or_to_the_canvas() {
    let calc = Calc {
        typing: typing(),
        whole,
        step: |a: (f32, bool, (i64, i64))| step(a.0, a.1, a.2),
        to_hsv: |c: u32| (c as f32, 0.0, 0.0),
        pick: |hsv: (f32, f32, f32), _p: PickerPart| (hsv, 0),
    };
    let mut e = session(vec![]);
    assert_eq!(
        e.on_press(&no_labels(), 1000, 500, 500, &calc),
        Press::Canvas
    );
    let (btn, r) = tool_buttons()[4];
    assert_eq!(btn, EditorBtn::Tool(Tool::Rect));
    assert_eq!(
        e.on_press(&no_labels(), 1000, r.x0 + 1, r.y0 + 1, &calc),
        Press::Done
    );
    assert_eq!(e.pressed, Some(btn));
    e.on_release(
        1000,
        r.x0 + 1,
        r.y0 + 1,
        (0, 0),
        &frames(),
        &merge,
        &ink,
        &lift,
    );
    assert_eq!(e.tool, Tool::Rect);
    // Released elsewhere it does nothing.
    let (_, r) = tool_buttons()[1];
    e.on_press(&no_labels(), 1000, r.x0 + 1, r.y0 + 1, &calc);
    release(&mut e, (0, 0));
    assert_eq!(e.tool, Tool::Rect);
    assert_eq!(e.pressed, None);
}

// ---- What is shown ----

#[test]
fn the_scene_shows_tools_fields_and_marks() {
    let mut e = session(vec![boxed(0), arrow(100)]);
    press(&mut e, (0, 0), Some(0));
    release(&mut e, (0, 0));
    assert_eq!(e.marks(), Marks::Item(0));
    assert_eq!(e.active_field(), Some(Field::Line));
    assert!(e.active_fill_checkbox());
    let scene = e.draw(
        (1000, 800),
        (0, 0),
        false,
        &no_labels(),
        &frames(),
        &same,
        &lift,
        &whole,
    );
    assert_eq!(scene.buttons.len(), 13);
    assert_eq!(scene.props.len(), 5);
    assert!(matches!(
        scene.props[0].1,
        PropLook::Swatch {
            color: Some(1),
            open: false
        }
    ));
    assert_eq!(scene.top_bar.y1, TOOLBAR_H);
    assert!(scene.guide.is_none());
    assert_eq!(
        e.prop_at(&no_labels(), scene.props[0].0.x0, scene.props[0].0.y0),
        Some(PropCtrl::Color)
    );
}

#[test]
fn the_pointer_shows_what_a_press_does() {
    let mut e = session(vec![boxed(0)]);
    assert_eq!(
        e.update_cursor(500, 500, (0, 0), 6, &under(Some(0))),
        CursorShape::Move
    );
    assert_eq!(
        e.update_cursor(10, 10, (0, 0), 6, &under(Some(0))),
        CursorShape::Default
    );
    e.activate(EditorBtn::Tool(Tool::Rect), &merge);
    assert_eq!(
        e.update_cursor(500, 500, (0, 0), 6, &under(None)),
        CursorShape::Crosshair
    );
}

#[test]
fn events_lead_to_turns() {
    let mut e = session(vec![]);
    assert_eq!(e.handle_event(EditorEvent::Close, false), Turn::Close);
    assert_eq!(
        e.handle_event(EditorEvent::Key { down: true }, false),
        Turn::Key
    );
    assert_eq!(
        e.handle_event(EditorEvent::Key { down: false }, false),
        Turn::Nothing
    );
    assert_eq!(
        e.handle_event(EditorEvent::MiddleButton { down: true }, false),
        Turn::PanStart
    );
    assert_eq!(e.handle_event(EditorEvent::Moved, true), Turn::Pan);
    assert_eq!(e.handle_event(EditorEvent::Moved, false), Turn::Hover);
    assert_eq!(
        e.handle_event(EditorEvent::Wheel { turned: false }, false),
        Turn::Nothing
    );
    let m = EditorEvent::Modifiers {
        ctrl: true,
        shift: false,
        alt: false,
    };
    e.handle_event(m, false);
    assert!(e.ctrl);
}

// ---- Opening ----

#[test]
fn a_session_opens_on_what_it_is_given() {
    let shot = Shot {
        width: 2,
        height: 1,
        rgba: vec![1, 2, 3, 255, 4, 5, 6, 0],
    };
    assert!(is_whole(&shot));
    let (size, items) = initial_items::<f64, f32, _>(EditorInit::Shot(shot), 0.0, &lift);
    assert_eq!(size, Some((2, 1)));
    match &items[0] {
        Annotation::Image { r, pixels, .. } => {
            assert_eq!(*r, (0.0, 0.0, 2.0, 1.0));
            assert_eq!(**pixels, vec![0xFF01_0203, 0x0004_0506]);
        }
        _ => panic!("an Image was expected"),
    }
    let (size, items) = initial_items::<f64, f32, _>(EditorInit::Blank, 0.0, &lift);
    assert_eq!(size, None);
    assert!(items.is_empty());
    assert!(!is_whole(&Shot {
        width: 2,
        height: 2,
        rgba: vec![0; 4]
    }));
}

#[test]
fn what_cannot_be_opened_is_told() {
    assert!(matches!(
        opening::<f64, f32>(Opened::Nothing),
        Opening::Start {
            init: EditorInit::Blank,
            delete_file: false
        }
    ));
    let bad: Opened<f64, f32> = Opened::Session(Err("broken".to_string()));
    assert!(matches!(opening(bad), Opening::Fail { error, .. } if error == "broken"));
    assert_eq!(session_is_loadable(Ok(5)), Ok(()));
    assert_eq!(
        session_is_loadable::<i32>(Err("broken".to_string())),
        Err("broken".to_string())
    );
}

#[test]
fn the_window_holds_the_picture() {
    let fit = |a: ((usize, usize), (usize, usize))| (a.0 .0.min(a.1 .0), a.0 .1.min(a.1 .1));
    let plan = window_plan(Some((600, 400)), (1920, 1080), &fit);
    assert_eq!(plan.disp, (600, 400));
    assert!(plan.win.0 >= plan.offset.0 + 600 && plan.win.1 >= plan.offset.1 + 400);
    let blank = window_plan(None, (1920, 1080), &fit);
    assert_eq!(blank.disp, (800, 500));
    assert!(on_canvas(56, 46) && !on_canvas(55, 46) && !on_canvas(56, 45));
    assert_eq!(drop_center(100, 100, (7, 8), (1, 2)), (7, 8));
    assert_eq!(drop_center(0, 0, (7, 8), (1, 2)), (1, 2));
    assert_eq!(session_size(0, (0, 0, 10, 10)), None);
    assert_eq!(session_size(2, (5, 6, 15, 26)), Some((10, 20)));
}

#[test]
fn the_export_holds_every_item_or_the_guide() {
    let o = Outline {
        corners: [(0, 0), (10, 0), (10, 10), (0, 10)],
        oval: (0, 0, 0, 0),
        radius: 0,
        reach: 0,
        barbs: None,
    };
    let items = vec![boxed(0), arrow(100)];
    assert_eq!(export_bounds(&items, &vec![o, o]), (-1, -1, 111, 11));
    let with_guide = vec![boxed(0), Annotation::Guide { r: (9, 9, 3, 4) }];
    assert_eq!(export_bounds(&with_guide, &vec![o, o]), (3, 4, 9, 9));
    assert_eq!(export_size((-1, -1, 111, 11)), (112, 12));
    assert_eq!(export_size((0, 0, 0, 99_999)), (1, 20_000));
}

// ---- Small parts ----

#[test]
fn rectangles_and_handles_agree() {
    assert_eq!(rect_norm((5, 6, 1, 2)), (1, 2, 5, 6));
    assert_eq!(rect_norm(rect_norm((5, 6, 1, 2))), (1, 2, 5, 6));
    let r = (10, 20, 30, 40);
    assert_eq!(resize_rect(r, Handle::TopLeft, (10, 20)), r);
    assert_eq!(resize_rect(r, Handle::Bottom, (99, 40)), r);
    assert_eq!(hit_rect_handle((5, 5, 5, 5), (5, 5), 0), Some(Handle::TopLeft));
}

#[test]
fn moves_add_up_and_go_back() {
    let line = Annotation::Polyline {
        points: vec![(1, 2), (3, 4)],
        color: 0,
        thick: 1,
    };
    for a in [arrow(3), boxed(4), line] {
        assert!(can_translate(&a, 5, -7));
        let there = translate_annotation(&a, 5, -7, &shift);
        let back = translate_annotation(&there, -5, 7, &shift);
        assert_eq!(look(&back), look(&a));
        let twice = translate_annotation(&there, 1, 1, &shift);
        assert_eq!(look(&twice), look(&translate_annotation(&a, 6, -6, &shift)));
    }
    assert!(!can_translate(&arrow(0), i64::MAX, 0));
    // Display rectangles are exact as far as whole coordinates go.
    let far = (1i64 << 50) - 1;
    let wide: Ann = Annotation::Mosaic {
        r: (-far as f64, 0.0, far as f64, 7.0),
        rot: 0.3,
        block: 12.0,
        mode: MosaicMode::Blur,
        seed: 1,
    };
    let there = translate_annotation(&wide, far, -far, &shift);
    assert!(matches!(there, Annotation::Mosaic { r, .. }
        if r == (0.0, -far as f64, 2.0 * far as f64, (7 - far) as f64)));
    let back = translate_annotation(&there, -far, far, &shift);
    assert_eq!(look(&back), look(&wide));
    let twice = translate_annotation(&there, -far, far - 5, &shift);
    assert_eq!(look(&twice), look(&translate_annotation(&wide, 0, -5, &shift)));
}

#[test]
fn stepping_back_reverts_stepping_to_the_front() {
    let mut items: Vec<i32> = (0..6).collect();
    let front = reorder_selection(&mut items, &[1, 2, 4], true);
    assert_eq!(items, vec![0, 3, 1, 2, 5, 4]);
    assert_eq!(front, vec![2, 3, 5]);
    let back = reorder_selection(&mut items, &front, false);
    assert_eq!(items, vec![0, 1, 2, 3, 4, 5]);
    assert_eq!(back, vec![1, 2, 4]);
}

#[test]
fn index_lists_are_kept_in_order() {
    let mut v = vec![1, 5];
    insert_index(&mut v, 3);
    insert_index(&mut v, 3);
    assert_eq!(v, vec![1, 3, 5]);
    assert!(has_index(&v, 3) && !has_index(&v, 4));
    assert_eq!(sorted_set(&[5, 1, 5, 3]), vec![1, 3, 5]);
    assert_eq!(members_below(&[7, 2, 0], 3), vec![0, 2]);
    let mut items = vec!['a', 'b', 'c', 'd'];
    remove_chosen(&mut items, &[0, 2, 9]);
    assert_eq!(items, vec!['b', 'd']);
}

#[test]
fn guides_are_painted_last_and_not_exported() {
    let items = vec![Annotation::Guide { r: (0, 0, 5, 5) }, arrow(0), boxed(1)];
    assert_eq!(
        paint_annotations(&items, Some(false)),
        vec![
            Layer::Item(1),
            Layer::Item(2),
            Layer::Preview,
            Layer::Item(0)
        ]
    );
    let s = OnScreen {
        points: vec![(0, 0), (5, 5)],
        barbs: None,
        th: 3,
        canvas: (40, 40),
        text: true,
    };
    assert_eq!(paint_one(&items[0], &s, false).len(), 8);
    assert!(paint_one(&items[0], &s, true).is_empty());
    assert!(matches!(
        paint_selection(&items[2]),
        Chrome::Frame { resize: true }
    ));
    assert!(matches!(paint_selection(&items[1]), Chrome::Handles(v) if v.len() == 2));
}

#[test]
fn colors_and_seeds_have_fixed_values() {
    assert_eq!(pack(0x12, 0x34, 0x56), 0x0012_3456);
    assert_eq!(dim_color(0x00FF_FFFF), 0x008C_8C8C);
    assert_eq!(lighten(0x0000_F0FF), 0x0028_FFFF);
    assert_eq!(mosaic_hash(0, 0, 0, 0), 0);
    assert_eq!(mosaic_hash(1, 2, 3, 4), 0xA90A_39FD_EA6A_C918);
    assert_eq!(mix_seed(5, 0, 3), 6);
    assert_eq!(mix_seed(0, 1, 0), 0x9E37_79B1);
    assert_eq!(
        rgba_to_packed_alpha(1, 1, &[0x11, 0x22, 0x33, 0x44]),
        vec![0x4411_2233]
    );
}

#[test]
fn numbers_are_spelled_and_read_back() {
    for n in [0, 7, 10, 9999, -25, i64::MAX, i64::MIN] {
        assert_eq!(decimal(n), n.to_string());
    }
    assert_eq!(parse_dim(&decimal(57), 4.0, THICK_RANGE, &numbers()), 57.0);
    assert_eq!(typed_number(" 12 ", NUMBER_RANGE), Some(12));
    assert_eq!(typed_number("99999999999999999999", NUMBER_RANGE), Some(9999));
    assert_eq!(typed_number("1x", NUMBER_RANGE), None);
    assert!(only_digits("019") && !only_digits("1.") && !only_digits("a"));
}

#[test]
fn keys_are_spelled_with_their_modifiers() {
    assert_eq!(parse("Ctrl+Shift+Z"), Some(LocalKey::new(true, true, false, 'z')));
    assert_eq!(parse("Alt+0"), Some(LocalKey::new(false, false, true, '0')));
    assert_eq!(parse("Ctrl+"), None);
    assert_eq!(parse(""), None);
    assert_eq!(parse("xy"), None);
    let keys = EditorKeys::from_config(&HotkeyConfig::default());
    assert_eq!(
        keys.lookup(LocalKey::new(true, false, false, 'Z')),
        Some(EditorAction::Undo)
    );
    assert_eq!(keys.lookup(LocalKey::new(true, true, true, 'z')), None);
}

#[test]
fn pasting_saving_and_copying_have_fixed_keys() {
    let fixed = |ch: char| LocalKey::new(true, false, false, ch);
    let mut keys = EditorKeys::from_config(&HotkeyConfig::default());
    keys.undo = vec![fixed('v'), fixed('s'), fixed('c'), fixed('x')];
    assert_eq!(keys.lookup(fixed('v')), Some(EditorAction::Paste));
    assert_eq!(keys.lookup(fixed('s')), Some(EditorAction::Save));
    assert_eq!(keys.lookup(fixed('c')), Some(EditorAction::Copy));
    assert_eq!(keys.lookup(fixed('x')), Some(EditorAction::Undo));
}

#[test]
fn an_undo_after_a_redo_is_the_same_state() {
    let mut h: UndoStack<i32> = UndoStack::new();
    h.push(1);
    h.push(2);
    assert_eq!(h.undo(3), Some(2));
    assert_eq!(h.redo(2), Some(3));
    assert_eq!(h.undo(3), Some(2));
    assert!(h.can_undo() && h.can_redo());
}

#[test]
fn bars_and_picker_lie_where_they_belong() {
    let (props, buttons) = top_layout(900, Some(Field::Block), false, Some(30), Some(60));
    for w in props.windows(2) {
        assert!(w[0].1.x1 <= w[1].1.x0);
    }
    for (b, r) in &buttons {
        assert_eq!(button_at(900, r.x0, r.y0), Some(*b));
    }
    let (popup, sv, hue) = picker_geom(None);
    for part in [sv, hue] {
        assert!(popup.x0 <= part.x0 && part.x1 <= popup.x1);
        assert!(popup.y0 <= part.y0 && part.y1 <= popup.y1);
    }
    assert!(popup.y0 >= TOOLBAR_H);
}

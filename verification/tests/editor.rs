//! The editor's bars, keys, fields and history.

use pashari::fields::{
    parse_dim, should_sample_freehand_point, Numbers, FREEHAND_MIN_STEP, SIZE_RANGE, THICK_RANGE,
};
use pashari::history::UndoStack;
use pashari::keys::{EditorKeys, HotkeyConfig, LocalKey};
use pashari::toolbar::{
    tool_buttons, top_layout, EditorBtn, Field, PropCtrl, TOOLBAR_H, TOOLBAR_W,
};

#[test]
fn undo_stack_steps_back_and_forward_through_history() {
    let mut h: UndoStack<i32> = UndoStack::new();
    // Two changes, 0 -> 1 -> 2, pushed in the same order as an actual
    // call site: "push the pre-change value, then update it."
    h.push(0);
    let mut current = 1;
    h.push(current);
    current = 2;

    current = h.undo(current).unwrap();
    assert_eq!(current, 1);
    current = h.undo(current).unwrap();
    assert_eq!(current, 0);
    // None once the history is exhausted.
    assert!(h.undo(current).is_none());

    current = h.redo(current).unwrap();
    assert_eq!(current, 1);
    current = h.redo(current).unwrap();
    assert_eq!(current, 2);
    // None once the history is exhausted.
    assert!(h.redo(current).is_none());
}

#[test]
fn undo_stack_push_discards_redo_history() {
    let mut h: UndoStack<i32> = UndoStack::new();
    h.push(0);
    let current = h.undo(1).unwrap();
    assert_eq!(current, 0);

    // A new change discards the redo history that had been stashed by undo.
    h.push(current);
    assert!(h.redo(current).is_none());
}

#[test]
fn tool_buttons_are_in_left_bar_and_stacked() {
    let v = tool_buttons();
    // Select / Arrow / Polyline / Freehand / Rect / Ellipse / Mosaic / Text / NumberMarker / Guide
    assert_eq!(v.len(), 10);
    for (b, r) in &v {
        assert!(matches!(b, EditorBtn::Tool(_)));
        assert!(r.y0 >= TOOLBAR_H && r.x1 <= TOOLBAR_W, "inside the left bar");
        assert_eq!(r.width(), r.height(), "square");
    }
    for w in v.windows(2) {
        assert!(w[1].1.y0 >= w[0].1.y1, "no overlap");
    }
}

#[test]
fn should_sample_freehand_point_uses_min_step_threshold() {
    // Below the threshold is thinned out.
    assert!(!should_sample_freehand_point((0, 0), (1, 1)));
    // Exactly at the threshold (the boundary) is accepted.
    let edge = FREEHAND_MIN_STEP;
    assert!(should_sample_freehand_point((0, 0), (edge, 0)));
    // Well past the threshold is accepted.
    assert!(should_sample_freehand_point((0, 0), (100, 100)));
}

#[test]
fn editor_keys_from_config_maps_default_tool_shortcuts() {
    let keys = EditorKeys::from_config(&HotkeyConfig::default());
    let plain = |ch: char| LocalKey::new(false, false, false, ch);
    assert_eq!(keys.tool_select, vec![plain('v')]);
    assert_eq!(keys.tool_arrow, vec![plain('a')]);
    assert_eq!(keys.tool_polyline, vec![plain('l')]);
    assert_eq!(keys.tool_draw, vec![plain('d')]);
    assert_eq!(keys.tool_rect, vec![plain('r')]);
    assert_eq!(keys.tool_ellipse, vec![plain('c')]);
    assert_eq!(keys.tool_text, vec![plain('t')]);
    assert_eq!(keys.tool_number_marker, vec![plain('n')]);
    assert_eq!(
        keys.reset_zoom,
        vec![LocalKey::new(true, false, false, '0')]
    );
}

#[test]
fn top_layout_props_left_buttons_right() {
    let sw = 900;
    let (props, buttons) = top_layout(sw, Some(Field::Line), false, None, None);
    // Color plus (-/numeric/+) = 4.
    assert_eq!(props.len(), 4);
    assert_eq!(buttons.len(), 3); // Pin / Save / Copy
    // With no selection (None), the only property is Color.
    assert_eq!(top_layout(sw, None, false, None, None).0.len(), 1);
    // Everything is within the top bar (y < TOOLBAR_H).
    for (_, r) in &props {
        assert!(r.y1 <= TOOLBAR_H);
    }
    for (_, r) in &buttons {
        assert!(r.y1 <= TOOLBAR_H);
    }
    // Properties on the left (small x), buttons on the right (large x), never overlapping.
    let props_right = props.iter().map(|(_, r)| r.x1).max().unwrap();
    let btns_left = buttons.iter().map(|(_, r)| r.x0).min().unwrap();
    assert!(props_right < btns_left, "left and right overlap");
    // The right buttons follow sw (a wider window pushes them further right).
    let (_, b2) = top_layout(1400, Some(Field::Line), false, None, None);
    let right_now = buttons.iter().map(|(_, r)| r.x1).max().unwrap();
    let right_wide = b2.iter().map(|(_, r)| r.x1).max().unwrap();
    assert!(right_wide > right_now);
}

#[test]
fn top_layout_adds_fill_control_only_when_requested() {
    let sw = 900;
    // Not Rect/Ellipse (has a Width field but no Fill).
    let (props_no_fill, _) = top_layout(sw, Some(Field::Line), false, None, None);
    assert!(!props_no_fill.iter().any(|(pc, _)| *pc == PropCtrl::Fill));

    // For Rect/Ellipse: Fill is added, one item, right of the Width group.
    let (props_fill, _) = top_layout(sw, Some(Field::Line), true, None, None);
    assert_eq!(props_fill.len(), 5);
    let fill_rect = props_fill
        .iter()
        .find(|(pc, _)| *pc == PropCtrl::Fill)
        .map(|(_, r)| *r)
        .expect("there is a Fill control");
    let width_field_right = props_fill
        .iter()
        .find(|(pc, _)| matches!(pc, PropCtrl::Field(Field::Line)))
        .map(|(_, r)| r.x1)
        .unwrap();
    assert!(fill_rect.x0 >= width_field_right, "Fill is right of the Width group");
    assert!(fill_rect.y1 <= TOOLBAR_H);
}

#[test]
fn parse_dim_clamps_and_keeps_current() {
    let nums = Numbers {
        lift: |v: i64| v as f64,
        read: |s: &str| s.parse::<f64>().ok(),
        less: |a: f64, b: f64| a < b,
    };
    assert_eq!(parse_dim("8", 4.0, THICK_RANGE, &nums), 8.0);
    assert_eq!(parse_dim("999", 4.0, THICK_RANGE, &nums), THICK_RANGE.1 as f64); // the upper bound
    assert_eq!(parse_dim("0", 4.0, THICK_RANGE, &nums), THICK_RANGE.0 as f64); // the lower bound
    assert_eq!(parse_dim("", 4.0, THICK_RANGE, &nums), 4.0); // empty keeps the value
    assert_eq!(parse_dim("abc", 5.0, SIZE_RANGE, &nums), 5.0); // malformed keeps the value
    // Numbers that are not whole.
    assert_eq!(parse_dim(" 8.5 ", 4.0, THICK_RANGE, &nums), 8.5);
    assert_eq!(parse_dim("1e3", 4.0, THICK_RANGE, &nums), 200.0);
    assert_eq!(parse_dim(".5", 4.0, THICK_RANGE, &nums), 1.0);
}

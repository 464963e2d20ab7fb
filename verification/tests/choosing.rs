//! The overlay event by event: dragging, adjusting, the menu, the magnifier
//! and recording.

use pashari::annotation::Handle;
use pashari::backdrop::{
    axis_map, bright_col_range, compose_zoomed_row, draw_border, draw_selection_crosshair,
    paint_plain, rows_per_part, screen_rect, ZoomRowCtx, ACCENT, NO_SOURCE,
};
use pashari::canvas::CursorShape;
use pashari::files::default_name;
use pashari::keys::{HotkeyConfig, RegionKeys};
use pashari::menu::{Action, MenuButton, MenuScale};
use pashari::monitors::{containing_monitor_index, is_composable, CaptureError, Frozen};
use pashari::overlay::{
    even_region, is_openable, Adjust, CtrlBtn, Mode, Outcome, Overlay, RecordPrefs, Spot, Warp,
};
use pashari::pixels::Shot;
use pashari::recording::{
    border_strips, control_place, elapsed_text, level_meter, ControlEvent, ControlJob, Strip,
};
use pashari::rect::Rect;
use pashari::region::{dragged_rect, nearest_pixel, resize_rect, Reach};
use pashari::selecting::{KeyName, OverlayEvent, ZoomStep};

fn rect(x0: usize, y0: usize, x1: usize, y1: usize) -> Rect {
    Rect { x0, y0, x1, y1 }
}

fn frozen(w: usize, h: usize) -> Frozen {
    Frozen {
        width: w,
        height: h,
        bright: (0..w * h).map(|i| i as u32).collect(),
        dim: vec![0; w * h],
        origin: (-100, 50),
        monitors: vec![rect(0, 0, w / 2, h), rect(w / 2, 0, w, h)],
        scales: vec![MenuScale::plain(), MenuScale::plain()],
    }
}

fn overlay() -> Overlay {
    overlay_with(MenuButton::all())
}

fn overlay_with(order: Vec<MenuButton>) -> Overlay {
    let f = frozen(800, 600);
    assert!(is_openable(&f, &order));
    let keys = RegionKeys::from_config(&HotkeyConfig::default());
    let prefs = RecordPrefs {
        gif: false,
        fps: 30,
        desktop_audio: true,
        mic: false,
    };
    let mut ov = Overlay::new(f, keys, order, vec![15, 30, 60], prefs);
    ov.window_event(OverlayEvent::Resized(800, 600), &at(0, 0));
    ov.take_chores();
    ov
}

/// The pointer over a pixel of the picture, where nothing is magnified.
fn at(x: i64, y: i64) -> Spot {
    Spot {
        pixel: (x, y),
        cell: (x, y),
        reach: Reach::around((x, y), 8),
        plain_reach: Reach::around((x, y), 8),
        window: (x.max(0) as usize, y.max(0) as usize),
        moved: (0, 0),
        still: false,
    }
}

fn key(ov: &mut Overlay, ch: char) {
    let e = OverlayEvent::Key {
        key: KeyName::Char(ch),
        down: true,
        synthetic: false,
    };
    ov.window_event(e, &at(0, 0));
}

fn drag(ov: &mut Overlay, a: (i64, i64), b: (i64, i64)) {
    ov.window_event(OverlayEvent::Press, &at(a.0, a.1));
    ov.window_event(OverlayEvent::Moved { snap: None }, &at(b.0, b.1));
    ov.window_event(OverlayEvent::Release, &at(b.0, b.1));
}

#[test]
fn a_drag_selects_and_one_undo_brings_back_what_was_selected() {
    let mut ov = overlay();
    drag(&mut ov, (10, 20), (109, 89));
    assert_eq!(ov.scene.selection, Some(rect(10, 20, 110, 90)));
    assert!(ov.menu.is_some());
    // Backwards, and past the edge.
    drag(&mut ov, (700, 500), (900, -5));
    assert_eq!(ov.scene.selection, Some(rect(700, 0, 800, 501)));
    key(&mut ov, 'z');
    assert_eq!(ov.scene.selection, Some(rect(700, 0, 800, 501)));
    let ctrl = OverlayEvent::Modifiers {
        ctrl: true,
        shift: false,
        alt: false,
    };
    ov.window_event(ctrl, &at(0, 0));
    key(&mut ov, 'z');
    assert_eq!(ov.scene.selection, Some(rect(10, 20, 110, 90)));
    key(&mut ov, 'Z');
    assert_eq!(ov.scene.selection, None);
    assert!(ov.menu.is_none());
    let both = OverlayEvent::Modifiers {
        ctrl: true,
        shift: true,
        alt: false,
    };
    ov.window_event(both, &at(0, 0));
    key(&mut ov, 'Z');
    assert_eq!(ov.scene.selection, Some(rect(10, 20, 110, 90)));
}

#[test]
fn a_click_selects_the_window_under_the_pointer() {
    let mut ov = overlay();
    let window = rect(30, 40, 300, 200);
    ov.window_event(
        OverlayEvent::Moved {
            snap: Some(window),
        },
        &at(100, 100),
    );
    let mut spot = at(100, 100);
    spot.still = true;
    assert_eq!(ov.draw(&spot).rect, Some(window));
    assert!(ov.draw(&spot).crosshair);
    ov.window_event(OverlayEvent::Press, &spot);
    ov.window_event(OverlayEvent::Release, &spot);
    assert_eq!(ov.scene.selection, Some(window));
    assert!(!ov.draw(&spot).crosshair);
}

#[test]
fn a_selection_is_moved_and_resized_by_its_inside_and_its_edges() {
    let mut ov = overlay();
    drag(&mut ov, (100, 100), (199, 199));
    // Inside: moves with its size.
    ov.window_event(OverlayEvent::Press, &at(150, 150));
    assert_eq!(
        ov.scene.adjust,
        Adjust::Moving {
            orig: rect(100, 100, 200, 200)
        }
    );
    let mut spot = at(160, 130);
    spot.moved = (10, -20);
    ov.window_event(OverlayEvent::Moved { snap: None }, &spot);
    assert_eq!(ov.scene.selection, Some(rect(110, 80, 210, 180)));
    ov.window_event(OverlayEvent::Release, &spot);
    assert_eq!(ov.scene.adjust, Adjust::Idle);
    // On the right edge: resizes.
    ov.window_event(OverlayEvent::Press, &at(210, 130));
    assert_eq!(ov.scene.adjust, Adjust::Resizing(Handle::Right));
    ov.window_event(OverlayEvent::Moved { snap: None }, &at(300, 130));
    ov.window_event(OverlayEvent::Release, &at(300, 130));
    assert_eq!(ov.scene.selection, Some(rect(110, 80, 301, 180)));
    // Each adjustment is one change.
    ov.undo();
    assert_eq!(ov.scene.selection, Some(rect(110, 80, 210, 180)));
    ov.undo();
    assert_eq!(ov.scene.selection, Some(rect(100, 100, 200, 200)));
}

#[test]
fn the_pointer_shows_what_a_press_would_grab() {
    let mut ov = overlay();
    drag(&mut ov, (100, 100), (199, 199));
    ov.take_chores();
    ov.update_adjust_cursor(&at(150, 150));
    assert_eq!(ov.take_chores().cursor, Some(CursorShape::Move));
    ov.update_adjust_cursor(&at(100, 100));
    assert_eq!(ov.take_chores().cursor, Some(CursorShape::NwseResize));
    ov.update_adjust_cursor(&at(400, 400));
    assert_eq!(ov.take_chores().cursor, Some(CursorShape::Default));
}

#[test]
fn gestures_are_not_undone() {
    let mut ov = overlay();
    drag(&mut ov, (10, 10), (50, 50));
    ov.window_event(OverlayEvent::Press, &at(400, 400));
    assert!(ov.is_busy());
    ov.undo();
    assert_eq!(ov.scene.selection, None);
    assert!(ov.scene.dragging);
}

#[test]
fn digits_select_monitors() {
    let mut ov = overlay();
    key(&mut ov, '2');
    assert_eq!(ov.scene.selection, Some(rect(400, 0, 800, 600)));
    key(&mut ov, '0');
    assert_eq!(ov.scene.selection, Some(rect(0, 0, 800, 600)));
    key(&mut ov, '3');
    assert_eq!(ov.scene.selection, Some(rect(0, 0, 800, 600)));
    key(&mut ov, 'x');
    assert_eq!(ov.scene.selection, None);
}

#[test]
fn synthetic_keys_and_releases_do_nothing() {
    let mut ov = overlay();
    for (down, synthetic) in [(true, true), (false, false), (false, true)] {
        let e = OverlayEvent::Key {
            key: KeyName::Escape,
            down,
            synthetic,
        };
        ov.window_event(e, &at(0, 0));
        assert!(!ov.scene.finished);
    }
    let e = OverlayEvent::Key {
        key: KeyName::Escape,
        down: true,
        synthetic: false,
    };
    ov.window_event(e, &at(0, 0));
    assert!(ov.scene.finished);
    assert!(ov.take_outcome().is_none());
    assert_eq!(ov.take_chores().visible, Some(true));
}

#[test]
fn a_capture_hands_on_the_selected_pixels() {
    let mut ov = overlay();
    drag(&mut ov, (1, 2), (2, 2));
    key(&mut ov, 'c');
    assert!(ov.scene.finished);
    match ov.take_outcome() {
        Some(Outcome::Captured { action, shot }) => {
            assert_eq!(action, Action::Copy);
            assert_eq!((shot.width, shot.height), (2, 1));
            // The picture's pixels count up by one from 2 * 800 + 1.
            assert_eq!(shot.rgba, vec![0, 6, 0x41, 255, 0, 6, 0x42, 255]);
        }
        other => panic!("a capture was expected: {other:?}"),
    }
    assert_eq!(ov.scene.last_region, Some(rect(1, 2, 3, 3)));
}

#[test]
fn a_used_region_is_selected_again() {
    let mut ov = overlay();
    ov.scene.last_region = Some(rect(5, 6, 70, 80));
    key(&mut ov, 'r');
    assert_eq!(ov.scene.selection, Some(rect(5, 6, 70, 80)));
    // As far as the picture goes.
    ov.scene.last_region = Some(rect(5, 6, 7000, 8000));
    ov.use_previous_region();
    assert_eq!(ov.scene.selection, Some(rect(5, 6, 800, 600)));
    ov.undo();
    assert_eq!(ov.scene.selection, Some(rect(5, 6, 70, 80)));
}

#[test]
fn a_disabled_button_absorbs_the_click() {
    let mut ov = overlay();
    drag(&mut ov, (100, 100), (199, 199));
    let place = |ov: &Overlay, action: Action| {
        let m = ov.menu.as_ref().unwrap();
        let b = m.buttons.iter().find(|b| b.action == action).unwrap();
        ((b.rect.x0 + 1) as i64, (b.rect.y0 + 1) as i64)
    };
    let (x, y) = place(&ov, Action::Upload);
    ov.window_event(OverlayEvent::Press, &at(x, y));
    ov.window_event(OverlayEvent::Release, &at(x, y));
    assert!(!ov.scene.finished);
    assert!(!ov.scene.dragging);
    assert_eq!(ov.scene.selection, Some(rect(100, 100, 200, 200)));
    // A click elsewhere in between lets go of a pressed button.
    let (x, y) = place(&ov, Action::Save);
    ov.window_event(OverlayEvent::Press, &at(x, y));
    ov.window_event(OverlayEvent::Release, &at(0, 599));
    assert!(!ov.scene.finished);
    ov.window_event(OverlayEvent::Press, &at(x, y));
    ov.window_event(OverlayEvent::Release, &at(x, y));
    assert!(ov.scene.finished);
}

#[test]
fn the_wheel_magnifies_while_nothing_is_selected() {
    let mut ov = overlay();
    let above = OverlayEvent::Wheel(ZoomStep {
        changed: true,
        above: true,
    });
    let below = OverlayEvent::Wheel(ZoomStep {
        changed: true,
        above: false,
    });
    ov.window_event(above, &at(10, 10));
    assert!(ov.scene.zoomed && ov.scene.fine);
    let c = ov.take_chores();
    assert_eq!(c.warp, Warp::Center);
    assert_eq!(c.visible, Some(false));
    // Raw motion moves the pointer back to the middle.
    ov.device_event(&at(20, 20), None);
    assert_eq!(ov.take_chores().warp, Warp::Center);
    ov.window_event(below, &at(10, 10));
    assert!(!ov.scene.zoomed && !ov.scene.fine);
    assert_eq!(ov.take_chores().warp, Warp::Back);
    // Beside a selection that is not being adjusted it does nothing.
    drag(&mut ov, (10, 10), (100, 100));
    ov.window_event(above, &at(10, 10));
    assert!(!ov.scene.zoomed);
    assert!(ov.menu.is_some());
    ov.change_zoom(ZoomStep {
        changed: true,
        above: true,
    });
    assert!(ov.menu.is_none());
}

#[test]
fn a_recording_goes_from_setup_to_its_file() {
    let mut ov = overlay();
    drag(&mut ov, (10, 20), (110, 120));
    key(&mut ov, 'v');
    assert_eq!(ov.scene.mode, Mode::RecordSetup);
    assert!(ov.in_record_flow());
    assert!(ov.take_chores().setup);
    assert_eq!(ov.rec.region, Some(rect(10, 20, 110, 120)));
    let names: Vec<CtrlBtn> = ov.control_buttons().iter().map(|b| b.0).collect();
    assert_eq!(
        names,
        vec![
            CtrlBtn::Primary,
            CtrlBtn::Format,
            CtrlBtn::Fps,
            CtrlBtn::Desktop,
            CtrlBtn::Mic,
            CtrlBtn::Quit
        ]
    );
    ov.control_event(ControlEvent::Resized(420, 80));
    assert_eq!(ov.control_hit(12, 12), Some(CtrlBtn::Primary));
    assert_eq!(ov.control_hit(11, 12), None);
    // The frame rate.
    ov.control_event(ControlEvent::Moved(12 + 56 * 2, 40));
    assert_eq!(ov.control_event(ControlEvent::Release), ControlJob::Nothing);
    assert_eq!(ov.rec.fps, 60);
    assert!(ov.take_chores().save_prefs);
    // The microphone.
    ov.control_event(ControlEvent::Moved(12 + 56 * 4, 40));
    assert_eq!(ov.control_event(ControlEvent::Release), ControlJob::Mic(true));
    // Start.
    ov.control_event(ControlEvent::Moved(20, 40));
    assert_eq!(ov.control_event(ControlEvent::Release), ControlJob::Begin);
    let plan = ov.begin_recording().unwrap();
    assert_eq!((plan.x0, plan.y0, plan.x1, plan.y1), (-90, 70, 10, 170));
    assert!(plan.desktop_audio && plan.mic && !plan.gif);
    ov.recording_started("out.mp4".to_string());
    assert_eq!(ov.scene.mode, Mode::Recording);
    assert_eq!(ov.control_buttons().len(), 4);
    // Other events do nothing; closing stops and keeps the file.
    ov.window_event(OverlayEvent::Press, &at(1, 1));
    assert!(!ov.scene.dragging);
    ov.window_event(OverlayEvent::Close, &at(1, 1));
    assert!(ov.scene.finished);
    assert!(matches!(ov.take_outcome(), Some(Outcome::Recorded(p)) if p == "out.mp4"));
}

#[test]
fn a_gif_is_silent() {
    let mut ov = overlay();
    drag(&mut ov, (10, 20), (110, 120));
    ov.trigger(Action::Record);
    ov.control_event(ControlEvent::Resized(420, 80));
    ov.control_event(ControlEvent::Moved(12 + 56, 40));
    assert_eq!(ov.control_event(ControlEvent::Release), ControlJob::Relisten);
    assert!(ov.rec.gif);
    ov.control_event(ControlEvent::Moved(12 + 56 * 3, 40));
    assert_eq!(ov.control_event(ControlEvent::Release), ControlJob::Nothing);
    let plan = ov.begin_recording().unwrap();
    assert!(plan.gif && !plan.desktop_audio && !plan.mic);
}

#[test]
fn no_second_recording_and_none_of_a_sliver() {
    let mut ov = overlay();
    drag(&mut ov, (10, 20), (110, 120));
    ov.set_allow_record(false);
    ov.trigger(Action::Record);
    assert_eq!(ov.scene.mode, Mode::Selecting);
    let mut thin = overlay();
    drag(&mut thin, (10, 20), (10, 120));
    thin.trigger(Action::Record);
    assert_eq!(thin.scene.mode, Mode::Selecting);
    assert!(thin.scene.finished);
    // Setting up is canceled by closing.
    let mut setup = overlay();
    drag(&mut setup, (10, 20), (110, 120));
    setup.trigger(Action::Record);
    setup.window_event(OverlayEvent::Close, &at(0, 0));
    assert!(setup.scene.finished);
    assert!(setup.take_outcome().is_none());
}

#[test]
fn recorded_regions_are_even() {
    assert_eq!(even_region(rect(3, 4, 8, 10)), rect(3, 4, 7, 10));
    assert_eq!(even_region(rect(3, 4, 4, 4)), rect(3, 4, 3, 4));
}

#[test]
fn the_control_bar_stays_on_its_monitor() {
    let bounds = rect(0, 0, 800, 600);
    assert_eq!(control_place(rect(100, 100, 200, 200), bounds), (100, 212));
    assert_eq!(control_place(rect(700, 500, 800, 590), bounds), (380, 408));
    assert_eq!(control_place(rect(0, 0, 800, 600), bounds), (0, 520));
}

#[test]
fn the_border_surrounds_the_region() {
    let s = border_strips((-10, 5), rect(20, 30, 40, 60));
    assert_eq!(
        s,
        vec![
            Strip { x: 7, y: 32, w: 26, h: 3 },
            Strip { x: 7, y: 65, w: 26, h: 3 },
            Strip { x: 7, y: 35, w: 3, h: 30 },
            Strip { x: 30, y: 35, w: 3, h: 30 },
        ]
    );
}

#[test]
fn elapsed_time_has_two_digits_each() {
    assert_eq!(elapsed_text(0), "00:00");
    assert_eq!(elapsed_text(65), "01:05");
    assert_eq!(elapsed_text(3599), "59:59");
    assert_eq!(elapsed_text(6000), "100:00");
}

#[test]
fn the_level_meter_lights_from_below() {
    let r = rect(0, 0, 56, 56);
    let half = |h: usize| h / 2;
    let none = |_h: usize| 0;
    let (track, lit) = level_meter(r, &half).unwrap();
    let lit = lit.unwrap();
    assert_eq!(lit.y1, track.y1);
    assert_eq!(lit.y1 - lit.y0, (track.y1 - track.y0) / 2);
    assert_eq!(level_meter(r, &none).unwrap().1, None);
}

#[test]
fn a_file_is_named_after_the_time() {
    assert_eq!(default_name("20260102_030405"), "pashari_20260102_030405.png");
    let mut ov = overlay();
    assert!(ov.save_as().is_none());
    drag(&mut ov, (1, 2), (4, 5));
    let job = ov.save_as().unwrap();
    assert!(job.name.starts_with("pashari_"));
    assert!(job.name.ends_with(".png"));
    // A stamp of the local time stands between.
    let stamp = &job.name["pashari_".len()..job.name.len() - ".png".len()];
    let shape: String = stamp
        .chars()
        .map(|c| if c.is_ascii_digit() { '0' } else { c })
        .collect();
    assert_eq!(shape, "0000-00-00_00-00-00");
    let within = |at: usize, lo: u32, hi: u32| {
        let v: u32 = stamp[at..at + 2].parse().unwrap();
        lo <= v && v <= hi
    };
    assert!(within(5, 1, 12) && within(8, 1, 31));
    assert!(within(11, 0, 23) && within(14, 0, 59) && within(17, 0, 60));
    assert_eq!((job.shot.width, job.shot.height), (4, 4));
    ov.saved_as(None);
    assert!(!ov.scene.finished);
    ov.saved_as(Some("a.png".to_string()));
    assert!(ov.scene.finished);
    assert!(matches!(ov.take_outcome(), Some(Outcome::Saved(p)) if p == "a.png"));
}

#[test]
fn a_drag_holds_both_its_ends() {
    let img = (100, 50);
    assert_eq!(dragged_rect((10, 20), (5, 30), img), rect(5, 20, 11, 31));
    assert_eq!(dragged_rect((-3, -3), (500, 500), img), rect(0, 0, 100, 50));
    assert_eq!(nearest_pixel(-7, 10), 0);
    assert_eq!(nearest_pixel(99, 10), 9);
    assert_eq!(nearest_pixel(4, 10), 4);
    // A handle spares the edges that are not its own.
    let r = resize_rect(rect(10, 10, 20, 20), Handle::BottomLeft, (4, 30), img);
    assert_eq!((r.y0, r.x1), (10, 20));
}

#[test]
fn the_monitor_that_shows_most_is_chosen() {
    let monitors = [rect(0, 0, 100, 100), rect(100, 0, 200, 100)];
    assert_eq!(containing_monitor_index(&monitors, rect(90, 0, 130, 10)), Some(1));
    assert_eq!(containing_monitor_index(&monitors, rect(10, 0, 30, 10)), Some(0));
    assert_eq!(containing_monitor_index(&[], rect(10, 0, 30, 10)), None);
}

#[test]
fn monitors_are_composed_side_by_side() {
    let shot = |v: u8| Shot {
        width: 2,
        height: 1,
        rgba: vec![v, v, v, 255, v, v, v, 255],
    };
    let rects = [(-2, 0, 2u32, 1u32), (0, 0, 2, 1)];
    let scale = |f: f64| MenuScale {
        action_btn: (56.0 * f) as usize,
        margin: (10.0 * f) as usize,
    };
    let handles = [((0, 0), (2u32, 1u32), 1.5)];
    let f = Frozen::capture(
        &rects,
        &[Some(shot(10)), Some(shot(200))],
        &handles,
        1.0,
        &scale,
    )
    .unwrap();
    assert_eq!((f.width, f.height), (4, 1));
    assert_eq!(f.origin, (-2, 0));
    assert_eq!(f.bright, vec![0x0A0A0A, 0x0A0A0A, 0xC8C8C8, 0xC8C8C8]);
    assert_ne!(f.dim[2], f.bright[2]);
    assert_eq!(f.monitors, vec![rect(0, 0, 2, 1), rect(2, 0, 4, 1)]);
    assert_eq!(f.scales[0].action_btn, 56);
    assert_eq!(f.scales[1].action_btn, 84);
    // A monitor that cannot be captured stays black; none at all is an error.
    let dark = Frozen::capture(&rects, &[Some(shot(10)), None], &handles, 1.0, &scale).unwrap();
    assert_eq!(dark.bright[3], 0);
    let nothing = Frozen::capture(&[], &[], &handles, 1.0, &scale);
    assert!(matches!(nothing, Err(CaptureError::NoMonitor)));
}

#[test]
fn an_overlay_needs_a_whole_picture() {
    let order = MenuButton::all();
    let mut f = frozen(8, 6);
    assert!(is_openable(&f, &order));
    f.bright.pop();
    assert!(!is_openable(&f, &order));
    assert!(!is_openable(&frozen(0, 6), &order));
}

#[test]
fn the_picture_is_bright_inside_the_rectangle_only() {
    let bright = [1, 2, 3, 4];
    let dim = [11, 12, 13, 14];
    let mut buf = [9; 6];
    paint_plain(&mut buf, (2, 3), &bright, &dim, 2, Some(rect(1, 0, 2, 2)));
    assert_eq!(buf, [11, 2, 13, 4, 0, 0]);
}

#[test]
fn a_magnified_row_shows_its_sources() {
    let find = |s: usize| (s as i64 - 1).div_euclid(2);
    let cols = axis_map(6, 2, &find);
    assert_eq!(cols, vec![NO_SOURCE, 0, 0, 1, 1, NO_SOURCE]);
    let lit = bright_col_range(&cols, 1, 2);
    assert_eq!(lit, (3, 5));
    let bright = [1, 2, 3, 4];
    let dim = [11, 12, 13, 14];
    let ctx = ZoomRowCtx {
        cols: &cols,
        dim: &dim,
        bright: &bright,
        img: (2, 2),
        rect: Some(rect(1, 0, 2, 1)),
        lit,
    };
    let mut row = [9; 6];
    compose_zoomed_row(&mut row, 0, &ctx);
    assert_eq!(row, [0, 11, 11, 2, 2, 0]);
    compose_zoomed_row(&mut row, 1, &ctx);
    assert_eq!(row, [0, 13, 13, 14, 14, 0]);
    compose_zoomed_row(&mut row, NO_SOURCE, &ctx);
    assert_eq!(row, [0; 6]);
}

#[test]
fn rows_are_split_over_threads_when_there_are_many() {
    assert_eq!(rows_per_part((1000, 1000), 4), Some(250));
    assert_eq!(rows_per_part((1000, 1001), 4), Some(251));
    assert_eq!(rows_per_part((1000, 1000), 16), Some(125));
    assert_eq!(rows_per_part((1000, 1000), 1), None);
    assert_eq!(rows_per_part((10, 10), 8), None);
}

#[test]
fn rectangles_are_cut_to_the_window() {
    assert_eq!(screen_rect(-5, 2, 7, 90, (10, 20)), Some(rect(0, 2, 7, 20)));
    assert_eq!(screen_rect(10, 2, 30, 9, (10, 20)), None);
}

#[test]
fn the_frame_is_two_pixels_thick_and_inside() {
    let mut buf = vec![0u32; 100];
    draw_border(&mut buf, (10, 10), rect(1, 1, 9, 9));
    let lit = |x: usize, y: usize| buf[y * 10 + x] == ACCENT;
    assert!(lit(1, 1) && lit(2, 5) && lit(5, 2) && lit(8, 8) && lit(7, 4));
    assert!(!lit(0, 0) && !lit(3, 3) && !lit(9, 5) && !lit(5, 5));
}

#[test]
fn the_crosshair_spares_its_center() {
    let mut buf = vec![7u32; 40 * 40];
    draw_selection_crosshair(&mut buf, (40, 40), (20, 20));
    for d in 0..4 {
        assert_eq!(buf[20 * 40 + 20 + d], 7);
        assert_eq!(buf[(20 - d) * 40 + 20], 7);
    }
    assert_eq!(buf[20 * 40 + 24], ACCENT);
    assert_eq!(buf[24 * 40 + 20], ACCENT);
    assert_eq!(buf[25 * 40 + 25], 7);
}

#[test]
fn captures_that_do_not_fit_together_are_told() {
    let shot = Shot {
        width: 1,
        height: 1,
        rgba: vec![1, 2, 3, 255],
    };
    let cut = Shot {
        width: 1,
        height: 1,
        rgba: vec![1, 2, 3],
    };
    assert!(is_composable(&[], &[]));
    assert!(is_composable(&[(-5, 7, 1, 1)], &[Some(shot)]));
    assert!(!is_composable(&[(0, 0, 1, 1)], &[Some(cut)]));
    assert!(!is_composable(&[(0, 0, 1, 1)], &[]));
    assert!(!is_composable(&[(i32::MAX, 0, 1, 1)], &[None]));
    // Both can be told, but they lie too far apart.
    let apart = [(i32::MIN, 0, 1, 1), (1000, 0, 1, 1)];
    assert!(!is_composable(&apart, &[None, None]));
}

#[test]
fn clearing_with_nothing_selected_changes_nothing() {
    let mut ov = overlay();
    drag(&mut ov, (10, 20), (109, 89));
    ov.undo();
    ov.take_chores();
    assert!(ov.scene.selection.is_none());
    assert!(ov.history.can_redo());
    ov.window_event(OverlayEvent::Moved { snap: Some(rect(1, 1, 9, 9)) }, &at(5, 5));
    ov.take_chores();
    ov.clear_selection();
    assert!(ov.history.can_redo() && !ov.history.can_undo());
    assert_eq!(ov.scene.snap_rect, Some(rect(1, 1, 9, 9)));
    assert!(!ov.take_chores().redraw);
    // A drag goes on.
    ov.window_event(OverlayEvent::Press, &at(5, 5));
    ov.clear_selection();
    assert!(ov.scene.dragging);
    assert_eq!(ov.scene.drag_start, Some((5, 5)));
}

#[test]
fn selecting_at_once_puts_the_magnifier_away() {
    let closer = OverlayEvent::Wheel(ZoomStep {
        changed: true,
        above: true,
    });
    for ch in ['0', '1', 'r'] {
        let mut ov = overlay();
        ov.scene.last_region = Some(rect(3, 3, 30, 30));
        ov.window_event(closer, &at(5, 5));
        ov.take_chores();
        assert!(ov.scene.zoomed && ov.scene.fine);
        key(&mut ov, ch);
        assert!(!ov.scene.zoomed && !ov.scene.fine);
        assert!(ov.scene.selection.is_some() && ov.menu.is_some());
        let todo = ov.take_chores();
        assert_eq!(todo.warp, Warp::Back);
        assert_eq!(todo.visible, Some(true));
    }
}

#[test]
fn the_panel_of_the_menu_keeps_clicks_from_the_selection() {
    let mut ov = overlay_with(vec![MenuButton::Save, MenuButton::Divider, MenuButton::Quit]);
    // The menu of a selection that fills the picture lies on it.
    drag(&mut ov, (0, 0), (799, 599));
    let menu = ov.menu.as_ref().unwrap();
    let divider = menu.divider_rects[0];
    let (x, y) = (divider.x0 as i64, divider.y0 as i64);
    assert!(menu.rect.contains(divider.x0, divider.y0));
    assert_eq!(menu.hit(divider.x0, divider.y0), None);
    ov.window_event(OverlayEvent::Press, &at(x, y));
    assert_eq!(ov.scene.adjust, Adjust::Idle);
    assert!(!ov.scene.dragging);
    ov.window_event(OverlayEvent::Release, &at(x, y));
    assert_eq!(ov.scene.selection, Some(rect(0, 0, 800, 600)));
    assert!(ov.menu.is_some());
    // Beside the panel the selection is grabbed.
    ov.window_event(OverlayEvent::Press, &at(400, 100));
    assert_eq!(ov.scene.adjust, Adjust::Moving { orig: rect(0, 0, 800, 600) });
}

#[test]
fn a_drag_that_is_over_has_no_start() {
    let mut ov = overlay();
    ov.window_event(OverlayEvent::Press, &at(10, 20));
    assert_eq!(ov.scene.drag_start, Some((10, 20)));
    assert!(ov.scene.dragging);
    ov.window_event(OverlayEvent::Release, &at(109, 89));
    assert_eq!(ov.scene.selection, Some(rect(10, 20, 110, 90)));
    assert_eq!(ov.scene.drag_start, None);
    assert!(!ov.scene.dragging);
}

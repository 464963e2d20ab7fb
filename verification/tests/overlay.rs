//! Choosing a region on the frozen screen, and what follows from it.

use pashari::annotation::Handle;
use pashari::backdrop::{axis_map, bright_col_range};
use pashari::keys::{HotkeyConfig, RegionKeys};
use pashari::menu::{MenuButton, MenuScale};
use pashari::monitors::{containing_monitor, match_monitor_dpis, monitors_bounds, Frozen};
use pashari::overlay::{is_openable, Adjust, Overlay, RecordPrefs};
use pashari::pixels::crop_region;
use pashari::recording::next_fps;
use pashari::rect::Rect;
use pashari::region::{clamp_rect_to_image, hit_handle, move_rect, resize_rect, Reach};

#[test]
fn bright_col_range_matches_a_brute_force_scan_of_axis_map() {
    // Checks the range column by column, across zoom levels, centers and
    // rects that don't line up on integer boundaries.
    let cases = [
        (4.0_f64, (100.0_f64, 50.0_f64), (90, 110)),
        (3.0, (0.0, 0.0), (1, 4)),
        (2.5, (37.0, 10.0), (5, 200)),
        (1.5, (0.5, 0.5), (0, 3)),
    ];
    let sw = 400;
    for (zoom, center, (x0, x1)) in cases {
        let find = |s: usize| (center.0 + (s as f64 - center.0) / zoom).floor() as i64;
        let col_src = axis_map(sw, 400, &find);
        let r = Rect {
            x0,
            y0: 0,
            x1,
            y1: 1,
        };

        let mut expected_lo = None;
        let mut expected_hi = 0;
        for (sx, &srcx) in col_src.iter().enumerate() {
            if srcx != usize::MAX && srcx >= r.x0 && srcx < r.x1 {
                expected_lo.get_or_insert(sx);
                expected_hi = sx + 1;
            }
        }
        let expected = (expected_lo.unwrap_or(0), expected_hi);

        assert_eq!(bright_col_range(&col_src, r.x0, r.x1), expected, "zoom={zoom}");
    }
}

#[test]
fn monitors_bounds_covers_all_monitors() {
    // A 1280x1024 secondary monitor with a vertical offset, to the left of the primary (0,0)1920x1080.
    let rects = [(0, 0, 1920, 1080), (-1280, 200, 1280, 1024)];
    assert_eq!(monitors_bounds(&rects), Some((-1280, 0, 1920, 1224)));
    assert_eq!(monitors_bounds(&[]), None);
    // A single monitor becomes its own rect.
    assert_eq!(
        monitors_bounds(&[(100, 50, 800, 600)]),
        Some((100, 50, 900, 650))
    );
}

#[test]
fn containing_monitor_picks_the_monitor_that_fully_contains_the_selection() {
    // A shorter secondary monitor (1920,300)-(3200,700), to the right of the primary (0,0)-(1920,1080).
    let primary = Rect {
        x0: 0,
        y0: 0,
        x1: 1920,
        y1: 1080,
    };
    let secondary = Rect {
        x0: 1920,
        y0: 300,
        x1: 3200,
        y1: 700,
    };
    let monitors = [primary, secondary];
    let canvas = Rect {
        x0: 0,
        y0: 0,
        x1: 3200,
        y1: 1080,
    };
    let sel_in_secondary = Rect {
        x0: 2000,
        y0: 400,
        x1: 2100,
        y1: 500,
    };
    assert_eq!(
        containing_monitor(&monitors, sel_in_secondary, canvas),
        secondary
    );
    let sel_in_primary = Rect {
        x0: 100,
        y0: 100,
        x1: 200,
        y1: 200,
    };
    assert_eq!(
        containing_monitor(&monitors, sel_in_primary, canvas),
        primary
    );
}

#[test]
fn containing_monitor_falls_back_to_largest_overlap_when_spanning_monitors() {
    let left = Rect {
        x0: 0,
        y0: 0,
        x1: 1000,
        y1: 1000,
    };
    let right = Rect {
        x0: 1000,
        y0: 0,
        x1: 2000,
        y1: 1000,
    };
    let monitors = [left, right];
    let canvas = Rect {
        x0: 0,
        y0: 0,
        x1: 2000,
        y1: 1000,
    };
    // The selection spans the boundary, overlapping the right monitor more.
    let sel = Rect {
        x0: 900,
        y0: 0,
        x1: 1500,
        y1: 500,
    };
    assert_eq!(containing_monitor(&monitors, sel, canvas), right);
}

#[test]
fn containing_monitor_falls_back_to_canvas_when_no_monitors() {
    let canvas = Rect {
        x0: 0,
        y0: 0,
        x1: 1920,
        y1: 1080,
    };
    let sel = Rect {
        x0: 0,
        y0: 0,
        x1: 100,
        y1: 100,
    };
    assert_eq!(containing_monitor(&[], sel, canvas), canvas);
}

#[test]
fn match_monitor_dpis_pairs_each_monitor_with_its_own_scale_factor() {
    // A 100% primary at (-1920,0) and a 150% secondary at (0,0), so
    // the composited origin is negative (like a left-of-primary layout).
    let origin = (-1920, 0);
    let monitors = [
        Rect {
            x0: 0,
            y0: 0,
            x1: 1920,
            y1: 1080,
        },
        Rect {
            x0: 1920,
            y0: 0,
            x1: 1920 + 2560,
            y1: 1440,
        },
    ];
    let handles = [
        ((-1920, 0), (1920u32, 1080u32), 1.0),
        ((0, 0), (2560u32, 1440u32), 1.5),
    ];
    assert_eq!(
        match_monitor_dpis(origin, &monitors, &handles, 1.0),
        vec![1.0, 1.5]
    );
}

#[test]
fn match_monitor_dpis_falls_back_to_1_when_no_handle_covers_the_monitor() {
    let monitors = [Rect {
        x0: 0,
        y0: 0,
        x1: 1920,
        y1: 1080,
    }];
    // A handle that sits somewhere else entirely.
    let handles = [((5000, 5000), (800u32, 600u32), 2.0)];
    assert_eq!(match_monitor_dpis((0, 0), &monitors, &handles, 1.0), vec![1.0]);
    assert_eq!(match_monitor_dpis((0, 0), &monitors, &[], 1.0), vec![1.0]);
}

/// A minimal `Overlay` for tests (no real capture/window). Just one `w x h` monitor.
fn test_overlay(w: usize, h: usize) -> Overlay {
    let frozen = Frozen {
        width: w,
        height: h,
        bright: vec![0; w * h],
        dim: vec![0; w * h],
        origin: (0, 0),
        monitors: vec![Rect {
            x0: 0,
            y0: 0,
            x1: w,
            y1: h,
        }],
        scales: vec![MenuScale::plain()],
    };
    let order = MenuButton::all();
    assert!(is_openable(&frozen, &order));
    let keys = RegionKeys::from_config(&HotkeyConfig::default());
    let prefs = RecordPrefs {
        gif: false,
        fps: 30,
        desktop_audio: true,
        mic: false,
    };
    let mut overlay = Overlay::new(frozen, keys, order, vec![15, 24, 30, 60], prefs);
    overlay.scene.surface_size = (w, h);
    overlay
}

#[test]
fn undo_redo_steps_back_and_forward_through_selection_history() {
    let mut ov = test_overlay(1920, 1080);
    let rect_a = Rect {
        x0: 10,
        y0: 10,
        x1: 100,
        y1: 100,
    };
    let rect_b = Rect {
        x0: 200,
        y0: 200,
        x1: 300,
        y1: 300,
    };

    // Pushes two changes (none -> rect_a -> rect_b) the same way an
    // actual gesture commit would: "push_undo before the change, then update selection."
    ov.push_undo();
    ov.scene.selection = Some(rect_a);
    ov.push_undo();
    ov.scene.selection = Some(rect_b);

    ov.undo();
    assert_eq!(ov.scene.selection, Some(rect_a));
    ov.undo();
    assert_eq!(ov.scene.selection, None);
    // No-op once the history is exhausted.
    ov.undo();
    assert_eq!(ov.scene.selection, None);

    ov.redo();
    assert_eq!(ov.scene.selection, Some(rect_a));
    ov.redo();
    assert_eq!(ov.scene.selection, Some(rect_b));
    // No-op once the history is exhausted.
    ov.redo();
    assert_eq!(ov.scene.selection, Some(rect_b));
}

#[test]
fn push_undo_discards_redo_history() {
    let mut ov = test_overlay(1920, 1080);
    let rect_a = Rect {
        x0: 10,
        y0: 10,
        x1: 100,
        y1: 100,
    };
    let rect_b = Rect {
        x0: 200,
        y0: 200,
        x1: 300,
        y1: 300,
    };

    ov.push_undo();
    ov.scene.selection = Some(rect_a);
    ov.undo();
    assert_eq!(ov.scene.selection, None);
    assert!(ov.history.can_redo());

    // A new change discards the redo history saved by the earlier undo.
    ov.push_undo();
    ov.scene.selection = Some(rect_b);
    assert!(!ov.history.can_redo());
    ov.redo();
    assert_eq!(ov.scene.selection, Some(rect_b));
}

#[test]
fn undo_redo_are_ignored_mid_gesture() {
    let mut ov = test_overlay(1920, 1080);
    let rect_a = Rect {
        x0: 10,
        y0: 10,
        x1: 100,
        y1: 100,
    };
    ov.push_undo();
    ov.scene.selection = Some(rect_a);

    // Undo is ignored mid-drag, since the target would be ambiguous.
    ov.scene.dragging = true;
    ov.undo();
    assert_eq!(ov.scene.selection, Some(rect_a));
    ov.scene.dragging = false;

    // Same during a handle drag/move.
    ov.scene.adjust = Adjust::Resizing(Handle::TopLeft);
    ov.undo();
    assert_eq!(ov.scene.selection, Some(rect_a));
    ov.scene.adjust = Adjust::Idle;

    ov.undo();
    assert_eq!(ov.scene.selection, None);
}

#[test]
fn crop_region_extracts_expected_pixels() {
    // A 3x2 bright buffer (0x00RRGGBB).
    let bright = vec![
        0x00_11_22_33,
        0x00_44_55_66,
        0x00_77_88_99,
        0x00_AA_BB_CC,
        0x00_DD_EE_FF,
        0x00_01_02_03,
    ];
    // Crops the bottom-right 2x1 (x:1..3, y:1..2).
    let r = Rect {
        x0: 1,
        y0: 1,
        x1: 3,
        y1: 2,
    };
    let shot = crop_region(&bright, 3, r);

    assert_eq!(shot.width, 2);
    assert_eq!(shot.height, 1);
    // (1,1)=0xDDEEFF, (2,1)=0x010203, both alpha=255.
    assert_eq!(
        shot.rgba,
        vec![0xDD, 0xEE, 0xFF, 0xFF, 0x01, 0x02, 0x03, 0xFF]
    );
}

fn rect(x0: usize, y0: usize, x1: usize, y1: usize) -> Rect {
    Rect { x0, y0, x1, y1 }
}

#[test]
fn hit_handle_matches_anywhere_along_an_edge_not_just_its_midpoint() {
    let r = rect(10, 20, 30, 40);
    // The top edge matches Top not just at its midpoint (20.0) but
    // also away from the corner (toward the right), since matching
    // tests the whole edge rather than 8 fixed points.
    assert_eq!(hit_handle(r, Reach::around((24, 19), 5)), Some(Handle::Top));
    // Same for the left edge: Left away from the corner (toward the bottom).
    assert_eq!(hit_handle(r, Reach::around((9, 33), 5)), Some(Handle::Left));
}

#[test]
fn hit_handle_prefers_corner_and_misses_when_far() {
    let r = rect(10, 20, 30, 40);
    // Exactly at a corner.
    assert_eq!(hit_handle(r, Reach::around((10, 20), 5)), Some(Handle::TopLeft));
    // Near the top edge's midpoint.
    assert_eq!(hit_handle(r, Reach::around((20, 21), 5)), Some(Handle::Top));
    // Far from anything (near the center).
    assert_eq!(hit_handle(r, Reach::around((20, 30), 5)), None);
}

#[test]
fn resize_rect_moves_only_matching_edges() {
    let r = rect(10, 20, 30, 40);
    let img = (100, 100);
    // Only the right edge moves (far side is exclusive, so +1).
    assert_eq!(
        resize_rect(r, Handle::Right, (50, 5), img),
        rect(10, 20, 51, 40)
    );
    // The top-left corner moves both x0 and y0.
    assert_eq!(
        resize_rect(r, Handle::TopLeft, (5, 8), img),
        rect(5, 8, 30, 40)
    );
    // The top edge moves only y0.
    assert_eq!(
        resize_rect(r, Handle::Top, (99, 12), img),
        rect(10, 12, 30, 40)
    );
}

#[test]
fn resize_rect_never_inverts_and_clamps_to_image() {
    let r = rect(10, 20, 30, 40);
    let img = (100, 100);
    // Dragging the right edge left of the left edge still keeps a minimum 1px (x1 >= x0+1).
    let out = resize_rect(r, Handle::Right, (0, 30), img);
    assert_eq!(out, rect(10, 20, 11, 40));
    // Dragging the left edge past the right edge still keeps x0 < x1.
    let out = resize_rect(r, Handle::Left, (99, 30), img);
    assert_eq!(out, rect(29, 20, 30, 40));
}

#[test]
fn move_rect_translates_and_clamps() {
    let r = rect(10, 20, 30, 40); // 20x20
    let img = (100, 100);
    // A normal move.
    assert_eq!(move_rect(r, (5, -4), img), rect(15, 16, 35, 36));
    // A move past the bottom-right edge clamps within the image (keeping size).
    let out = move_rect(r, (1000, 1000), img);
    assert_eq!(out, rect(80, 80, 100, 100));
    // Same for the top-left edge.
    let out = move_rect(r, (-1000, -1000), img);
    assert_eq!(out, rect(0, 0, 20, 20));
}

#[test]
fn an_empty_rectangle_is_moved_too() {
    assert_eq!(move_rect(rect(10, 20, 10, 40), (5, -4), (100, 100)), rect(15, 16, 15, 36));
    assert_eq!(move_rect(rect(10, 20, 10, 20), (1000, -1000), (100, 100)), rect(100, 0, 100, 0));
}

#[test]
fn clamp_rect_to_image_keeps_rect_that_already_fits() {
    let r = rect(10, 20, 30, 40);
    assert_eq!(clamp_rect_to_image(r, (100, 100)), r);
}

#[test]
fn clamp_rect_to_image_shrinks_when_image_is_smaller() {
    // Fits within the image without panicking even if the last-used region is larger/overflows.
    let r = rect(10, 20, 300, 400);
    assert_eq!(clamp_rect_to_image(r, (100, 50)), rect(10, 20, 100, 50));
}

#[test]
fn clamp_rect_to_image_origin_outside_bounds_still_yields_nonempty_rect() {
    // Leaves at least 1px even if x0/y0 themselves are outside the
    // image (e.g. the monitor layout shrank).
    let r = rect(500, 500, 600, 600);
    let out = clamp_rect_to_image(r, (100, 80));
    assert_eq!(out, rect(99, 79, 100, 80));
}

#[test]
fn next_fps_cycles_through_presets_and_wraps() {
    let presets = [15, 24, 30, 60];
    assert_eq!(next_fps(15, &presets), 24);
    assert_eq!(next_fps(24, &presets), 30);
    assert_eq!(next_fps(30, &presets), 60);
    // Wraps from the last back to the first.
    assert_eq!(next_fps(60, &presets), 15);
}

#[test]
fn next_fps_jumps_to_first_when_current_not_in_presets() {
    // Snaps to the first preset even if hand-edited to a value not among them.
    assert_eq!(next_fps(45, &[15, 24, 30, 60]), 15);
}

#[test]
fn next_fps_keeps_current_when_presets_empty() {
    assert_eq!(next_fps(30, &[]), 30);
}

//! The layout and behaviour of the action menu.

use pashari::keys::{LocalKey, MenuKeys, RegionKeys};
use pashari::menu::{
    action_disabled, aspect_option_hit, aspect_option_label, aspect_option_rects, aspect_presets,
    draw, panel_width, Action, Menu, MenuAvailability, MenuButton, MenuScale, MENU_DISABLED_BG,
    MENU_HOVER, MENU_PRESSED,
};
use pashari::rect::Rect;

fn sel(x0: usize, y0: usize, x1: usize, y1: usize) -> Rect {
    Rect { x0, y0, x1, y1 }
}

fn full_hd() -> Rect {
    Rect {
        x0: 0,
        y0: 0,
        x1: 1920,
        y1: 1080,
    }
}

/// Default key bindings for tests.
fn test_keys() -> MenuKeys {
    MenuKeys {
        save: vec![LocalKey::new(false, false, false, 's')],
        copy: vec![LocalKey::new(false, false, false, 'c')],
        edit: vec![LocalKey::new(false, false, false, 'e')],
        upload: vec![LocalKey::new(false, false, false, 'u')],
        record: vec![LocalKey::new(false, false, false, 'v')],
        quit: vec![LocalKey::new(false, false, false, 'q')],
    }
}

/// `RegionKeys` wrapping `test_keys()`, with the non-menu hotkeys
/// unbound (empty) — good enough for layout tests, which don't assert
/// on those.
fn test_region_keys() -> RegionKeys {
    RegionKeys {
        undo: vec![],
        redo: vec![],
        reuse_region: vec![],
        clear_selection: vec![],
        save_as: vec![],
        edit_external: vec![],
        menu: test_keys(),
    }
}

/// Nothing disabled — the common case for layout tests that aren't
/// specifically exercising `disabled`.
fn test_availability() -> MenuAvailability {
    MenuAvailability {
        uploaders: true,
        external_editor: true,
        undo: true,
        redo: true,
        reuse_region: true,
    }
}

/// The menu's layout without any customization,
/// used by tests that assert on a specific 6-action-button shape.
fn default_visible_order() -> [MenuButton; 8] {
    [
        MenuButton::Size,
        MenuButton::AspectRatio,
        MenuButton::Save,
        MenuButton::Copy,
        MenuButton::Edit,
        MenuButton::Upload,
        MenuButton::Video,
        MenuButton::Quit,
    ]
}

#[test]
fn menu_shows_separate_size_and_aspect_buttons_left_of_the_action_buttons() {
    let m = Menu::layout(
        sel(100, 100, 100 + 1280, 100 + 720),
        full_hd(),
        &test_region_keys(),
        &MenuButton::all(),
        &test_availability(),
        Some((16, 9)),
        MenuScale::plain(),
    );
    assert_eq!(m.size_w_label, "1280");
    assert_eq!(m.size_h_label, "720");
    assert_eq!(m.aspect_label, "16:9");
    // Size and aspect are each exactly one action-button square, sitting
    // adjacent, directly left of Save.
    let sr = m.size_rect.expect("MenuButton::ALL includes Size");
    let ar = m.aspect_rect.expect("MenuButton::ALL includes AspectRatio");
    assert_eq!(sr.width(), m.buttons[0].rect.width());
    assert_eq!(sr.height(), m.buttons[0].rect.height());
    assert_eq!(ar.width(), m.buttons[0].rect.width());
    assert_eq!(ar.height(), m.buttons[0].rect.height());
    assert_eq!(sr.x1, ar.x0);
    assert_eq!(ar.x1, m.buttons[0].rect.x0);
    assert_eq!(sr.y0, m.buttons[0].rect.y0);
    assert_eq!(ar.y0, m.buttons[0].rect.y0);
}

#[test]
fn menu_is_horizontally_centered_on_the_selection() {
    let m = Menu::layout(
        sel(1000, 100, 1200, 200), // 200px wide, centered at x=1100.
        full_hd(),
        &test_region_keys(),
        &MenuButton::all(),
        &test_availability(),
        None,
        MenuScale::plain(),
    );
    let panel_center = (m.rect.x0 + m.rect.x1) / 2;
    assert_eq!(panel_center, 1100);
}

#[test]
fn menu_layout_excludes_hidden_buttons_and_uses_the_given_order() {
    // Only Quit, Save, then the aspect-ratio button — in that order,
    // and skipping Copy/Edit/Upload/Video/Size entirely.
    let order = [MenuButton::Quit, MenuButton::Save, MenuButton::AspectRatio];
    let m = Menu::layout(
        sel(100, 100, 300, 200),
        full_hd(),
        &test_region_keys(),
        &order,
        &test_availability(),
        None,
        MenuScale::plain(),
    );
    assert_eq!(m.buttons.len(), 2);
    assert!(matches!(m.buttons[0].action, Action::Quit));
    assert!(matches!(m.buttons[1].action, Action::Save));
    assert!(m.size_rect.is_none());
    // The aspect button comes after both action buttons in this order,
    // not pinned to the left.
    let ar = m.aspect_rect.expect("order includes AspectRatio");
    assert_eq!(ar.x0, m.buttons[1].rect.x1);
}

#[test]
fn menu_layout_has_no_size_or_aspect_rect_when_neither_is_in_the_order() {
    let order = [MenuButton::Save, MenuButton::Quit];
    let m = Menu::layout(
        sel(100, 100, 300, 200),
        full_hd(),
        &test_region_keys(),
        &order,
        &test_availability(),
        None,
        MenuScale::plain(),
    );
    assert!(m.size_rect.is_none());
    assert!(m.aspect_rect.is_none());
    // The panel is exactly 2 action-button squares wide (no room
    // reserved for either).
    assert_eq!(
        m.buttons[1].rect.x1 - m.buttons[0].rect.x0,
        m.buttons[0].rect.width() * 2
    );
}

#[test]
fn menu_layout_size_and_aspect_can_appear_independently() {
    let size_only = Menu::layout(
        sel(100, 100, 300, 200),
        full_hd(),
        &test_region_keys(),
        &[MenuButton::Size, MenuButton::Save],
        &test_availability(),
        None,
        MenuScale::plain(),
    );
    assert!(size_only.size_rect.is_some());
    assert!(size_only.aspect_rect.is_none());

    let aspect_only = Menu::layout(
        sel(100, 100, 300, 200),
        full_hd(),
        &test_region_keys(),
        &[MenuButton::AspectRatio, MenuButton::Save],
        &test_availability(),
        None,
        MenuScale::plain(),
    );
    assert!(aspect_only.size_rect.is_none());
    assert!(aspect_only.aspect_rect.is_some());
}

#[test]
fn menu_layout_places_a_divider_between_buttons_without_making_it_a_button() {
    let order = [MenuButton::Save, MenuButton::Divider, MenuButton::Quit];
    let m = Menu::layout(
        sel(100, 100, 300, 200),
        full_hd(),
        &test_region_keys(),
        &order,
        &test_availability(),
        None,
        MenuScale::plain(),
    );
    // Only Save and Quit are real (clickable) buttons.
    assert_eq!(m.buttons.len(), 2);
    assert!(matches!(m.buttons[0].action, Action::Save));
    assert!(matches!(m.buttons[1].action, Action::Quit));
    // The divider sits between them, narrower than a full button, and
    // isn't reachable via `hit`.
    assert_eq!(m.divider_rects.len(), 1);
    let d = m.divider_rects[0];
    assert_eq!(d.x0, m.buttons[0].rect.x1);
    assert_eq!(d.x1, m.buttons[1].rect.x0);
    assert!(d.width() < m.buttons[0].rect.width());
    let (dcx, dcy) = ((d.x0 + d.x1) / 2, (d.y0 + d.y1) / 2);
    assert_eq!(m.hit(dcx, dcy), None);
    // The panel's overall bounds still span from Save's left edge to Quit's right edge.
    assert_eq!(m.rect.x0, m.buttons[0].rect.x0);
    assert_eq!(m.rect.x1, m.buttons[1].rect.x1);
}

#[test]
fn menu_layout_supports_multiple_dividers() {
    let order = [
        MenuButton::Divider,
        MenuButton::Save,
        MenuButton::Divider,
        MenuButton::Quit,
        MenuButton::Divider,
    ];
    let m = Menu::layout(
        sel(100, 100, 300, 200),
        full_hd(),
        &test_region_keys(),
        &order,
        &test_availability(),
        None,
        MenuScale::plain(),
    );
    assert_eq!(m.buttons.len(), 2);
    assert_eq!(m.divider_rects.len(), 3);
    // Left to right: divider, Save, divider, Quit, divider — none overlap.
    assert_eq!(m.divider_rects[0].x1, m.buttons[0].rect.x0);
    assert_eq!(m.buttons[0].rect.x1, m.divider_rects[1].x0);
    assert_eq!(m.divider_rects[1].x1, m.buttons[1].rect.x0);
    assert_eq!(m.buttons[1].rect.x1, m.divider_rects[2].x0);
    assert_eq!(m.rect.x1, m.divider_rects[2].x1);
}

#[test]
fn menu_layout_spacer_is_the_same_width_as_a_divider_but_transparent() {
    let divider_order = [MenuButton::Save, MenuButton::Divider, MenuButton::Quit];
    let spacer_order = [MenuButton::Save, MenuButton::Spacer, MenuButton::Quit];
    let with_divider = Menu::layout(
        sel(100, 100, 300, 200),
        full_hd(),
        &test_region_keys(),
        &divider_order,
        &test_availability(),
        None,
        MenuScale::plain(),
    );
    let with_spacer = Menu::layout(
        sel(100, 100, 300, 200),
        full_hd(),
        &test_region_keys(),
        &spacer_order,
        &test_availability(),
        None,
        MenuScale::plain(),
    );
    // Same overall width (spacer reserves exactly a divider's worth of
    // space) and Quit ends up in the same spot either way.
    assert_eq!(with_divider.rect.x1, with_spacer.rect.x1);
    assert_eq!(with_divider.buttons[1].rect, with_spacer.buttons[1].rect);
    // But a spacer has no rect to draw a line in (transparent).
    assert!(with_spacer.divider_rects.is_empty());
}

#[test]
fn menu_sits_below_selection_when_space_allows() {
    let m = Menu::layout(
        sel(100, 100, 300, 200),
        full_hd(),
        &test_region_keys(),
        &default_visible_order(),
        &test_availability(),
        None,
        MenuScale::plain(),
    );
    // Placed below the selection (y1=200 plus margin).
    assert!(m.buttons[0].rect.y0 >= 200);
    assert_eq!(m.buttons.len(), 6);
    // Left to right: Save / Copy / Edit / Upload / Record(Video) / Quit.
    assert!(matches!(m.buttons[0].action, Action::Save));
    assert!(matches!(m.buttons[2].action, Action::Edit));
    assert!(matches!(m.buttons[3].action, Action::Upload));
    assert!(matches!(m.buttons[4].action, Action::Record));
    assert_eq!(m.buttons[4].label, "Video");
    assert_eq!(
        m.buttons[4].hotkeys,
        vec![LocalKey::new(false, false, false, 'v')]
    );
    // Quit is furthest right.
    assert!(matches!(m.buttons[5].action, Action::Quit));
    assert_eq!(m.buttons[5].label, "Quit");
    assert_eq!(
        m.buttons[5].hotkeys,
        vec![LocalKey::new(false, false, false, 'q')]
    );
}

#[test]
fn aspect_option_rects_stack_below_the_closed_button_without_overlap() {
    let closed = Rect {
        x0: 10,
        y0: 20,
        x1: 110,
        y1: 42,
    };
    let rows = aspect_option_rects(closed);
    assert_eq!(rows[0].y0, closed.y1);
    for pair in rows.windows(2) {
        assert_eq!(
            pair[0].y1, pair[1].y0,
            "rows must be contiguous, no gaps/overlap"
        );
        assert_eq!(pair[0].x0, closed.x0);
        assert_eq!(pair[0].x1, closed.x1);
    }
    // The rows follow the order of the presets.
    assert_eq!(aspect_option_label(aspect_presets()[0]), "Free");
    assert_eq!(aspect_option_label(aspect_presets()[1]), "1:1");
}

#[test]
fn menu_flips_above_when_no_space_below() {
    // The selection touches the bottom edge -> no room below, so it flips above.
    let m = Menu::layout(
        sel(100, 1000, 300, 1080),
        full_hd(),
        &test_region_keys(),
        &MenuButton::all(),
        &test_availability(),
        None,
        MenuScale::plain(),
    );
    assert!(m.buttons[0].rect.y1 <= 1000);
}

#[test]
fn menu_clamps_within_offset_monitor_bounds() {
    // A case where the secondary monitor is right of the primary and
    // shorter: even with bounds offset like (1920,200)-(3840,1000),
    // it should stay clamped within that range and never spill into a
    // blind spot of the origin-0 composited canvas (e.g. past y=1000).
    let bounds = Rect {
        x0: 1920,
        y0: 200,
        x1: 3840,
        y1: 1000,
    };
    let m = Menu::layout(
        sel(3700, 900, 3800, 990),
        bounds,
        &test_region_keys(),
        &MenuButton::all(),
        &test_availability(),
        None,
        MenuScale::plain(),
    );
    for b in &m.buttons {
        assert!(b.rect.x0 >= bounds.x0 && b.rect.x1 <= bounds.x1);
        assert!(b.rect.y0 >= bounds.y0 && b.rect.y1 <= bounds.y1);
    }
}

#[test]
fn hit_returns_button_index_or_none() {
    let m = Menu::layout(
        sel(100, 100, 300, 200),
        full_hd(),
        &test_region_keys(),
        &MenuButton::all(),
        &test_availability(),
        None,
        MenuScale::plain(),
    );
    let b0 = m.buttons[0].rect;
    // The button's center hits.
    let cx = (b0.x0 + b0.x1) / 2;
    let cy = (b0.y0 + b0.y1) / 2;
    assert_eq!(m.hit(cx, cy), Some(0));
    // Outside the panel misses.
    assert_eq!(m.hit(0, 0), None);
}

#[test]
fn upload_button_is_disabled_without_configured_uploaders_but_still_absorbs_clicks() {
    let avail = MenuAvailability {
        uploaders: false,
        ..test_availability()
    };
    let m = Menu::layout(
        sel(100, 100, 300, 200),
        full_hd(),
        &test_region_keys(),
        &MenuButton::all(),
        &avail,
        None,
        MenuScale::plain(),
    );
    assert!(m.buttons[3].disabled);
    let b3 = m.buttons[3].rect;
    let cx = (b3.x0 + b3.x1) / 2;
    let cy = (b3.y0 + b3.y1) / 2;
    // Still hits even when disabled (prevents the click from falling
    // through and starting a new region selection). Whether it's
    // allowed to trigger is decided separately by the caller, via `buttons[i].disabled`.
    assert_eq!(m.hit(cx, cy), Some(3));
    // Other buttons stay enabled as usual.
    assert!(!m.buttons[0].disabled);
}

#[test]
fn edit_external_button_is_disabled_without_a_configured_external_editor() {
    let avail = MenuAvailability {
        external_editor: false,
        ..test_availability()
    };
    let order = [MenuButton::Save, MenuButton::EditExternal];
    let m = Menu::layout(
        sel(100, 100, 300, 200),
        full_hd(),
        &test_region_keys(),
        &order,
        &avail,
        None,
        MenuScale::plain(),
    );
    assert!(!m.buttons[0].disabled);
    assert!(m.buttons[1].disabled);
}

#[test]
fn menu_buttons_stand_side_by_side_inside_the_bounds() {
    let order = MenuButton::all();
    let m = Menu::layout(
        sel(900, 500, 1000, 600),
        full_hd(),
        &test_region_keys(),
        &order,
        &test_availability(),
        None,
        MenuScale::plain(),
    );
    for w in m.buttons.windows(2) {
        assert!(w[0].rect.x1 <= w[1].rect.x0);
    }
    assert_eq!(m.rect.x1 - m.rect.x0, panel_width(&order, 56));
    assert_eq!(m.rect.y0, 610);
    assert_eq!(m.rect.y1, 666);
}

#[test]
fn menu_sticks_to_the_lower_edge_when_there_is_room_on_neither_side() {
    let m = Menu::layout(
        sel(0, 0, 1920, 1080),
        full_hd(),
        &test_region_keys(),
        &[MenuButton::Save],
        &test_availability(),
        None,
        MenuScale::plain(),
    );
    assert_eq!(m.rect, sel(932, 1024, 988, 1080));
}

#[test]
fn narrow_entries_have_a_least_width() {
    // A sixth of a button, but never under 6 pixels.
    assert_eq!(panel_width(&[MenuButton::Divider], 56), 9);
    assert_eq!(panel_width(&[MenuButton::Spacer], 56), 9);
    assert_eq!(panel_width(&[MenuButton::Divider], 12), 6);
    assert_eq!(panel_width(&[MenuButton::Save, MenuButton::Divider], 84), 98);
}

#[test]
fn availability_disables_exactly_the_actions_it_names() {
    let none = MenuAvailability {
        uploaders: false,
        external_editor: false,
        undo: false,
        redo: false,
        reuse_region: false,
    };
    for a in [
        Action::Upload,
        Action::EditExternal,
        Action::Undo,
        Action::Redo,
        Action::ReuseRegion,
    ] {
        assert!(action_disabled(a, &none));
        assert!(!action_disabled(a, &test_availability()));
    }
    for a in [
        Action::Save,
        Action::Copy,
        Action::Edit,
        Action::Record,
        Action::Quit,
        Action::ClearSelection,
        Action::SaveAs,
    ] {
        assert!(!action_disabled(a, &none));
    }
}

#[test]
fn aspect_rows_are_hit_where_they_lie() {
    let closed = sel(10, 20, 110, 42);
    assert_eq!(aspect_option_hit(closed, 10, 42), Some(0));
    assert_eq!(aspect_option_hit(closed, 109, 129), Some(3));
    assert_eq!(aspect_option_hit(closed, 110, 60), None);
    assert_eq!(aspect_option_hit(closed, 50, 41), None);
    assert_eq!(aspect_option_hit(closed, 50, 130), None);
    assert_eq!(aspect_option_label(aspect_presets()[2]), "16:9");
    assert_eq!(aspect_option_label(aspect_presets()[3]), "4:3");
}

#[test]
fn keys_reach_enabled_buttons_only() {
    let avail = MenuAvailability {
        uploaders: false,
        ..test_availability()
    };
    let m = Menu::layout(
        sel(100, 100, 300, 200),
        full_hd(),
        &test_region_keys(),
        &default_visible_order(),
        &avail,
        None,
        MenuScale::plain(),
    );
    assert_eq!(m.keyed(LocalKey::new(false, false, false, 's')), Some(Action::Save));
    assert_eq!(m.keyed(LocalKey::new(false, false, false, 'u')), None);
    assert_eq!(m.keyed(LocalKey::new(true, false, false, 's')), None);
    assert_eq!(m.usable(0), Some(Action::Save));
    assert_eq!(m.usable(3), None);
}

#[test]
fn menu_colors_follow_the_pointer_and_the_state() {
    let avail = MenuAvailability {
        uploaders: false,
        ..test_availability()
    };
    let m = Menu::layout(
        sel(100, 100, 300, 200),
        full_hd(),
        &test_region_keys(),
        &[
            MenuButton::AspectRatio,
            MenuButton::Save,
            MenuButton::Copy,
            MenuButton::Divider,
            MenuButton::Upload,
        ],
        &avail,
        Some((4, 3)),
        MenuScale::plain(),
    );
    let scene = draw(&m, Some(0), Some(1), Some((4, 3)), true);
    assert_eq!(scene.buttons.len(), 3);
    assert_eq!(scene.buttons[0].0, MENU_HOVER);
    assert_eq!(scene.buttons[1].0, MENU_PRESSED);
    assert_eq!(scene.buttons[2].0, MENU_DISABLED_BG);
    assert_eq!(scene.lines.len(), 1);
    assert_eq!(scene.options.len(), 4);
    assert_eq!(scene.options[3].2, "4:3");
    assert!(draw(&m, None, None, None, false).options.is_empty());
}

//! The resident controller: launching, hotkeys, the tray, settings and
//! updates.

use pashari::icon::{icon_of, load_tray_icon, IconError};
use pashari::keys::{HotkeyConfig, RegionKeys};
use pashari::menu::{Action, MenuButton, MenuScale};
use pashari::monitors::Frozen;
use pashari::overlay::{Outcome, Overlay, RecordPrefs};
use pashari::pixels::Shot;
use pashari::rect::Rect;
use pashari::resident::{
    handle_outcome, install_of, joined_urls, launch, parse_hotkeys, same_text, update_check_due,
    App, FollowUp, Install, Launch, Pace, ReleaseInfo, Route, Start, TrayItem, TrayJob,
    UpdateArtifact, UpdateNotice, UserEvent,
};
use pashari::settings::{Closing, KeptConfig, SavedSettings, SettingsResult};

fn strings(list: &[&str]) -> Vec<String> {
    list.iter().map(|s| s.to_string()).collect()
}

fn overlay() -> Overlay {
    let frozen = Frozen {
        width: 8,
        height: 6,
        bright: vec![0x0010_2030; 48],
        dim: vec![0; 48],
        origin: (0, 0),
        monitors: vec![Rect {
            x0: 0,
            y0: 0,
            x1: 8,
            y1: 6,
        }],
        scales: vec![MenuScale::plain()],
    };
    let keys = RegionKeys::from_config(&HotkeyConfig::default());
    let prefs = RecordPrefs {
        gif: false,
        fps: 30,
        desktop_audio: true,
        mic: false,
    };
    Overlay::new(frozen, keys, MenuButton::all(), vec![30], prefs)
}

#[test]
fn arguments_choose_between_editor_and_resident() {
    assert!(matches!(launch(&strings(&["editor"])), Launch::Editor(None)));
    assert!(matches!(
        launch(&strings(&["editor", "a.png", "b"])),
        Launch::Editor(Some(f)) if f == "a.png"
    ));
    assert!(matches!(
        launch(&strings(&[])),
        Launch::Resident {
            show_settings: false
        }
    ));
    assert!(matches!(
        launch(&strings(&["x", "--show-settings"])),
        Launch::Resident {
            show_settings: true
        }
    ));
}

#[test]
fn updates_are_checked_once_a_day() {
    assert_eq!(update_check_due(100_000, 100_000 - 86_399), None);
    assert_eq!(update_check_due(100_000, 100_000 - 86_400), Some(100_000));
    assert_eq!(update_check_due(1_000_000, 0), Some(1_000_000));
}

#[test]
fn hotkeys_that_spell_nothing_are_dropped_and_none_falls_back() {
    let read = |s: &str| s.len().checked_sub(1);
    assert_eq!(
        parse_hotkeys(&strings(&["ab", "", "abc"]), &read, 9),
        vec![1, 2]
    );
    assert_eq!(parse_hotkeys(&strings(&["", ""]), &read, 9), vec![9]);
    assert_eq!(parse_hotkeys(&[].to_vec(), &read, 9), vec![9]);
}

#[test]
fn the_first_hotkey_is_ctrl_shift_two() {
    let app = App::new(false);
    // Control is 0x8, Shift is 0x200, and the digit 2 is key number 7.
    assert_eq!(app.hotkeys, vec![0x0208_0007]);
    assert_eq!(app.on_hotkey(0x0208_0007, true), Start::Main);
    assert_eq!(app.on_hotkey(0x0208_0007, false), Start::No);
    assert_eq!(app.on_hotkey(1, true), Start::No);
}

#[test]
fn one_region_is_selected_at_a_time() {
    let mut app = App::new(false);
    assert_eq!(app.pace(), Pace::Poll);
    app.started(Start::Main, overlay());
    assert_eq!(app.can_start(), Start::No);
    assert_eq!(app.route(true, false), Route::Session);
    assert!(app.settle_session().is_none());
    // During a recording a second selection can start, which cannot record.
    if let Some(s) = &mut app.session {
        s.select_all_monitors();
        s.trigger(Action::Record);
    }
    assert_eq!(app.can_start(), Start::Shot);
    app.started(Start::Shot, overlay());
    assert_eq!(app.can_start(), Start::No);
    assert!(!app.shot_session.as_ref().unwrap().scene.allow_record);
    assert_eq!(app.route(false, true), Route::Shot);
    if let Some(s) = &mut app.shot_session {
        s.select_all_monitors();
        s.trigger(Action::Copy);
    }
    assert!(matches!(app.settle_shot(), Some(FollowUp::Copy(s)) if s.width == 8));
    assert!(app.shot_session.is_none());
    assert!(app.session.is_some());
}

#[test]
fn what_follows_depends_on_the_outcome() {
    let shot = || Shot {
        width: 1,
        height: 1,
        rgba: vec![0; 4],
    };
    let captured = |action| {
        handle_outcome(Some(Outcome::Captured {
            action,
            shot: shot(),
        }))
    };
    assert!(matches!(captured(Action::Save), FollowUp::Save(_)));
    assert!(matches!(captured(Action::Edit), FollowUp::Edit(_)));
    assert!(matches!(
        captured(Action::EditExternal),
        FollowUp::EditExternal(_)
    ));
    assert!(matches!(captured(Action::Upload), FollowUp::Upload(_)));
    assert!(matches!(
        handle_outcome(Some(Outcome::Recorded("a.mp4".to_string()))),
        FollowUp::Reveal(p) if p == "a.mp4"
    ));
    assert!(matches!(handle_outcome(None), FollowUp::Cancelled));
}

#[test]
fn the_tray_opens_settings_once() {
    let mut app = App::new(true);
    assert_eq!(app.resumed(true), (false, None));
    assert_eq!(app.resumed(false), (true, Some((true, true))));
    assert_eq!(
        app.on_tray(TrayItem::Settings),
        TrayJob::Settings {
            open: false,
            focus: true
        }
    );
    assert_eq!(app.on_tray(TrayItem::Quit), TrayJob::Exit);
    assert_eq!(app.on_tray(TrayItem::Editor), TrayJob::LaunchEditor);
    // While settings are open nothing is captured.
    assert_eq!(app.on_tray(TrayItem::Capture), TrayJob::Start(Start::No));
    let mut idle = App::new(false);
    assert_eq!(idle.on_tray(TrayItem::Capture), TrayJob::Start(Start::Main));
}

#[test]
fn update_results_are_told() {
    let mut app = App::new(false);
    assert_eq!(
        app.handle_update_check_result(&Ok(None)),
        UpdateNotice::Latest
    );
    let found = Ok(Some(ReleaseInfo {
        version: "1.2".to_string(),
    }));
    assert_eq!(app.handle_update_check_result(&found), UpdateNotice::Found);
    assert_eq!(app.update_available.as_ref().unwrap().version, "1.2");
    assert_eq!(
        app.handle_update_check_result(&Err("offline".to_string())),
        UpdateNotice::Failed
    );
    let portable = Ok(UpdateArtifact::Portable("p".to_string()));
    assert!(matches!(install_of(portable), Install::Portable(p) if p == "p"));
    assert!(matches!(
        install_of(Err("no".to_string())),
        Install::Failed(e) if e == "no"
    ));
    let event: UserEvent<u8> = UserEvent::SnapshotReady(3, 4);
    assert!(matches!(event, UserEvent::SnapshotReady(3, 4)));
}

fn saved() -> SavedSettings<u8> {
    SavedSettings {
        hotkey: strings(&["Ctrl+1"]),
        save_dir_png: "png".to_string(),
        save_dir_mp4: "mp4".to_string(),
        save_dir_gif: "gif".to_string(),
        external_editor: "ed".to_string(),
        record_show_cursor: true,
        record_bitrate_mbps: 8,
        record_max_width: 1920,
        record_max_height: 1080,
        record_show_click_ripple: false,
        record_click_color_left: 1,
        record_click_color_right: 2,
        record_audio_output_device: "out".to_string(),
        record_audio_input_device: "in".to_string(),
        record_audio_sample_rate: 48_000,
        record_strip_silent_audio: true,
        uploaders: vec![1, 2],
        hotkey_undo: strings(&["U"]),
        hotkey_redo: vec![],
        hotkey_reuse_region: vec![],
        hotkey_clear_selection: vec![],
        hotkey_save_as: vec![],
        hotkey_edit_external: vec![],
        hotkey_quit: vec![],
        hotkey_menu_save: vec![],
        hotkey_menu_copy: vec![],
        hotkey_menu_edit: vec![],
        hotkey_menu_upload: vec![],
        hotkey_menu_record: vec![],
        hotkey_editor_reset_zoom: vec![],
        hotkey_editor_tool_select: vec![],
        hotkey_editor_tool_arrow: vec![],
        hotkey_editor_tool_polyline: vec![],
        hotkey_editor_tool_draw: vec![],
        hotkey_editor_tool_rect: vec![],
        hotkey_editor_tool_ellipse: vec![],
        hotkey_editor_tool_text: vec![],
        hotkey_editor_tool_number_marker: strings(&["N"]),
        session_history_limit: 5,
        launch_at_startup: true,
        filename_format: "f".to_string(),
    }
}

fn kept() -> KeptConfig {
    KeptConfig {
        record_format: "gif".to_string(),
        record_fps: 24,
        record_fps_presets: vec![24, 60],
        record_desktop_audio: true,
        record_mic: true,
        last_update_check: 77,
    }
}

#[test]
fn saved_settings_are_split_and_the_rest_is_kept() {
    let mut app = App::new(false);
    app.open_settings();
    match app.close_settings(SettingsResult::Saved(saved()), Ok(()), kept()) {
        Closing::Apply {
            config,
            hotkeys,
            uploaders,
        } => {
            assert_eq!(config.save_dir_gif, "gif");
            assert_eq!(config.record_audio_sample_rate, 48_000);
            assert_eq!(config.kept.record_fps_presets, vec![24, 60]);
            assert_eq!(config.kept.last_update_check, 77);
            assert_eq!(hotkeys.hotkey, strings(&["Ctrl+1"]));
            assert_eq!(hotkeys.hotkey_editor_tool_number_marker, strings(&["N"]));
            assert_eq!(uploaders.uploaders, vec![1, 2]);
        }
        other => panic!("settings were expected: {other:?}"),
    }
    assert!(!app.settings_open);
}

#[test]
fn a_session_that_cannot_be_loaded_keeps_settings_open() {
    let mut app = App::new(false);
    app.open_settings();
    let open = || SettingsResult::<u8>::OpenSession("s".to_string());
    let stay = app.close_settings(open(), Err("broken".to_string()), kept());
    assert!(matches!(stay, Closing::Stay(e) if e.ends_with("\nbroken")));
    assert!(app.settings_open);
    let go = app.close_settings(open(), Ok(()), kept());
    assert!(matches!(go, Closing::Launch(s) if s == "s"));
    assert!(!app.settings_open);
    app.open_settings();
    let nothing = app.close_settings(SettingsResult::<u8>::Cancelled, Ok(()), kept());
    assert!(matches!(nothing, Closing::Nothing));
}

#[test]
fn urls_are_joined_line_by_line() {
    assert_eq!(joined_urls(&vec![]), None);
    assert_eq!(joined_urls(&strings(&["a", "b"])), Some("a\nb".to_string()));
    assert!(same_text("ab", "ab") && !same_text("ab", "a") && !same_text("ab", "aB"));
}

/// A PNG file of one pixel.
fn png(pixel: [u8; 4]) -> Vec<u8> {
    let img = image::RgbaImage::from_raw(1, 1, pixel.to_vec()).unwrap();
    let mut out = std::io::Cursor::new(Vec::new());
    img.write_to(&mut out, image::ImageFormat::Png).unwrap();
    out.into_inner()
}

#[test]
fn the_icon_is_decoded() {
    let icon = load_tray_icon(&png([10, 20, 30, 255])).unwrap();
    assert_eq!((icon.width, icon.height), (1, 1));
    assert_eq!(icon.rgba, vec![10, 20, 30, 255]);
    assert_eq!(load_tray_icon(b"no picture").unwrap_err(), IconError::Undecodable);
    let short = Shot {
        width: 2,
        height: 2,
        rgba: vec![0; 4],
    };
    assert_eq!(icon_of(Some(short)).unwrap_err(), IconError::WrongSize);
    assert_eq!(icon_of(None).unwrap_err(), IconError::Undecodable);
}

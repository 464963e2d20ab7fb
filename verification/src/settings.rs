//! The settings: what is kept on disk, and what closing the settings screen
//! does.

use vstd::prelude::*;

use crate::keys::HotkeyConfig;
use crate::resident::{App, AppModel};

verus! {

/// The general settings.
#[derive(Debug)]
pub struct Config {
    pub save_dir_png: String,
    pub save_dir_mp4: String,
    pub save_dir_gif: String,
    pub external_editor: String,
    pub record_show_cursor: bool,
    pub record_bitrate_mbps: u32,
    pub record_max_width: u32,
    pub record_max_height: u32,
    pub record_show_click_ripple: bool,
    pub record_click_color_left: u32,
    pub record_click_color_right: u32,
    pub record_audio_output_device: String,
    pub record_audio_input_device: String,
    pub record_audio_sample_rate: u32,
    pub record_strip_silent_audio: bool,
    pub session_history_limit: u32,
    pub launch_at_startup: bool,
    pub filename_format: String,
    /// What the settings screen does not show.
    pub kept: KeptConfig,
}

/// The general settings that the settings screen does not show.
#[derive(Clone, Debug)]
pub struct KeptConfig {
    pub record_format: String,
    pub record_fps: u32,
    pub record_fps_presets: Vec<u32>,
    pub record_desktop_audio: bool,
    pub record_mic: bool,
    /// The time of the last update check.
    pub last_update_check: i64,
}

/// The places to upload to.
#[derive(Debug)]
pub struct UploaderConfig<U> {
    pub uploaders: Vec<U>,
}

/// What the settings screen saves.
#[derive(Debug)]
pub struct SavedSettings<U> {
    pub hotkey: Vec<String>,
    pub save_dir_png: String,
    pub save_dir_mp4: String,
    pub save_dir_gif: String,
    pub external_editor: String,
    pub record_show_cursor: bool,
    pub record_bitrate_mbps: u32,
    pub record_max_width: u32,
    pub record_max_height: u32,
    pub record_show_click_ripple: bool,
    pub record_click_color_left: u32,
    pub record_click_color_right: u32,
    pub record_audio_output_device: String,
    pub record_audio_input_device: String,
    pub record_audio_sample_rate: u32,
    pub record_strip_silent_audio: bool,
    pub uploaders: Vec<U>,
    pub hotkey_undo: Vec<String>,
    pub hotkey_redo: Vec<String>,
    pub hotkey_reuse_region: Vec<String>,
    pub hotkey_clear_selection: Vec<String>,
    pub hotkey_save_as: Vec<String>,
    pub hotkey_edit_external: Vec<String>,
    pub hotkey_quit: Vec<String>,
    pub hotkey_menu_save: Vec<String>,
    pub hotkey_menu_copy: Vec<String>,
    pub hotkey_menu_edit: Vec<String>,
    pub hotkey_menu_upload: Vec<String>,
    pub hotkey_menu_record: Vec<String>,
    pub hotkey_editor_reset_zoom: Vec<String>,
    pub hotkey_editor_tool_select: Vec<String>,
    pub hotkey_editor_tool_arrow: Vec<String>,
    pub hotkey_editor_tool_polyline: Vec<String>,
    pub hotkey_editor_tool_draw: Vec<String>,
    pub hotkey_editor_tool_rect: Vec<String>,
    pub hotkey_editor_tool_ellipse: Vec<String>,
    pub hotkey_editor_tool_text: Vec<String>,
    pub hotkey_editor_tool_number_marker: Vec<String>,
    pub session_history_limit: u32,
    pub launch_at_startup: bool,
    pub filename_format: String,
}

impl<U> SavedSettings<U> {
    /// The general settings, with what the screen does not show kept.
    pub open spec fn config(self, kept: KeptConfig) -> Config {
        Config {
            save_dir_png: self.save_dir_png,
            save_dir_mp4: self.save_dir_mp4,
            save_dir_gif: self.save_dir_gif,
            external_editor: self.external_editor,
            record_show_cursor: self.record_show_cursor,
            record_bitrate_mbps: self.record_bitrate_mbps,
            record_max_width: self.record_max_width,
            record_max_height: self.record_max_height,
            record_show_click_ripple: self.record_show_click_ripple,
            record_click_color_left: self.record_click_color_left,
            record_click_color_right: self.record_click_color_right,
            record_audio_output_device: self.record_audio_output_device,
            record_audio_input_device: self.record_audio_input_device,
            record_audio_sample_rate: self.record_audio_sample_rate,
            record_strip_silent_audio: self.record_strip_silent_audio,
            session_history_limit: self.session_history_limit,
            launch_at_startup: self.launch_at_startup,
            filename_format: self.filename_format,
            kept,
        }
    }

    /// The keys.
    pub open spec fn hotkeys(self) -> HotkeyConfig {
        HotkeyConfig {
            hotkey: self.hotkey,
            hotkey_undo: self.hotkey_undo,
            hotkey_redo: self.hotkey_redo,
            hotkey_reuse_region: self.hotkey_reuse_region,
            hotkey_clear_selection: self.hotkey_clear_selection,
            hotkey_save_as: self.hotkey_save_as,
            hotkey_edit_external: self.hotkey_edit_external,
            hotkey_quit: self.hotkey_quit,
            hotkey_menu_save: self.hotkey_menu_save,
            hotkey_menu_copy: self.hotkey_menu_copy,
            hotkey_menu_edit: self.hotkey_menu_edit,
            hotkey_menu_upload: self.hotkey_menu_upload,
            hotkey_menu_record: self.hotkey_menu_record,
            hotkey_editor_reset_zoom: self.hotkey_editor_reset_zoom,
            hotkey_editor_tool_select: self.hotkey_editor_tool_select,
            hotkey_editor_tool_arrow: self.hotkey_editor_tool_arrow,
            hotkey_editor_tool_polyline: self.hotkey_editor_tool_polyline,
            hotkey_editor_tool_draw: self.hotkey_editor_tool_draw,
            hotkey_editor_tool_rect: self.hotkey_editor_tool_rect,
            hotkey_editor_tool_ellipse: self.hotkey_editor_tool_ellipse,
            hotkey_editor_tool_text: self.hotkey_editor_tool_text,
            hotkey_editor_tool_number_marker: self.hotkey_editor_tool_number_marker,
        }
    }
}

/// How the settings screen was left.
#[derive(Debug)]
pub enum SettingsResult<U> {
    Saved(SavedSettings<U>),
    /// An earlier editing session was chosen, by its folder.
    OpenSession(String),
    Cancelled,
}

/// What closing the settings screen asks for.
#[derive(Debug)]
pub enum Closing<U> {
    /// The session cannot be opened: say why, and leave the screen open.
    Stay(String),
    Apply { config: Config, hotkeys: HotkeyConfig, uploaders: UploaderConfig<U> },
    /// Open the editor on a session.
    Launch(String),
    Nothing,
}

/// Why a session cannot be opened.
pub open spec fn unloadable_text(error: Seq<char>) -> Seq<char> {
    "セッションを読み込めませんでした\n"@ + error
}

/// Separates what was saved by where it is kept.
pub fn split_settings<U>(saved: SavedSettings<U>, kept: KeptConfig) -> (parts: (
    Config,
    HotkeyConfig,
    UploaderConfig<U>,
))
    ensures
        parts.0 == saved.config(kept),
        parts.1 == saved.hotkeys(),
        parts.2 == (UploaderConfig { uploaders: saved.uploaders }),
{
    let config = Config {
        save_dir_png: saved.save_dir_png,
        save_dir_mp4: saved.save_dir_mp4,
        save_dir_gif: saved.save_dir_gif,
        external_editor: saved.external_editor,
        record_show_cursor: saved.record_show_cursor,
        record_bitrate_mbps: saved.record_bitrate_mbps,
        record_max_width: saved.record_max_width,
        record_max_height: saved.record_max_height,
        record_show_click_ripple: saved.record_show_click_ripple,
        record_click_color_left: saved.record_click_color_left,
        record_click_color_right: saved.record_click_color_right,
        record_audio_output_device: saved.record_audio_output_device,
        record_audio_input_device: saved.record_audio_input_device,
        record_audio_sample_rate: saved.record_audio_sample_rate,
        record_strip_silent_audio: saved.record_strip_silent_audio,
        session_history_limit: saved.session_history_limit,
        launch_at_startup: saved.launch_at_startup,
        filename_format: saved.filename_format,
        kept,
    };
    let hotkeys = HotkeyConfig {
        hotkey: saved.hotkey,
        hotkey_undo: saved.hotkey_undo,
        hotkey_redo: saved.hotkey_redo,
        hotkey_reuse_region: saved.hotkey_reuse_region,
        hotkey_clear_selection: saved.hotkey_clear_selection,
        hotkey_save_as: saved.hotkey_save_as,
        hotkey_edit_external: saved.hotkey_edit_external,
        hotkey_quit: saved.hotkey_quit,
        hotkey_menu_save: saved.hotkey_menu_save,
        hotkey_menu_copy: saved.hotkey_menu_copy,
        hotkey_menu_edit: saved.hotkey_menu_edit,
        hotkey_menu_upload: saved.hotkey_menu_upload,
        hotkey_menu_record: saved.hotkey_menu_record,
        hotkey_editor_reset_zoom: saved.hotkey_editor_reset_zoom,
        hotkey_editor_tool_select: saved.hotkey_editor_tool_select,
        hotkey_editor_tool_arrow: saved.hotkey_editor_tool_arrow,
        hotkey_editor_tool_polyline: saved.hotkey_editor_tool_polyline,
        hotkey_editor_tool_draw: saved.hotkey_editor_tool_draw,
        hotkey_editor_tool_rect: saved.hotkey_editor_tool_rect,
        hotkey_editor_tool_ellipse: saved.hotkey_editor_tool_ellipse,
        hotkey_editor_tool_text: saved.hotkey_editor_tool_text,
        hotkey_editor_tool_number_marker: saved.hotkey_editor_tool_number_marker,
    };
    (config, hotkeys, UploaderConfig { uploaders: saved.uploaders })
}

impl App {
    /// Closes the settings screen. What was saved is applied, an earlier
    /// session is opened in the editor. A session that cannot be loaded, as
    /// `loadable` tells, leaves the screen open.
    pub fn close_settings<U>(
        &mut self,
        result: SettingsResult<U>,
        loadable: Result<(), String>,
        kept: KeptConfig,
    ) -> (closing: Closing<U>)
        requires
            old(self)@.wf(),
        ensures
            final(self)@.wf(),
            match (result, loadable) {
                (SettingsResult::OpenSession(_), Err(e)) => final(self)@ == old(self)@ && (
                closing matches Closing::Stay(text) && text@ == unloadable_text(e@)),
                (SettingsResult::OpenSession(dir), Ok(_)) => final(self)@ == (AppModel {
                    settings_open: false,
                    ..old(self)@
                }) && closing == Closing::<U>::Launch(dir),
                (SettingsResult::Saved(saved), _) => final(self)@ == (AppModel {
                    settings_open: false,
                    ..old(self)@
                }) && closing == (Closing::Apply {
                    config: saved.config(kept),
                    hotkeys: saved.hotkeys(),
                    uploaders: UploaderConfig { uploaders: saved.uploaders },
                }),
                (SettingsResult::Cancelled, _) => final(self)@ == (AppModel {
                    settings_open: false,
                    ..old(self)@
                }) && closing == Closing::<U>::Nothing,
            },
    {
        match result {
            SettingsResult::OpenSession(dir) => match loadable {
                Err(e) => {
                    let mut text = "セッションを読み込めませんでした\n".to_string();
                    text.append(e.as_str());
                    Closing::Stay(text)
                },
                Ok(_) => {
                    self.settings_open = false;
                    Closing::Launch(dir)
                },
            },
            SettingsResult::Saved(saved) => {
                self.settings_open = false;
                let (config, hotkeys, uploaders) = split_settings(saved, kept);
                Closing::Apply { config, hotkeys, uploaders }
            },
            SettingsResult::Cancelled => {
                self.settings_open = false;
                Closing::Nothing
            },
        }
    }
}

} // verus!

//! The user's settings.

use vstd::prelude::*;

use crate::filename::{
    default_dir, default_screenshot_dir, expand_dir, expanded, in_dir, join_path, text_of,
};
use crate::monitors::Rect;
use crate::text::same;

verus! {

/// The frame rate of a recording, unless another is chosen: a declared rate that
/// the encoder cannot sustain shows as stutter.
pub const DEFAULT_FPS: u32 = 30;

#[derive(Debug)]
pub struct Settings {
    pub hotkey: String,
    pub screenshot_dir: String,
    pub format: String,
    pub start_with_windows: bool,
    pub show_thumbnail: bool,
    pub thumbnail_duration_secs: u32,
    pub thumbnail_size: String,
    pub thumbnail_position: String,
    pub copy_to_clipboard: bool,
    pub keep_after_drag: bool,
    /// Hide the thumbnail as soon as a drag is successfully dropped anywhere.
    pub hide_after_drop: bool,
    /// Pause after capture with the annotation editor before showing the
    /// thumbnail.
    pub show_editor_after_capture: bool,
    pub max_history: usize,
    pub confirm_delete: bool,
    /// Close button sends the app to the tray instead of quitting.
    pub close_to_tray: bool,
    /// Global hotkey: capture a region and copy the recognized text (OCR).
    pub ocr_hotkey: String,
    /// Seconds to wait after selecting the area before the shot fires, when
    /// Shift is held. 0 = Shift does nothing.
    pub capture_delay_secs: u32,
    /// Global hotkey: re-open the selection overlay on the last captured
    /// region.
    pub last_area_hotkey: String,
    /// Global hotkey: select a region on screen and video-record it.
    pub video_hotkey: String,
    /// Frames per second of a recording.
    pub video_fps: u32,
    /// The most recently captured region; none until the first screenshot.
    pub last_area: Option<LastArea>,
}

/// A previously captured region, in physical virtual-screen coordinates.
#[derive(Clone, Copy, Debug, PartialEq, Eq, Structural)]
pub struct LastArea {
    pub x: i32,
    pub y: i32,
    pub width: i32,
    pub height: i32,
}

impl LastArea {
    /// The area that a rectangle covers.
    pub open spec fn covers(self, r: Rect) -> bool {
        &&& self.x == r.left && self.y == r.top
        &&& self.width == r.width() && self.height == r.height()
    }

    pub fn of(r: &Rect) -> (a: LastArea)
        requires
            i32::MIN <= r.width() <= i32::MAX,
            i32::MIN <= r.height() <= i32::MAX,
        ensures
            a.covers(*r),
    {
        LastArea { x: r.left, y: r.top, width: r.right - r.left, height: r.bottom - r.top }
    }

    /// Whether the area has coordinates that can be written down.
    pub open spec fn on_screen(self) -> bool {
        &&& i32::MIN <= self.x + self.width <= i32::MAX
        &&& i32::MIN <= self.y + self.height <= i32::MAX
    }

    pub fn is_on_screen(&self) -> (b: bool)
        ensures
            b == self.on_screen(),
    {
        let r: i64 = self.x as i64 + self.width as i64;
        let b: i64 = self.y as i64 + self.height as i64;
        i32::MIN as i64 <= r && r <= i32::MAX as i64 && i32::MIN as i64 <= b && b <= i32::MAX as i64
    }

    pub fn rect(&self) -> (r: Rect)
        requires
            self.on_screen(),
        ensures
            self.covers(r),
    {
        Rect { left: self.x, top: self.y, right: self.x + self.width, bottom: self.y + self.height }
    }
}

/// An area and the rectangle it was made from determine each other.
pub proof fn law_last_area_keeps_the_rectangle(a: LastArea, r: Rect, q: Rect)
    requires
        a.covers(r),
        a.covers(q),
    ensures
        r == q,
{
}

impl Settings {
    /// The settings of a fresh installation.
    pub open spec fn is_default(self, profile: Option<Seq<char>>) -> bool {
        &&& self.hotkey@ == "Ctrl+Shift+4"@
        &&& self.screenshot_dir@ == default_dir(profile)
        &&& self.format@ == "png"@
        &&& self.start_with_windows && self.show_thumbnail
        &&& self.thumbnail_duration_secs == 0
        &&& self.thumbnail_size@ == "medium"@
        &&& self.thumbnail_position@ == "bottom_left"@
        &&& self.copy_to_clipboard && self.keep_after_drag && self.hide_after_drop
        &&& self.show_editor_after_capture
        &&& self.max_history == 10
        &&& !self.confirm_delete && self.close_to_tray
        &&& self.ocr_hotkey@ == "Ctrl+Shift+5"@
        &&& self.capture_delay_secs == 3
        &&& self.last_area_hotkey@ == "Ctrl+Alt+4"@
        &&& self.video_hotkey@ == "Ctrl+Alt+V"@
        &&& self.video_fps == DEFAULT_FPS
        &&& self.last_area is None
    }

    /// Whether two settings hold the same values.
    pub open spec fn same(self, other: Settings) -> bool {
        &&& self.hotkey@ == other.hotkey@
        &&& self.screenshot_dir@ == other.screenshot_dir@
        &&& self.format@ == other.format@
        &&& self.start_with_windows == other.start_with_windows
        &&& self.show_thumbnail == other.show_thumbnail
        &&& self.thumbnail_duration_secs == other.thumbnail_duration_secs
        &&& self.thumbnail_size@ == other.thumbnail_size@
        &&& self.thumbnail_position@ == other.thumbnail_position@
        &&& self.copy_to_clipboard == other.copy_to_clipboard
        &&& self.keep_after_drag == other.keep_after_drag
        &&& self.hide_after_drop == other.hide_after_drop
        &&& self.show_editor_after_capture == other.show_editor_after_capture
        &&& self.max_history == other.max_history
        &&& self.confirm_delete == other.confirm_delete
        &&& self.close_to_tray == other.close_to_tray
        &&& self.ocr_hotkey@ == other.ocr_hotkey@
        &&& self.capture_delay_secs == other.capture_delay_secs
        &&& self.last_area_hotkey@ == other.last_area_hotkey@
        &&& self.video_hotkey@ == other.video_hotkey@
        &&& self.video_fps == other.video_fps
        &&& self.last_area == other.last_area
    }

    /// The settings of a fresh installation for a user with the given profile
    /// directory.
    pub fn default_for(profile: Option<&str>) -> (s: Settings)
        ensures
            s.is_default(text_of(profile)),
    {
        Settings {
            hotkey: "Ctrl+Shift+4".to_owned(),
            screenshot_dir: default_screenshot_dir(profile),
            format: "png".to_owned(),
            start_with_windows: true,
            show_thumbnail: true,
            thumbnail_duration_secs: 0,
            thumbnail_size: "medium".to_owned(),
            thumbnail_position: "bottom_left".to_owned(),
            copy_to_clipboard: true,
            keep_after_drag: true,
            hide_after_drop: true,
            show_editor_after_capture: true,
            max_history: 10,
            confirm_delete: false,
            close_to_tray: true,
            ocr_hotkey: "Ctrl+Shift+5".to_owned(),
            capture_delay_secs: 3,
            last_area_hotkey: "Ctrl+Alt+4".to_owned(),
            video_hotkey: "Ctrl+Alt+V".to_owned(),
            video_fps: DEFAULT_FPS,
            last_area: None,
        }
    }
}

impl Clone for Settings {
    fn clone(&self) -> (s: Settings)
        ensures
            s.same(*self),
    {
        Settings {
            hotkey: self.hotkey.clone(),
            screenshot_dir: self.screenshot_dir.clone(),
            format: self.format.clone(),
            start_with_windows: self.start_with_windows,
            show_thumbnail: self.show_thumbnail,
            thumbnail_duration_secs: self.thumbnail_duration_secs,
            thumbnail_size: self.thumbnail_size.clone(),
            thumbnail_position: self.thumbnail_position.clone(),
            copy_to_clipboard: self.copy_to_clipboard,
            keep_after_drag: self.keep_after_drag,
            hide_after_drop: self.hide_after_drop,
            show_editor_after_capture: self.show_editor_after_capture,
            max_history: self.max_history,
            confirm_delete: self.confirm_delete,
            close_to_tray: self.close_to_tray,
            ocr_hotkey: self.ocr_hotkey.clone(),
            capture_delay_secs: self.capture_delay_secs,
            last_area_hotkey: self.last_area_hotkey.clone(),
            video_hotkey: self.video_hotkey.clone(),
            video_fps: self.video_fps,
            last_area: self.last_area,
        }
    }
}

impl Default for Settings {
    fn default() -> (s: Settings)
        ensures
            s.is_default(None),
    {
        Settings::default_for(None)
    }
}

/// The settings in force.
pub struct SettingsState(pub Settings);

/// Where the settings are kept: in the app's configuration directory, or in
/// the current one where that is not known.
pub fn settings_path(config_dir: Option<&str>) -> (r: String)
    ensures
        r@ == in_dir(
            match config_dir {
                Some(d) => d@,
                None => "."@,
            },
            "settings.json"@,
        ),
{
    match config_dir {
        Some(d) => join_path(d, "settings.json"),
        None => join_path(".", "settings.json"),
    }
}

/// Starts with the stored settings, or the defaults where there are none that
/// can be read. The second part says whether the app is to be registered to
/// start with Windows.
pub fn init(stored: Option<Settings>, profile: Option<&str>) -> (r: (SettingsState, bool))
    ensures
        match stored {
            Some(s) => r.0.0 == s,
            None => r.0.0.is_default(text_of(profile)),
        },
        r.1 == r.0.0.start_with_windows,
{
    let s = match stored {
        Some(s) => s,
        None => Settings::default_for(profile),
    };
    let autostart = s.start_with_windows;
    (SettingsState(s), autostart)
}

/// The settings in force; before they were loaded, the stored ones or the
/// defaults.
pub fn get(state: Option<&SettingsState>, stored: Option<Settings>, profile: Option<&str>) -> (s:
    Settings)
    ensures
        match (state, stored) {
            (Some(st), _) => s.same(st.0),
            (None, Some(t)) => s == t,
            (None, None) => s.is_default(text_of(profile)),
        },
{
    match state {
        Some(st) => st.0.clone(),
        None => match stored {
            Some(t) => t,
            None => Settings::default_for(profile),
        },
    }
}

/// Puts settings into force once they were stored; where that failed, the old
/// ones stay.
pub fn save(state: &mut SettingsState, settings: &Settings, stored: Result<(), String>) -> (r:
    Result<(), String>)
    ensures
        match stored {
            Ok(_) => r is Ok && final(state).0.same(*settings),
            Err(e) => r == Err::<(), String>(e) && final(state).0 == old(state).0,
        },
{
    match stored {
        Ok(_) => {
            state.0 = settings.clone();
            Ok(())
        },
        Err(e) => Err(e),
    }
}

/// The directory that screenshots go to: the configured one if it can be
/// written to, else the default.
pub fn resolved_dir(settings: &Settings, profile: Option<&str>, writable: bool) -> (r: String)
    ensures
        r@ == (if writable {
            expanded(settings.screenshot_dir@, text_of(profile))
        } else {
            default_dir(text_of(profile))
        }),
{
    if writable {
        expand_dir(settings.screenshot_dir.as_str(), profile)
    } else {
        default_screenshot_dir(profile)
    }
}

/// Whether screenshots go to another directory than the configured one, which
/// the user is told about.
pub fn fell_back(settings: &Settings, profile: Option<&str>, dir: &str) -> (r: bool)
    ensures
        r == (expanded(settings.screenshot_dir@, text_of(profile)) != dir@),
{
    let wanted = expand_dir(settings.screenshot_dir.as_str(), profile);
    !same(wanted.as_str(), dir)
}

/// A remembered area has its corner and its far edges where the rectangle has
/// them.
pub proof fn law_last_area_edges(a: LastArea, r: Rect)
    ensures
        a.covers(r) == (a.x == r.left && a.y == r.top && a.x + a.width == r.right && a.y + a.height
            == r.bottom),
{
}

/// Settings that are the same agree in every value: none is lost when they are
/// put into force and read again.
pub proof fn law_same_settings_agree(a: Settings, b: Settings)
    requires
        a.same(b),
    ensures
        a.hotkey@ == b.hotkey@ && a.ocr_hotkey@ == b.ocr_hotkey@,
        a.last_area_hotkey@ == b.last_area_hotkey@ && a.video_hotkey@ == b.video_hotkey@,
        a.screenshot_dir@ == b.screenshot_dir@ && a.format@ == b.format@,
        a.start_with_windows == b.start_with_windows && a.show_thumbnail == b.show_thumbnail,
        a.thumbnail_duration_secs == b.thumbnail_duration_secs,
        a.thumbnail_size@ == b.thumbnail_size@ && a.thumbnail_position@ == b.thumbnail_position@,
        a.copy_to_clipboard == b.copy_to_clipboard && a.keep_after_drag == b.keep_after_drag,
        a.hide_after_drop == b.hide_after_drop,
        a.show_editor_after_capture == b.show_editor_after_capture,
        a.max_history == b.max_history && a.confirm_delete == b.confirm_delete,
        a.close_to_tray == b.close_to_tray && a.capture_delay_secs == b.capture_delay_secs,
        a.video_fps == b.video_fps && a.last_area == b.last_area,
        b.same(a),
{
}

/// A fresh installation starts with Windows, shows thumbnails and the editor,
/// copies captures, keeps dragged files, stays in the tray, and has its four
/// hotkeys; nothing is remembered yet.
pub proof fn law_fresh_settings(s: Settings, profile: Option<Seq<char>>)
    requires
        s.is_default(profile),
    ensures
        s.hotkey@ == "Ctrl+Shift+4"@ && s.ocr_hotkey@ == "Ctrl+Shift+5"@,
        s.last_area_hotkey@ == "Ctrl+Alt+4"@ && s.video_hotkey@ == "Ctrl+Alt+V"@,
        s.screenshot_dir@ == default_dir(profile) && s.format@ == "png"@,
        s.start_with_windows && s.show_thumbnail && s.show_editor_after_capture,
        s.copy_to_clipboard && s.keep_after_drag && s.hide_after_drop && s.close_to_tray,
        !s.confirm_delete && s.last_area is None,
        s.thumbnail_duration_secs == 0 && s.max_history == 10,
        s.thumbnail_size@ == "medium"@ && s.thumbnail_position@ == "bottom_left"@,
        s.capture_delay_secs == 3 && s.video_fps == 30,
{
}

} // verus!

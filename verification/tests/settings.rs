use snapdrop::commands::{get_settings, update_settings, HotkeyKind, UpdateStep};
use snapdrop::monitors::Rect;
use snapdrop::settings::{
    fell_back, get, init, resolved_dir, save, settings_path, LastArea, Settings, SettingsState,
};

#[test]
fn defaults_are_sane() {
    let s = Settings::default();
    assert_eq!(s.hotkey, "Ctrl+Shift+4");
    assert!(s.screenshot_dir.contains("Pictures"));
    assert_eq!(s.max_history, 10);
    assert!(s.copy_to_clipboard);
    assert!(s.start_with_windows);
    assert_eq!(s.last_area_hotkey, "Ctrl+Alt+4");
    assert_eq!(s.video_hotkey, "Ctrl+Alt+V");
    assert!(s.last_area.is_none());
}

#[test]
fn defaults_live_in_the_profile() {
    let s = Settings::default_for(Some("C:\\Users\\me"));
    assert_eq!(s.screenshot_dir, "C:\\Users\\me\\Pictures\\SnapDrop");
    assert_eq!(Settings::default().screenshot_dir, "Pictures\\SnapDrop");
    assert_eq!(s.ocr_hotkey, "Ctrl+Shift+5");
    assert_eq!((s.capture_delay_secs, s.video_fps), (3, 30));
    assert_eq!(s.thumbnail_size, "medium");
    assert_eq!(s.thumbnail_position, "bottom_left");
}

#[test]
fn areas_and_rectangles_go_together() {
    let r = Rect { left: -100, top: 20, right: 540, bottom: 500 };
    let a = LastArea::of(&r);
    assert_eq!(a, LastArea { x: -100, y: 20, width: 640, height: 480 });
    assert!(a.is_on_screen());
    assert_eq!(a.rect(), r);
    assert!(!LastArea { x: i32::MAX, y: 0, width: 1, height: 1 }.is_on_screen());
}

#[test]
fn stored_settings_are_taken() {
    let mut stored = Settings::default();
    stored.start_with_windows = false;
    stored.hotkey = "Alt+q".to_string();
    let (st, autostart) = init(Some(stored), None);
    assert!(!autostart);
    assert_eq!(get(Some(&st), None, None).hotkey, "Alt+q");
    let (_, autostart) = init(None, None);
    assert!(autostart);
    assert_eq!(get(None, None, Some("P")).screenshot_dir, "P\\Pictures\\SnapDrop");
    let other = Settings { hotkey: "Alt+w".to_string(), ..Settings::default() };
    assert_eq!(get(None, Some(other), None).hotkey, "Alt+w");
}

#[test]
fn failed_storing_keeps_the_old_settings() {
    let mut st = SettingsState(Settings::default());
    let new = Settings { max_history: 3, ..Settings::default() };
    assert_eq!(save(&mut st, &new, Err("disk full".to_string())).unwrap_err(), "disk full");
    assert_eq!(st.0.max_history, 10);
    assert!(save(&mut st, &new, Ok(())).is_ok());
    assert_eq!(st.0.max_history, 3);
}

#[test]
fn an_unusable_directory_gives_way_to_the_default() {
    let mut s = Settings::default();
    s.screenshot_dir = " %USERPROFILE%\\Shots ".to_string();
    let p = Some("C:\\Users\\me");
    assert_eq!(resolved_dir(&s, p, true), "C:\\Users\\me\\Shots");
    assert_eq!(resolved_dir(&s, p, false), "C:\\Users\\me\\Pictures\\SnapDrop");
    assert!(!fell_back(&s, p, "C:\\Users\\me\\Shots"));
    assert!(fell_back(&s, p, "C:\\Users\\me\\Pictures\\SnapDrop"));
    let shown = get_settings(&s, p);
    assert_eq!(shown.screenshot_dir, "C:\\Users\\me\\Shots");
    assert_eq!(shown.hotkey, s.hotkey);
}

#[test]
fn settings_have_a_place() {
    assert_eq!(settings_path(Some("C:\\cfg")), "C:\\cfg\\settings.json");
    assert_eq!(settings_path(None), ".\\settings.json");
}

#[test]
fn settings_are_taken_step_by_step() {
    let old = Settings::default();
    let mut new = Settings::default();
    let ok = || -> Result<(), String> { Ok(()) };
    assert_eq!(update_settings(&old, &new, UpdateStep::CheckDir, ok()), Ok(UpdateStep::Save));
    assert_eq!(update_settings(&old, &new, UpdateStep::Save, ok()), Ok(UpdateStep::Done));
    new.hotkey = "Alt+1".to_string();
    new.ocr_hotkey = "Alt+2".to_string();
    new.last_area_hotkey = "Alt+3".to_string();
    new.video_hotkey = "Alt+4".to_string();
    new.start_with_windows = false;
    let mut step = UpdateStep::CheckDir;
    let mut steps = Vec::new();
    while step != UpdateStep::Done {
        step = update_settings(&old, &new, step, ok()).unwrap();
        steps.push(step);
    }
    assert_eq!(
        steps,
        vec![
            UpdateStep::Hotkey(HotkeyKind::Capture),
            UpdateStep::Hotkey(HotkeyKind::Ocr),
            UpdateStep::Hotkey(HotkeyKind::LastArea),
            UpdateStep::Hotkey(HotkeyKind::Video),
            UpdateStep::Autostart(false),
            UpdateStep::Save,
            UpdateStep::Done,
        ]
    );
}

#[test]
fn a_failed_step_ends_the_change() {
    let old = Settings::default();
    let mut new = Settings::default();
    new.start_with_windows = false;
    let bad = || -> Result<(), String> { Err("no".to_string()) };
    assert_eq!(update_settings(&old, &new, UpdateStep::CheckDir, bad()), Err("no".to_string()));
    assert_eq!(
        update_settings(&old, &new, UpdateStep::Hotkey(HotkeyKind::Ocr), bad()),
        Err("no".to_string())
    );
    assert_eq!(update_settings(&old, &new, UpdateStep::Save, bad()), Err("no".to_string()));
    assert_eq!(
        update_settings(&old, &new, UpdateStep::Autostart(false), bad()),
        Ok(UpdateStep::Save)
    );
}

use snapdrop::hotkey::{
    apply_settings, capture_done, conflict_toast, current, esc_pressed, esc_registered, init,
    parse_shortcut, pause, plan_change, register_esc_hotkey, shortcut_to_string, trigger_capture,
    Code, CurrentShortcut, EscAction, Modifiers, PauseAction, Shortcut,
};
use snapdrop::settings::Settings;

#[test]
fn parse_default_hotkey() {
    let sc = parse_shortcut("Ctrl+Shift+4").unwrap();
    assert!(sc.mods.contains(Modifiers::CONTROL));
    assert!(sc.mods.contains(Modifiers::SHIFT));
    assert_eq!(sc.key, Code::Digit4);
    assert_eq!(shortcut_to_string(&sc), "Ctrl+Shift+4");
}

#[test]
fn parse_alt_forms() {
    let sc = parse_shortcut("Alt+F2").unwrap();
    assert!(sc.mods.contains(Modifiers::ALT));
    assert_eq!(sc.key, Code::F2);
    let sc2 = parse_shortcut("win+shift+Space").unwrap();
    assert!(sc2.mods.contains(Modifiers::SUPER));
    assert_eq!(sc2.key, Code::Space);
}

#[test]
fn reject_bad_shortcut() {
    assert!(parse_shortcut("Ctrl+NotAKey").is_err());
    assert!(parse_shortcut("Ctrl+Shift").is_err());
}

#[test]
fn shortcut_errors_tell_what_is_wrong() {
    assert_eq!(parse_shortcut("Ctrl+NotAKey").unwrap_err(), "unknown key: notakey");
    assert_eq!(parse_shortcut("Ctrl+Shift").unwrap_err(), "missing key in shortcut: Ctrl+Shift");
    assert_eq!(parse_shortcut("a+b").unwrap_err(), "multiple keys in shortcut: a+b");
    assert_eq!(parse_shortcut("").unwrap_err(), "missing key in shortcut: ");
    // The unknown key is told before the second one.
    assert_eq!(parse_shortcut("a+nope").unwrap_err(), "unknown key: nope");
}

#[test]
fn blanks_and_case_do_not_matter() {
    let sc = parse_shortcut("  CONTROL + aLt ++ PageDown ").unwrap();
    assert!(sc.mods.contains(Modifiers::CONTROL) && sc.mods.contains(Modifiers::ALT));
    assert!(!sc.mods.contains(Modifiers::SHIFT) && !sc.mods.contains(Modifiers::SUPER));
    assert_eq!(sc.key, Code::PageDown);
    assert_eq!(shortcut_to_string(&sc), "Ctrl+Alt+PageDown");
}

#[test]
fn every_spelling_of_a_key_is_known() {
    let spellings: Vec<(&str, Code, &str)> = vec![
        ("esc", Code::Escape, "Esc"),
        ("Escape", Code::Escape, "Esc"),
        ("up", Code::ArrowUp, "Up"),
        ("arrowup", Code::ArrowUp, "Up"),
        ("left", Code::ArrowLeft, "Left"),
        ("ArrowRight", Code::ArrowRight, "Right"),
        ("down", Code::ArrowDown, "Down"),
        ("`", Code::Backquote, "`"),
        ("\\", Code::Backslash, "\\"),
        ("'", Code::Quote, "'"),
        ("-", Code::Minus, "-"),
        ("f1", Code::F1, "F1"),
        ("f24", Code::F24, "F24"),
        ("A", Code::KeyA, "a"),
        ("9", Code::Digit9, "9"),
        ("insert", Code::Insert, "Insert"),
        ("delete", Code::Delete, "Delete"),
    ];
    for (text, key, shown) in spellings {
        let sc = parse_shortcut(text).unwrap();
        assert_eq!(sc.key, key);
        assert_eq!(shortcut_to_string(&sc), shown);
    }
    assert!(parse_shortcut("f25").is_err());
    assert!(parse_shortcut("f0").is_err());
}

#[test]
fn shown_shortcuts_are_read_back() {
    for text in ["Ctrl+Shift+Alt+Win+F12", "Win+z", "Alt+[", "Shift+Space", "5"] {
        let sc = parse_shortcut(text).unwrap();
        assert_eq!(shortcut_to_string(&sc), text);
        assert_eq!(parse_shortcut(&shortcut_to_string(&sc)).unwrap(), sc);
    }
}

#[test]
fn a_bad_setting_falls_back_to_the_default_hotkey() {
    let mut s = Settings::default();
    s.hotkey = "nonsense".to_string();
    let st = init(&s);
    assert_eq!(shortcut_to_string(&current(Some(&st)).unwrap()), "Ctrl+Shift+4");
    s.hotkey = "Alt+p".to_string();
    assert_eq!(shortcut_to_string(&init(&s).0.unwrap()), "Alt+p");
    assert!(current(None).is_none());
}

#[test]
fn only_one_capture_runs_at_a_time() {
    let mut capturing = false;
    assert!(trigger_capture(&mut capturing));
    assert!(!trigger_capture(&mut capturing));
    capture_done(&mut capturing);
    assert!(trigger_capture(&mut capturing));
}

#[test]
fn a_refused_hotkey_leaves_the_old_one() {
    let old = parse_shortcut("Ctrl+1").unwrap();
    let mut st = CurrentShortcut(Some(old));
    assert_eq!(plan_change(&st, "Ctrl").err().unwrap(), "missing key in shortcut: Ctrl");
    let change = plan_change(&st, "Ctrl+2").unwrap();
    assert_eq!(change.unregister, Some(old));
    let (again, r) = apply_settings(&mut st, &change, "Ctrl+2", Err("taken".to_string()));
    assert_eq!(again, Some(old));
    assert_eq!(r.unwrap_err(), "Could not register Ctrl+2: taken");
    assert_eq!(st.0, Some(old));
    let (again, r) = apply_settings(&mut st, &change, "Ctrl+2", Ok(()));
    assert!(again.is_none() && r.is_ok());
    assert_eq!(st.0, Some(parse_shortcut("Ctrl+2").unwrap()));
}

#[test]
fn pausing_unregisters_the_hotkey() {
    let sc = parse_shortcut("Ctrl+1").unwrap();
    let st = CurrentShortcut(Some(sc));
    assert_eq!(pause(&st, true), PauseAction::Unregister(sc));
    assert_eq!(pause(&st, false), PauseAction::Register(sc));
    assert_eq!(pause(&CurrentShortcut(None), true), PauseAction::Nothing);
}

#[test]
fn esc_dismisses_what_is_in_front() {
    assert_eq!(esc_pressed(true, true, true, true), EscAction::CancelOverlay);
    assert_eq!(esc_pressed(true, false, true, true), EscAction::CancelEditor);
    assert_eq!(esc_pressed(true, false, false, true), EscAction::HideThumbnail);
    assert_eq!(esc_pressed(true, false, false, false), EscAction::Nothing);
    assert_eq!(esc_pressed(false, true, true, true), EscAction::Nothing);
}

#[test]
fn esc_is_registered_once() {
    let mut registered = false;
    let sc: Shortcut = register_esc_hotkey(&mut registered).unwrap();
    assert_eq!(shortcut_to_string(&sc), "Esc");
    assert!(register_esc_hotkey(&mut registered).is_none());
    esc_registered(&mut registered, false);
    assert!(register_esc_hotkey(&mut registered).is_some());
}

#[test]
fn a_conflict_is_told() {
    let t = conflict_toast(&parse_shortcut("Ctrl+Shift+4").unwrap());
    assert_eq!(t.kind, "error");
    assert_eq!(
        t.message,
        "Hotkey Ctrl+Shift+4 is already in use by another app. Choose another in Settings."
    );
}

use snapdrop::debuglog::{
    init_path, log, log_path, new_session_id, open_previous, prev_ended_cleanly, previous_path,
    read, read_previous, rotation_marker, wall_clock,
};
use snapdrop::history::{default_kind, HistoryEntry};
use snapdrop::hotkey::parse_shortcut;
use snapdrop::lifecycle::{
    close_requested, hide_again, is_main_renderer_stale, note_main_renderer_ready, panic_message,
    startup_check, LoopReport, LoopWatch, MainRenderer, StartupCheck,
};
use snapdrop::tray::{build_menu, handle_menu_event, recent_path, toggle_pause, TrayAction};

fn entry(path: &str) -> HistoryEntry {
    HistoryEntry {
        path: path.to_string(),
        captured_at: String::new(),
        size_bytes: 0,
        width: 0,
        height: 0,
        kind: default_kind(),
        duration_secs: 0,
    }
}

#[test]
fn the_menu_lists_recent_captures() {
    let list = vec![entry("C:\\a\\one.png"), entry("two.png"), entry("C:\\x/three.png")];
    let m = build_menu(&list, Some(parse_shortcut("Alt+p").unwrap()), true, false);
    assert_eq!(m.capture.accelerator.as_deref(), Some("Alt+p"));
    let labels: Vec<&str> = m.recent.iter().map(|e| e.label.as_str()).collect();
    assert_eq!(labels, vec!["one.png", "two.png", "x/three.png"]);
    for (i, e) in m.recent.iter().enumerate() {
        assert_eq!(handle_menu_event(&e.id), TrayAction::ShowRecent(i));
    }
    assert_eq!(m.pause.label, "Resume Hotkey");
    assert_eq!(recent_path(&list, 1).as_deref(), Some("two.png"));
    assert!(recent_path(&list, 3).is_none());
}

#[test]
fn an_empty_menu_says_so() {
    let m = build_menu(&Vec::new(), None, false, false);
    assert_eq!(m.capture.accelerator.as_deref(), Some("Ctrl+Shift+4"));
    assert_eq!(m.recent.len(), 1);
    assert_eq!(m.recent[0].label, "No captures yet");
    assert!(!m.recent[0].enabled);
    assert_eq!(handle_menu_event(&m.recent[0].id), TrayAction::Nothing);
    assert_eq!(m.pause.label, "Pause Hotkey");
}

#[test]
fn a_recording_can_be_stopped_from_the_menu() {
    assert!(build_menu(&Vec::new(), None, false, false).stop_recording.is_none());
    let e = build_menu(&Vec::new(), None, false, true).stop_recording.unwrap();
    assert_eq!((e.label.as_str(), e.enabled), ("Stop Recording", true));
    assert_eq!(handle_menu_event(&e.id), TrayAction::StopRecording);
}

#[test]
fn menu_ids_have_actions() {
    assert_eq!(handle_menu_event("capture"), TrayAction::Capture);
    assert_eq!(handle_menu_event("settings"), TrayAction::ShowSettings);
    assert_eq!(handle_menu_event("about"), TrayAction::ShowSettings);
    assert_eq!(handle_menu_event("open_folder"), TrayAction::OpenFolder);
    assert_eq!(handle_menu_event("pause"), TrayAction::TogglePause);
    assert_eq!(handle_menu_event("exit"), TrayAction::Exit);
    assert_eq!(handle_menu_event("recent:12"), TrayAction::ShowRecent(12));
    assert_eq!(handle_menu_event("recent:"), TrayAction::Nothing);
    assert_eq!(handle_menu_event("recent:x"), TrayAction::Nothing);
    assert_eq!(handle_menu_event("other"), TrayAction::Nothing);
    let mut paused = false;
    assert!(toggle_pause(&mut paused));
    assert!(!toggle_pause(&mut paused));
}

#[test]
fn the_clock_is_read_modulo_a_day() {
    assert_eq!(wall_clock(0), "00:00:00");
    assert_eq!(wall_clock(86_399), "23:59:59");
    assert_eq!(wall_clock(86_400 + 3_661), "01:01:01");
}

#[test]
fn log_lines_and_sessions() {
    assert_eq!(log("+1.5s", "hello", None), ("[+1.5s] hello\n".to_string(), false));
    assert!(!log("", "", Some(2_097_152)).1);
    assert!(log("", "", Some(2_097_153)).1);
    assert_eq!(rotation_marker(), "--- log rotated (size cap 2MB) ---\n");
    assert_eq!(new_session_id(0xDEAD_BEEF), "00000000deadbeef");
    let (start, prev) = init_path("id", "10:00:00", Some(false));
    assert_eq!(start, "===== session start id=id (10:00:00) =====");
    assert!(prev.contains("UNCLEAN"));
    assert_eq!(init_path("id", "", Some(true)).1, "previous session: ended cleanly");
    assert!(init_path("id", "", None).1.contains("none"));
    assert_eq!(log_path(Some("C:\\c")), "C:\\c\\snapdrop-debug.log");
    assert_eq!(previous_path(None), ".\\snapdrop-debug.prev.log");
}

#[test]
fn a_clean_exit_leaves_its_mark() {
    let clean = b"x\n[1s] session end (clean exit)\n".to_vec();
    assert_eq!(prev_ended_cleanly(Some(&clean)), Some(true));
    assert_eq!(prev_ended_cleanly(Some(&b"crashed".to_vec())), Some(false));
    assert_eq!(prev_ended_cleanly(None), None);
    let mut old = clean;
    old.extend(vec![b'.'; 5000]);
    assert_eq!(prev_ended_cleanly(Some(&old)), Some(false));
}

#[test]
fn unreadable_logs_are_told() {
    assert_eq!(read("p", Ok("text".to_string())).unwrap(), "text");
    assert_eq!(read("p", Err("denied".to_string())).unwrap_err(), "Could not read p: denied");
    assert!(read_previous("p", false, Ok(String::new())).unwrap_err().starts_with("No previous"));
    assert_eq!(read_previous("p", true, Ok("t".to_string())).unwrap(), "t");
    assert_eq!(
        read_previous("p", true, Err("e".to_string())).unwrap_err(),
        "Could not read p: e"
    );
    assert_eq!(open_previous(false).unwrap_err(), "No previous session log yet.");
    assert!(open_previous(true).is_ok());
}

#[test]
fn the_page_is_stale_without_reports() {
    let mut r = MainRenderer::new();
    assert!(is_main_renderer_stale(&r, 5));
    assert_eq!(startup_check(&r, false), StartupCheck::Reload);
    assert_eq!(startup_check(&r, true), StartupCheck::StillDead);
    assert!(note_main_renderer_ready(&mut r, 1_000));
    assert!(!note_main_renderer_ready(&mut r, 1_000));
    assert_eq!(startup_check(&r, false), StartupCheck::Fine);
    assert_eq!(startup_check(&r, true), StartupCheck::Recovered);
    assert!(!is_main_renderer_stale(&r, 11_000));
    assert!(is_main_renderer_stale(&r, 11_001));
    assert!(!is_main_renderer_stale(&r, 0));
}

#[test]
fn a_silent_loop_is_reported_from_the_second_ping() {
    let mut w = LoopWatch::new();
    assert_eq!(w.tick(1, 1), LoopReport::Quiet);
    assert_eq!(w.tick(1, 2), LoopReport::Quiet);
    assert_eq!(w.tick(2, 2), LoopReport::Quiet);
    assert_eq!(w.tick(2, 2), LoopReport::Unresponsive);
    assert_eq!(w.tick(2, 2), LoopReport::StillUnresponsive(3));
    assert_eq!(w.tick(2, 3), LoopReport::Responsive);
    assert_eq!(w.missed, 0);
}

#[test]
fn windows_close_to_the_tray() {
    assert!(close_requested("main", true));
    assert!(!close_requested("main", false));
    assert!(!close_requested("editor", true));
    assert!(hide_again(None) && hide_again(Some(true)) && !hide_again(Some(false)));
    assert_eq!(panic_message(Some("a"), Some("b")), "a");
    assert_eq!(panic_message(None, Some("b")), "b");
    assert_eq!(panic_message(None, None), "unknown panic");
}

use snapdrop::capture::ImageBuf;
use snapdrop::capture_flow::{
    after_overlay, breakdown, finish_capture, hide_for_capture, prepare_capture, prepare_video,
    preview, region_failed, restore_main_window, run, run_last_area, run_text, run_video, text_copied,
    text_recognized, AfterOverlay, Flow, MainWindow, Presentation, Restore, TextOutcome,
};
use snapdrop::history::{FileFacts, HistoryState};
use snapdrop::monitors::Rect;
use snapdrop::overlay::Selection;
use snapdrop::settings::{LastArea, Settings};

fn selection(ctrl: bool) -> Selection {
    Selection {
        rect: Rect { left: 10, top: 20, right: 12, bottom: 21 },
        ctrl_held: ctrl,
        shift_held: false,
    }
}

fn picture() -> ImageBuf {
    ImageBuf { width: 2, height: 1, bgra: vec![1, 2, 3, 0, 4, 5, 6, 0] }
}

fn main_window() -> MainWindow {
    MainWindow { was_visible: true, was_minimized: false, has_window: true, has_handle: true }
}

fn facts() -> FileFacts {
    FileFacts { size: Some(77), dimensions: Some((2, 1)) }
}

#[test]
fn flows_open_the_overlay_their_way() {
    let mut s = Settings::default();
    s.show_editor_after_capture = true;
    s.capture_delay_secs = 7;
    let r = run(&s);
    assert!(r.editor_enabled && r.delay_secs == 7 && r.initial.is_none());
    assert!(run_last_area(&s).initial.is_none());
    s.last_area = Some(LastArea { x: 1, y: 2, width: 30, height: 40 });
    assert_eq!(
        run_last_area(&s).initial,
        Some(Rect { left: 1, top: 2, right: 31, bottom: 42 })
    );
    let t = run_text();
    assert!(!t.editor_enabled && t.delay_secs == 0 && t.initial.is_none());
    assert!(run_video(false).is_ok());
    assert_eq!(
        run_video(true).err().unwrap().message,
        "A recording is already active — stop it first."
    );
}

#[test]
fn a_capture_is_saved_and_shown() {
    let s = Settings::default();
    let sel = selection(false);
    let img = picture();
    let p = prepare_capture(&sel, &s, Some("C:\\me"), true, Some(&img), &main_window()).ok().unwrap();
    assert_eq!(p.last_area, LastArea { x: 10, y: 20, width: 2, height: 1 });
    assert_eq!(p.dir, "Pictures\\SnapDrop");
    assert!(p.warning.is_none());
    let png = p.png.unwrap();
    let decoded = image::load_from_memory(&png).unwrap().to_rgba8();
    assert_eq!(decoded.into_raw(), vec![3, 2, 1, 255, 6, 5, 4, 255]);
    let small = preview(&img, (0, 0)).unwrap();
    let mut h = HistoryState(Vec::new());
    let f = finish_capture(
        &sel, &s, &img, Some(&png), Some(&small), "C:\\a.png", true, &facts(), &mut h,
        &main_window(),
    );
    assert_eq!(f.restore, Restore::NoActivate);
    assert_eq!(f.saved_path.as_deref(), Some("C:\\a.png"));
    assert!(f.toast.is_none() && f.history_changed);
    assert_eq!(f.clipboard.unwrap().len(), 2);
    assert_eq!((h.0.len(), h.0[0].size_bytes), (1, 77));
    assert!(h.0[0].captured_at.contains('T'));
    let shown = matches!(
        f.presentation,
        Presentation::Thumbnail { unsaved: false, width: 2, height: 1, center: (11, 20), .. }
    );
    assert_eq!(shown, !s.show_editor_after_capture);
}

#[test]
fn ctrl_turns_the_editor_round() {
    let mut s = Settings::default();
    let img = picture();
    for on in [false, true] {
        for ctrl in [false, true] {
            s.show_editor_after_capture = on;
            let mut h = HistoryState(Vec::new());
            let f = finish_capture(
                &selection(ctrl), &s, &img, None, None, "p", true, &facts(), &mut h,
        &main_window(),
            );
            let editor = matches!(f.presentation, Presentation::Editor { .. });
            assert_eq!(editor, on != ctrl);
        }
    }
}

#[test]
fn an_unsaved_capture_is_still_shown() {
    let mut s = Settings::default();
    s.show_editor_after_capture = false;
    s.copy_to_clipboard = false;
    let mut h = HistoryState(Vec::new());
    let png = b"ABC".to_vec();
    let f = finish_capture(
        &selection(false), &s, &picture(), Some(&png), Some(&png), "p", false, &facts(), &mut h,
        &main_window(),
    );
    assert!(f.saved_path.is_none() && !f.history_changed && f.clipboard.is_none());
    assert_eq!(f.toast.unwrap().message, "Couldn't save screenshot");
    assert!(h.0.is_empty());
    match f.presentation {
        Presentation::Thumbnail { path, preview_b64, unsaved, .. } => {
            assert!(path.is_none() && unsaved);
            assert_eq!(preview_b64, "QUJD");
        }
        _ => panic!("editor"),
    }
}

#[test]
fn a_failed_capture_is_told_and_the_window_comes_back() {
    let s = Settings::default();
    let mut main = main_window();
    let f = prepare_capture(&selection(false), &s, None, true, None, &main).err().unwrap();
    let t = &f.toast;
    assert_eq!((t.kind.as_str(), t.message.as_str()), ("error", "Couldn't capture screen region"));
    assert_eq!(f.restore, Restore::NoActivate);
    main.was_minimized = true;
    let f = region_failed(&main);
    assert_eq!(f.toast.message, "Couldn't capture screen region");
    assert_eq!(f.restore, Restore::MinimizedNoActivate);
    main.was_visible = false;
    assert_eq!(region_failed(&main).restore, Restore::Nothing);
}

#[test]
fn a_fallback_folder_is_told() {
    let mut s = Settings::default();
    s.screenshot_dir = "Z:\\gone".to_string();
    let p = prepare_video(&selection(false), &s, Some("C:\\me"), false);
    assert_eq!(p.dir, "C:\\me\\Pictures\\SnapDrop");
    assert!(p.warning.unwrap().message.starts_with("Screenshot folder is not writable"));
    assert!(p.path.starts_with("C:\\me\\Pictures\\SnapDrop\\SnapDrop_video_"));
    assert_eq!(p.region, selection(false).rect);
    let img = ImageBuf { width: 0, height: 1, bgra: Vec::new() };
    let p = prepare_capture(&selection(false), &s, None, true, Some(&img), &main_window()).ok().unwrap();
    assert!(p.png.is_none() && p.warning.is_none() && p.dir == "Z:\\gone");
}

#[test]
fn recognized_text_is_copied() {
    assert!(matches!(text_recognized(Ok(" a ".to_string())), TextOutcome::Copy(t) if t == " a "));
    match text_recognized(Ok(" \n ".to_string())) {
        TextOutcome::Tell(t) => assert_eq!(t.message, "No text found in that region"),
        TextOutcome::Copy(_) => panic!("copied"),
    }
    match text_recognized(Err("bad".to_string())) {
        TextOutcome::Tell(t) => assert_eq!((t.kind.as_str(), t.message.as_str()), ("error", "bad")),
        TextOutcome::Copy(_) => panic!("copied"),
    }
    assert_eq!(text_copied(" ab ", Ok(())).message, "Text copied (2 chars): ab");
    let long = "x".repeat(81);
    assert_eq!(
        text_copied(&long, Ok(())).message,
        format!("Text copied (81 chars): {}…", "x".repeat(80))
    );
    assert_eq!(text_copied("a", Err("busy".to_string())).message, "Clipboard failed: busy");
}

#[test]
fn what_was_hidden_comes_back() {
    assert_eq!(hide_for_capture(Some(true), None), (true, false));
    assert_eq!(restore_main_window(false, false, true, true), Restore::Nothing);
    assert_eq!(restore_main_window(true, false, false, true), Restore::Nothing);
    assert_eq!(restore_main_window(true, true, true, true), Restore::MinimizedNoActivate);
    assert_eq!(restore_main_window(true, false, true, true), Restore::NoActivate);
    assert_eq!(restore_main_window(true, false, true, false), Restore::Plain);
    assert!(matches!(
        after_overlay(None, true),
        AfterOverlay::Cancelled { show_thumbnail: true }
    ));
    assert!(matches!(after_overlay(Some(selection(true)), true), AfterOverlay::Capture(_)));
    assert_eq!(breakdown(Flow::Image).message, "Capture failed unexpectedly");
    assert_eq!(breakdown(Flow::LastArea).message, "Capture failed unexpectedly");
    assert_eq!(breakdown(Flow::Text).message, "Text capture failed unexpectedly");
    assert_eq!(breakdown(Flow::Video).message, "Video capture failed unexpectedly");
}

use base64::Engine;
use snapdrop::commands::{
    build_capture_preview, debug_log, find_open_explorer_window, gallery_png, get_capture_preview,
    is_video_path, ocr_pending_editor_image, open_in_explorer_com, preview_cache,
    remember_preview, reveal_capture, reveal_in_explorer, selection_failed, shell_path,
    video_frame_png, video_thumbnail_data_url, ExplorerAction, ShellWindow, CACHE_LIMIT,
};
use snapdrop::editor::{
    annotated_saved, annotated_target, bgra_of, editor_monitor, finish, geometry, get_pending_image, is_visible,
    on_cancelled, on_confirmed, pending_bgra, show, take_pending, AfterEditor, ConfirmPayload,
    Confirmed, EditorState,
};
use snapdrop::encoding::{decode_rgba, encode_rgba};
use snapdrop::filename::encode_png;
use snapdrop::monitors::Rect;
use snapdrop::settings::Settings;

fn b64(bytes: &[u8]) -> String {
    base64::engine::general_purpose::STANDARD.encode(bytes)
}

fn editing(full: String) -> EditorState {
    let mut st = EditorState { pending: None };
    show(&mut st, Some("C:\\a.png".to_string()), full, 1, 1, (3, 4));
    st
}

#[test]
fn the_editor_keeps_the_picture() {
    let png = encode_rgba(&vec![1, 2, 3, 4], 1, 1).unwrap();
    let st = editing(b64(&png));
    let p = get_pending_image(&st).unwrap();
    assert_eq!(p.full, format!("data:image/png;base64,{}", b64(&png)));
    assert_eq!((p.width, p.height), (1, 1));
    assert_eq!(pending_bgra(&st), Some((vec![3, 2, 1, 4], 1, 1)));
    assert_eq!(ocr_pending_editor_image(&st), Ok((vec![3, 2, 1, 4], 1, 1)));
}

#[test]
fn nothing_pending_is_nothing_to_recognize() {
    let none = EditorState { pending: None };
    assert!(get_pending_image(&none).is_none() && pending_bgra(&none).is_none());
    for st in [none, editing("???".to_string()), editing(b64(b"no picture"))] {
        assert_eq!(
            ocr_pending_editor_image(&st).unwrap_err(),
            "No pending capture to recognize"
        );
    }
    assert!(bgra_of(None).is_none());
}

#[test]
fn a_confirmed_annotation_is_saved() {
    let mut st = editing(String::new());
    let ok = ConfirmPayload { annotated: format!("data:image/png;base64,{}", b64(b"hello")) };
    // Not visible: nothing happens.
    assert!(matches!(on_confirmed(&mut st, false, &ok), Confirmed::Skipped));
    assert!(st.pending.is_some());
    match on_confirmed(&mut st, true, &ok) {
        Confirmed::Save(bytes, p) => {
            assert_eq!(bytes, b"hello".to_vec());
            assert_eq!(p.path.as_deref(), Some("C:\\a.png"));
            assert_eq!(p.center, (3, 4));
        }
        _ => panic!("not saved"),
    }
    assert!(matches!(on_confirmed(&mut st, true, &ok), Confirmed::Skipped));
    let mut st = editing(String::new());
    let bad = ConfirmPayload { annotated: "data:,%%%".to_string() };
    match on_confirmed(&mut st, true, &bad) {
        Confirmed::Unreadable(t, _) => assert_eq!(t.message, "Couldn't process the annotated image"),
        _ => panic!("not told"),
    }
    assert!(st.pending.is_none());
}

#[test]
fn a_cancelled_editor_forgets_its_picture() {
    let mut st = editing(String::new());
    assert!(on_cancelled(&mut st, false).is_none());
    assert!(on_cancelled(&mut st, true).is_some());
    assert!(take_pending(&mut st, true).is_none());
    assert!(is_visible(Some(true)) && !is_visible(None) && !is_visible(Some(false)));
}

#[test]
fn after_the_editor_the_thumbnail_comes() {
    match finish(Some("C:\\a.png".to_string()), 5, 6, (1, 2)) {
        AfterEditor::Reload(p, c) => assert_eq!((p.as_str(), c), ("C:\\a.png", (1, 2))),
        _ => panic!("unsaved"),
    }
    match finish(None, 5, 6, (1, 2)) {
        AfterEditor::Unsaved(w, h, c) => assert_eq!((w, h, c), (5, 6, (1, 2))),
        _ => panic!("saved"),
    }
    assert_eq!(annotated_saved("p", true).ok().as_deref(), Some("p"));
    assert_eq!(
        annotated_saved("p", false).err().unwrap().message,
        "Couldn't save annotated screenshot"
    );
    let work = Rect { left: -10, top: 5, right: 90, bottom: 65 };
    assert_eq!(geometry(&work), ((100, 60), (-10, 5)));
    assert!(editor_monitor(None, None).is_none());
}

#[test]
fn an_annotated_capture_replaces_its_file() {
    let mut p = editing(String::new()).pending.unwrap();
    assert_eq!(annotated_target(&p, "D:\\x").ok().as_deref(), Some("C:\\a.png"));
    p.path = None;
    let search = annotated_target(&p, "D:\\x").err().unwrap();
    assert!(search.candidate().starts_with("D:\\x\\SnapDrop_"));
}

#[test]
fn videos_are_known_by_their_ending() {
    for p in ["a.mp4", "A.MP4", "x.mkv", "x.WebM", "x.avi", "x.mov"] {
        assert!(is_video_path(p));
    }
    for p in ["a.png", "mp4", "a.mp4.png", ""] {
        assert!(!is_video_path(p));
    }
}

#[test]
fn preview_decode_cost_and_cache() {
    // A picture of the size of a screenshot.
    let w = 2560u32;
    let h = 1440u32;
    let mut bgra = Vec::with_capacity((w * h * 4) as usize);
    for y in 0..h {
        for x in 0..w {
            bgra.extend_from_slice(&[(x % 255) as u8, (y % 255) as u8, 128, 255]);
        }
    }
    let png = encode_png(&bgra, w, h).unwrap();
    let (rgba, w, h) = decode_rgba(&png).unwrap();
    let small = gallery_png(&rgba, w, h, (256, 144)).unwrap();
    let first =
        build_capture_preview("cost_test.png", None, Some(&small), Ok(Vec::new())).unwrap();
    let mut cache = preview_cache();
    remember_preview(&mut cache, "cost_test.png", &first);
    let cached = get_capture_preview(&cache, "cost_test.png").unwrap();
    assert_eq!(first, cached, "cache hit must return the same preview");
}

#[test]
fn previews_are_found_again() {
    let mut c = preview_cache();
    assert!(get_capture_preview(&c, "a").is_none());
    remember_preview(&mut c, "a", "url");
    assert_eq!(get_capture_preview(&c, "a").as_deref(), Some("url"));
    remember_preview(&mut c, "b", "");
    assert!(get_capture_preview(&c, "b").is_none());
}

#[test]
fn the_cache_is_bounded() {
    let mut c = preview_cache();
    for i in 0..CACHE_LIMIT + 1 {
        remember_preview(&mut c, &format!("p{i}"), "u");
    }
    assert!(get_capture_preview(&c, "p0").is_some());
    remember_preview(&mut c, "last", "u");
    assert!(get_capture_preview(&c, "p0").is_none());
    assert!(get_capture_preview(&c, "last").is_some());
}

#[test]
fn gallery_previews_keep_the_colours() {
    let rgba: Vec<u8> = [200u8, 100, 50, 9].repeat(512 * 256);
    let png = gallery_png(&rgba, 512, 256, (256, 128)).unwrap();
    let img = image::load_from_memory(&png).unwrap().to_rgba8();
    assert_eq!(img.dimensions(), (256, 128));
    assert_eq!(img.get_pixel(7, 7).0, [200, 100, 50, 255]);
    assert!(gallery_png(&vec![0; 7], 2, 1, (0, 0)).is_none());
}

#[test]
fn video_frames_become_data_urls() {
    let png = video_frame_png(2, 1, 1, &vec![1, 2, 3, 0, 4, 5, 6, 0], (0, 0)).unwrap();
    let img = image::load_from_memory(&png).unwrap().to_rgba8();
    assert_eq!(img.get_pixel(0, 0).0, [3, 2, 1, 255]);
    assert!(video_frame_png(2, 1, 0, &vec![0; 8], (0, 0)).is_none());
    assert!(video_frame_png(0, 1, 1, &vec![0; 8], (0, 0)).is_none());
    assert!(video_frame_png(2, -1, 1, &vec![0; 8], (0, 0)).is_none());
    assert_eq!(
        video_thumbnail_data_url(Some(&b"ABC".to_vec())).unwrap(),
        "data:image/png;base64,QUJD"
    );
    assert!(video_thumbnail_data_url(None).is_none());
    assert_eq!(shell_path("C:/a/b.mp4"), "C:\\a\\b.mp4");
}

#[test]
fn previews_fall_back_to_the_file_itself() {
    let png = b"ABC".to_vec();
    let gone = || -> Result<Vec<u8>, String> { Err("gone".to_string()) };
    assert_eq!(
        build_capture_preview("a.png", None, Some(&png), gone()).unwrap(),
        "data:image/png;base64,QUJD"
    );
    assert_eq!(
        build_capture_preview("a.png", None, None, Ok(b"AB".to_vec())).unwrap(),
        "data:image/png;base64,QUI="
    );
    assert_eq!(build_capture_preview("a.png", None, None, gone()).unwrap_err(), "gone");
    assert_eq!(build_capture_preview("a.mp4", None, Some(&png), gone()).unwrap(), "");
    assert_eq!(
        build_capture_preview("a.mp4", Some("u".to_string()), None, gone()).unwrap(),
        "u"
    );
}

#[test]
fn an_open_folder_is_found() {
    let w = |l: Option<&str>, h: Option<i64>| ShellWindow {
        location: l.map(|s| s.to_string()),
        hwnd: h,
    };
    let list = vec![
        w(None, Some(1)),
        w(Some("file:///C:/Shots"), Some(0)),
        w(Some("file:///C:/Other"), Some(2)),
        w(Some("FILE:///c:/shots///"), Some(3)),
        w(Some("file:///C:/Shots/"), Some(4)),
    ];
    assert_eq!(find_open_explorer_window("C:\\Shots", &list), Some(3));
    assert_eq!(find_open_explorer_window("C:\\None", &list), None);
    assert_eq!(open_in_explorer_com(true, Some(3)), ExplorerAction::SelectFile);
    assert_eq!(open_in_explorer_com(false, Some(3)), ExplorerAction::Focus(3));
    assert_eq!(open_in_explorer_com(false, None), ExplorerAction::OpenPlain);
    assert!(!selection_failed(true, true, true));
    assert!(selection_failed(true, false, true));
}

#[test]
fn revealing_may_hide_the_thumbnail() {
    let mut s = Settings::default();
    s.hide_after_drop = true;
    assert_eq!(reveal_capture(&s, Ok(())), (Ok(()), true));
    assert_eq!(reveal_capture(&s, Err("e".to_string())), (Err("e".to_string()), false));
    s.hide_after_drop = false;
    assert_eq!(reveal_capture(&s, Ok(())), (Ok(()), false));
    assert_eq!(
        reveal_in_explorer("C:\\a\\b", Some("C:\\a")),
        ("C:\\a".to_string(), "C:\\a\\b".to_string())
    );
    assert_eq!(reveal_in_explorer("b", None).0, "b");
    assert_eq!(debug_log("x"), "renderer: x");
}

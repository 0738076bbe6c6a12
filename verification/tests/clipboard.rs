use snapdrop::clipboard::{
    build_dibv5, build_hdrop, session_result, set_file, set_image_and_file, CF_DIBV5, CF_HDROP,
};
use snapdrop::commands::copy_capture;
use snapdrop::editor::annotated_clipboard;
use snapdrop::notifier::{escape, native_toast, payload, toast};
use snapdrop::settings::Settings;

fn word(b: &[u8], at: usize) -> u32 {
    u32::from_le_bytes([b[at], b[at + 1], b[at + 2], b[at + 3]])
}

#[test]
fn a_bitmap_has_a_header_and_opaque_pixels() {
    let d = build_dibv5(&vec![1, 2, 3, 0, 4, 5, 6, 7], 2, 1);
    assert_eq!(d.len(), 124 + 8);
    assert_eq!((word(&d, 0), word(&d, 4), word(&d, 8) as i32), (124, 2, -1));
    assert_eq!((d[12], d[14]), (1, 32));
    assert_eq!((word(&d, 16), word(&d, 20)), (3, 8));
    assert_eq!(word(&d, 40), 0x00FF_0000);
    assert_eq!(word(&d, 44), 0x0000_FF00);
    assert_eq!(word(&d, 48), 0x0000_00FF);
    assert_eq!(word(&d, 52), 0xFF00_0000);
    assert_eq!(word(&d, 56), 2);
    assert_eq!(d[124..], [1, 2, 3, 255, 4, 5, 6, 255]);
}

fn names(drop: &[u8]) -> Vec<String> {
    let units: Vec<u16> =
        drop[20..].chunks(2).map(|c| u16::from_le_bytes([c[0], c[1]])).collect();
    assert_eq!(units.last(), Some(&0));
    let list: Vec<String> = units
        .split(|u| *u == 0)
        .filter(|n| !n.is_empty())
        .map(|n| String::from_utf16(n).unwrap())
        .collect();
    list
}

#[test]
fn a_drop_list_names_its_files() {
    let files = vec!["C:\\a\\ä.png".to_string(), "D:\\😀.mp4".to_string()];
    let d = build_hdrop(&files);
    assert_eq!((word(&d, 0), word(&d, 16)), (20, 1));
    assert_eq!(names(&d), files);
    assert_eq!(build_hdrop(&Vec::new()).len(), 22);
}

#[test]
fn images_go_with_their_file() {
    let items = set_image_and_file(&vec![0; 4], 1, 1, "C:\\x.png");
    assert_eq!((items[0].format, items[1].format), (CF_DIBV5, CF_HDROP));
    assert_eq!(names(&items[1].bytes), vec!["C:\\x.png"]);
    let file = set_file("C:\\y.png");
    assert_eq!(file.len(), 1);
    assert_eq!(names(&file[0].bytes), vec!["C:\\y.png"]);
}

#[test]
fn a_busy_clipboard_is_told() {
    assert_eq!(session_result(false, Ok(())).unwrap_err(), "Could not open clipboard");
    assert_eq!(session_result(true, Err("x".to_string())).unwrap_err(), "x");
    assert!(session_result(true, Ok(())).is_ok());
}

#[test]
fn copying_a_capture_takes_the_picture_where_it_opens() {
    let rgba = vec![10, 20, 30, 40];
    let items = copy_capture("C:\\x.png", Some((&rgba, 1, 1)));
    assert_eq!(items.len(), 2);
    assert_eq!(items[0].bytes[124..], [30, 20, 10, 255]);
    assert_eq!(copy_capture("C:\\x.mp4", None).len(), 1);
    let mut s = Settings::default();
    assert!(annotated_clipboard(&s, Some("C:\\x.png"), Some((&rgba, 1, 1))).is_some());
    assert!(annotated_clipboard(&s, None, Some((&rgba, 1, 1))).is_none());
    assert!(annotated_clipboard(&s, Some("C:\\x.png"), None).is_none());
    s.copy_to_clipboard = false;
    assert!(annotated_clipboard(&s, Some("C:\\x.png"), Some((&rgba, 1, 1))).is_none());
}

#[test]
fn messages_are_escaped() {
    assert_eq!(escape("a<b> & &amp;"), "a&lt;b&gt; &amp; &amp;amp;");
    assert_eq!(
        native_toast("1 < 2"),
        "<toast duration=\"short\"><visual><binding template=\"ToastGeneric\"><text>1 &lt; 2</text></binding></visual></toast>"
    );
    let (p, xml) = toast("info", "hi");
    assert_eq!((p.kind.as_str(), p.message.as_str()), ("info", "hi"));
    assert!(xml.contains("<text>hi</text>"));
    assert_eq!(payload("error", "<b>").message, "<b>");
}

use std::collections::HashSet;

use image::ImageEncoder;
use snapdrop::encoding::encode_rgba;
use snapdrop::monitors::Rect;
use snapdrop::native_thumb::{
    bits_of, can_draw, current_window_size, decode_png, drag_done, draw_scene, entry_id,
    entry_path, file_name, handle_auto_hide, handle_cmd, hide_thumb, hit_test, make_entry,
    on_button_down, on_button_up, on_double_click, present, row_of, show, stack_push,
    stack_remove, Cmd, DrawOp, Entry, PresentEntry, State, CARD_BG, MAX_CARD, PEEK_BG, ROW_BG,
};

fn entry(id: u64) -> Entry {
    Entry {
        capture_id: id,
        path: Some(format!("C:\\x\\snap_{id}.png")),
        file_name: format!("snap_{id}.png"),
        bits: Some((vec![0u8; 4], 1, 1)),
        unsaved: false,
    }
}

#[test]
fn stack_dedupes_and_caps_at_ten() {
    let mut stack = Vec::new();
    let mut seen = HashSet::new();
    // First capture lands.
    assert!(stack_push(&mut stack, &mut seen, entry(1)));
    assert_eq!(stack[0].capture_id, 1);
    // A duplicate id is skipped.
    assert!(!stack_push(&mut stack, &mut seen, entry(1)));
    assert_eq!(stack.len(), 1);
    // Newest on top.
    assert!(stack_push(&mut stack, &mut seen, entry(2)));
    assert_eq!(stack[0].capture_id, 2);
    // Invalid ids rejected.
    assert!(!stack_push(&mut stack, &mut seen, entry(0)));
    // Cap at 10.
    for id in 3..=15 {
        stack_push(&mut stack, &mut seen, entry(id));
    }
    assert_eq!(stack.len(), 10);
    assert_eq!(stack[0].capture_id, 15);
}

#[test]
fn stack_remove_updates_seen() {
    let mut stack = vec![entry(2), entry(1)];
    let mut seen = HashSet::from([1, 2]);
    assert!(stack_remove(&mut stack, &mut seen, 2));
    assert_eq!(stack.len(), 1);
    assert!(!seen.contains(&2));
    // Removing an unknown id is a no-op.
    assert!(!stack_remove(&mut stack, &mut seen, 99));
}

#[test]
fn decode_png_rejects_garbage_and_decodes_valid() {
    assert!(decode_png(&b"not a png".to_vec()).is_none());
    // Encode a real 2x1 PNG with the same encoder the app uses.
    let img = image::RgbaImage::from_pixel(2, 1, image::Rgba([255, 128, 0, 255]));
    let mut png = Vec::new();
    image::codecs::png::PngEncoder::new(&mut png)
        .write_image(img.as_raw(), 2, 1, image::ExtendedColorType::Rgba8)
        .unwrap();
    let (data, w, h) = decode_png(&png).expect("valid png decodes");
    assert_eq!((w, h), (2, 1));
    assert_eq!(data.len(), 2 * 1 * 4);
}

#[test]
fn decoded_previews_are_opaque_bgra() {
    let png = encode_rgba(&vec![1, 2, 3, 4, 50, 60, 70, 80], 2, 1).unwrap();
    let (data, w, h) = decode_png(&png).unwrap();
    assert_eq!((w, h), (2, 1));
    assert_eq!(data, vec![3, 2, 1, 255, 70, 60, 50, 255]);
    assert!(bits_of(None).is_none());
}

#[test]
fn an_undrawable_capture_is_not_taken() {
    let mut stack = Vec::new();
    let mut seen = HashSet::new();
    let mut e = entry(4);
    e.bits = None;
    assert!(!stack_push(&mut stack, &mut seen, e));
    assert!(seen.is_empty());
}

#[test]
fn a_removed_capture_can_come_back() {
    let mut stack = Vec::new();
    let mut seen = HashSet::new();
    assert!(stack_push(&mut stack, &mut seen, entry(7)));
    assert!(stack_remove(&mut stack, &mut seen, 7));
    assert!(stack_push(&mut stack, &mut seen, entry(7)));
}

#[test]
fn entries_take_the_name_of_their_file() {
    assert_eq!(file_name("C:\\a\\b.png"), "b.png");
    assert_eq!(file_name("C:/a/b.png"), "b.png");
    assert_eq!(file_name("plain.png"), "plain.png");
    assert_eq!(file_name("C:\\a\\"), "");
    let e = make_entry(PresentEntry { capture_id: 3, path: None, png: Vec::new(), unsaved: true });
    assert_eq!(e.file_name, "unsaved");
    assert!(e.bits.is_none() && e.unsaved && e.capture_id == 3);
    let png = b"no picture".to_vec();
    let e = make_entry(PresentEntry { capture_id: 4, path: None, png, unsaved: true });
    assert!(e.bits.is_none());
}

fn with_captures(n: u64) -> State {
    let mut st = State::default();
    for id in 1..=n {
        present(&mut st, entry(id), (300, 200), Some((10, 20)), 0);
    }
    st
}

#[test]
fn presenting_shows_the_window_and_starts_the_timer() {
    let mut st = State::default();
    let e = present(&mut st, entry(1), (300, 200), Some((10, 20)), 5_000);
    assert_eq!(e.show, Some(((300, 220), Some((10, 20)))));
    assert_eq!(e.auto_hide, Some((5_000, 1)));
    assert!(e.repaint && !e.hide);
    // The same capture again only brings the window back.
    let e = present(&mut st, entry(1), (999, 999), None, 5_000);
    assert_eq!(e.show, Some(((300, 220), None)));
    assert!(e.auto_hide.is_none() && !e.repaint);
    assert_eq!(st.stack.len(), 1);
}

#[test]
fn commands_reach_the_window() {
    let mut st = with_captures(1);
    let e = handle_cmd(&mut st, hide_thumb(), 0);
    assert!(e.hide && e.show.is_none());
    let e = handle_cmd(&mut st, show(), 0);
    assert_eq!(e.show, Some(((300, 220), Some((10, 20)))));
    let e = handle_cmd(&mut st, Cmd::Open("C:\\o.png".to_string()), 0);
    assert_eq!(e.open.as_deref(), Some("C:\\o.png"));
    let e = handle_cmd(&mut st, Cmd::Reveal("C:\\r.png".to_string()), 0);
    assert_eq!(e.reveal.as_deref(), Some("C:\\r.png"));
    let png = encode_rgba(&vec![9, 9, 9, 9], 1, 1).unwrap();
    let p = PresentEntry { capture_id: 8, path: Some("C:\\n.png".to_string()), png, unsaved: false };
    let e = handle_cmd(&mut st, Cmd::Present(p, (320, 240), None, 0), 0);
    assert_eq!(e.show, Some(((320, 260), None)));
    assert_eq!(st.stack[0].file_name, "n.png");
    let out = Cmd::DragOutcome { capture_id: 8, dropped: true, moved: true, hide_after_drop: true };
    let e = handle_cmd(&mut st, out, 0);
    assert!(!e.hide && e.repaint);
    assert_eq!(st.stack.len(), 1);
}

#[test]
fn moving_the_last_file_hides_the_window() {
    let mut st = with_captures(1);
    let e = drag_done(&mut st, 1, true, true, false, 0);
    assert!(e.hide && e.show.is_none());
    assert!(st.stack.is_empty() && st.seen.is_empty());
}

#[test]
fn a_drop_may_hide_the_window() {
    let mut st = with_captures(2);
    assert!(drag_done(&mut st, 1, true, false, true, 0).hide);
    assert!(!drag_done(&mut st, 1, true, false, false, 0).hide);
    // A moved file that is not in the stack counts as a drop.
    assert!(drag_done(&mut st, 99, true, true, true, 0).hide);
    assert_eq!(st.stack.len(), 2);
}

#[test]
fn a_click_unfolds_the_list() {
    let mut st = with_captures(3);
    let e = drag_done(&mut st, 3, false, false, true, 10_000);
    assert!(st.expanded);
    assert_eq!(e.show, Some(((300, 200 + 20 + 96), None)));
    drag_done(&mut st, 3, false, false, true, 10_000);
    assert!(!st.expanded);
    // Not right after a double click.
    st.last_dbl_ms = 9_500;
    let e = drag_done(&mut st, 3, false, false, true, 10_000);
    assert!(!st.expanded && e.repaint && e.show.is_none());
    // A single capture has no list.
    let mut one = with_captures(1);
    drag_done(&mut one, 1, false, false, true, 10_000);
    assert!(!one.expanded);
}

#[test]
fn the_timer_dismisses_once() {
    let mut st = State::default();
    present(&mut st, entry(1), (300, 200), None, 1_000);
    assert!(!handle_auto_hide(&mut st, 2, true));
    assert!(!handle_auto_hide(&mut st, 1, false));
    assert!(handle_auto_hide(&mut st, 1, true));
    assert!(!handle_auto_hide(&mut st, 1, true));
    assert_eq!(st.timer_gen, 2);
}

#[test]
fn clicks_find_their_capture() {
    let mut st = with_captures(3);
    assert_eq!(hit_test(&st, 250), 0);
    st.expanded = true;
    assert_eq!(hit_test(&st, 199), 0);
    assert_eq!(hit_test(&st, 200), 1);
    assert_eq!(hit_test(&st, 247), 1);
    assert_eq!(hit_test(&st, 248), 2);
    assert_eq!(hit_test(&st, 9_999), 2);
    assert_eq!(entry_id(&st, 0), 3);
    assert_eq!(entry_id(&st, 7), 0);
    assert_eq!(entry_path(&st, 1).as_deref(), Some("C:\\x\\snap_2.png"));
    assert!(entry_path(&st, 7).is_none());
    assert_eq!(row_of(0x0011_0203_0405), 0x0203);
}

#[test]
fn presses_drag_and_modified_clicks_reveal() {
    let mut st = with_captures(2);
    assert_eq!(on_button_down(&mut st, 5, false), Some((2, "C:\\x\\snap_2.png".to_string())));
    assert!(on_button_up(&mut st, 5).is_none());
    assert!(on_button_down(&mut st, 5, true).is_none());
    assert_eq!(on_button_up(&mut st, 5).as_deref(), Some("C:\\x\\snap_2.png"));
    assert!(on_button_up(&mut st, 5).is_none());
    st.stack[0].path = None;
    assert!(on_button_down(&mut st, 5, false).is_none());
}

#[test]
fn a_double_click_opens_the_current_capture() {
    let mut st = with_captures(2);
    st.expanded = true;
    let e = on_double_click(&mut st, 230, 4_000);
    assert_eq!(e.open.as_deref(), Some("C:\\x\\snap_2.png"));
    assert!(!st.expanded && st.last_dbl_ms == 4_000);
    assert_eq!(e.show, Some(((300, 220), None)));
    assert_eq!(current_window_size(&st), (300, 220));
}

#[test]
fn a_folded_stack_shows_the_card_and_what_peeks_out() {
    let st = with_captures(2);
    let ops = draw_scene(&st, (285, 190), (270, 180));
    let whole = Rect { left: 0, top: 0, right: 300, bottom: 220 };
    assert!(matches!(&ops[0], DrawOp::Fill(r, c) if *r == whole && *c == PEEK_BG));
    let peek = Rect { left: 7, top: 14, right: 292, bottom: 204 };
    assert!(matches!(&ops[2], DrawOp::Image(1, r) if *r == peek));
    assert!(matches!(&ops[4], DrawOp::Fill(_, c) if *c == CARD_BG));
    assert!(matches!(&ops[7], DrawOp::Text(t, _, _) if t == "snap_2.png"));
    assert_eq!(ops.len(), 9);
}

#[test]
fn an_expanded_stack_lists_its_captures() {
    let mut st = with_captures(3);
    st.expanded = true;
    st.stack[0].unsaved = true;
    st.stack[2].unsaved = true;
    let ops = draw_scene(&st, (285, 190), (270, 180));
    let labels: Vec<&str> = ops
        .iter()
        .filter_map(|op| if let DrawOp::Text(t, _, _) = op { Some(t.as_str()) } else { None })
        .collect();
    assert_eq!(
        labels,
        vec!["snap_3.png", "Not saved", "snap_2.png", "snap_1.png \u{2014} not saved"]
    );
    let rows: Vec<i32> = ops
        .iter()
        .filter_map(|op| match op {
            DrawOp::Fill(r, c) if *c == ROW_BG => Some(r.top),
            _ => None,
        })
        .collect();
    assert_eq!(rows, vec![200, 248]);
}

#[test]
fn only_whole_previews_are_drawn() {
    let mut st = with_captures(1);
    assert!(can_draw(&st, 0, 10, 10));
    assert!(!can_draw(&st, 0, 0, 10));
    assert!(!can_draw(&st, 1, 10, 10));
    st.stack[0].bits = Some((vec![0u8; 7], 2, 1));
    assert!(!can_draw(&st, 0, 10, 10));
    st.stack[0].bits = None;
    assert!(!can_draw(&st, 0, 10, 10));
}

#[test]
fn a_full_list_under_the_tallest_card_still_has_a_size() {
    let mut st = with_captures(10);
    let tallest = MAX_CARD as u32;
    present(&mut st, entry(11), (300, tallest), None, 0);
    assert_eq!(st.stack.len(), 10);
    assert_eq!(current_window_size(&st), (300, MAX_CARD + 20));
    st.expanded = true;
    assert_eq!(current_window_size(&st), (300, i32::MAX));
}

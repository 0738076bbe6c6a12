use snapdrop::clipboard::CF_HDROP;
use snapdrop::dragdrop::{
    build_drag_image, drag_outcome, drag_source_class, enum_formats, get_data, give_feedback,
    needs_plain_drag, query_continue_drag, query_get_data, start_drag, wait_for_drag_movement,
    FormatEnum, Poll, DRAGDROP_S_CANCEL, DRAGDROP_S_DROP, DRAGDROP_S_USEDEFAULTCURSORS,
    DV_E_FORMATETC, E_UNEXPECTED, S_FALSE, S_OK,
};
use snapdrop::monitors::Point;

fn at(x: i32, y: i32) -> Point {
    Point { x, y }
}

#[test]
fn only_existing_files_are_dragged() {
    assert!(start_drag(&vec![true, true]).is_ok());
    assert_eq!(start_drag(&vec![true, false]).unwrap_err(), "File not found");
    assert_eq!(start_drag(&Vec::new()).unwrap_err(), "File not found");
}

#[test]
fn a_press_becomes_a_drag_after_six_pixels() {
    let poll = |x: i32, y: i32| wait_for_drag_movement(at(0, 0), false, true, Some(at(x, y)));
    assert_eq!(poll(5, 3), Poll::Undecided);
    assert_eq!(poll(6, 0), Poll::Drag);
    assert_eq!(poll(-5, -4), Poll::Drag);
    assert_eq!(poll(i32::MIN, i32::MAX), Poll::Drag);
    assert_eq!(wait_for_drag_movement(at(0, 0), false, true, None), Poll::Undecided);
    assert_eq!(wait_for_drag_movement(at(0, 0), true, true, Some(at(9, 9))), Poll::Click);
    assert_eq!(wait_for_drag_movement(at(0, 0), false, false, Some(at(9, 9))), Poll::Click);
}

#[test]
fn outcomes_are_read_from_the_result() {
    let o = drag_outcome(DRAGDROP_S_DROP, 2);
    assert!(o.dropped && o.moved);
    let o = drag_outcome(DRAGDROP_S_DROP, 1);
    assert!(o.dropped && !o.moved);
    let o = drag_outcome(DRAGDROP_S_CANCEL, 2);
    assert!(!o.dropped && !o.moved);
    assert!(needs_plain_drag(E_UNEXPECTED) && !needs_plain_drag(DRAGDROP_S_DROP));
}

#[test]
fn opaque_pixels_keep_their_colours() {
    let rgba: Vec<u8> = [200u8, 100, 50, 255].repeat(8);
    let d = build_drag_image(rgba, 4, 2, (0, 0)).unwrap();
    assert_eq!((d.width, d.height), (4, 2));
    assert_eq!(d.pixels, vec![0xFFC8_6432; 8]);
    assert_eq!(d.offset, at(-2, -1));
    let clear = build_drag_image([200u8, 100, 50, 0].repeat(8), 4, 2, (0, 0)).unwrap();
    assert_eq!(clear.pixels, vec![0; 8]);
    assert!(build_drag_image(vec![0; 31], 4, 2, (0, 0)).is_none());
}

#[test]
fn large_drag_images_are_scaled_down() {
    let d = build_drag_image(vec![255; 512 * 512 * 4], 512, 512, (256, 256)).unwrap();
    assert_eq!((d.width, d.height), (256, 256));
    assert_eq!(d.offset, at(-128, -128));
    assert!(d.pixels.iter().all(|p| *p == u32::MAX));
    let d = build_drag_image(vec![255; 512 * 128 * 4], 512, 128, (256, 64)).unwrap();
    assert_eq!((d.width, d.height, d.pixels.len()), (256, 64, 256 * 64));
}

#[test]
fn only_a_drop_list_is_offered() {
    assert_eq!(get_data(CF_HDROP, 1), S_OK);
    assert_eq!(get_data(CF_HDROP, 3), S_OK);
    assert_eq!(get_data(CF_HDROP, 2), DV_E_FORMATETC);
    assert_eq!(get_data(1, 1), DV_E_FORMATETC);
    assert_eq!(query_get_data(CF_HDROP, 1, 1), S_OK);
    assert_eq!(query_get_data(CF_HDROP, 1, 2), DV_E_FORMATETC);
    assert_eq!((enum_formats(1), enum_formats(2)), (S_OK, E_UNEXPECTED));
    let mut e = FormatEnum::new();
    assert_eq!(e.next(0), (0, S_FALSE));
    assert_eq!(e.next(5), (1, S_OK));
    assert_eq!(e.next(1), (0, S_FALSE));
    e.reset();
    assert_eq!(e.next(1), (1, S_OK));
}

#[test]
fn the_button_decides_over_the_drag() {
    assert_eq!(query_continue_drag(true, 1), DRAGDROP_S_CANCEL);
    assert_eq!(query_continue_drag(false, 0), DRAGDROP_S_DROP);
    assert_eq!(query_continue_drag(false, 9), S_OK);
    assert_eq!(give_feedback(), DRAGDROP_S_USEDEFAULTCURSORS);
    let name = drag_source_class();
    assert_eq!(String::from_utf16(&name).unwrap(), "SnapDropDragSource\0");
}

use snapdrop::capture::{
    capture_monitor, capture_monitor_wgc, capture_region, compatible_capture_settings, get_px,
    needs_frame, put_px, CaptureSupport, CursorCaptureSettings, DrawBorderSettings, ImageBuf,
    MinimumUpdateIntervalSettings, ShotFlags, ShotHandler,
};
use snapdrop::monitors::{
    enumerate, intersect, is_empty, monitor_at_point, rect_height, rect_width, virtual_screen,
    MonitorInfo, Rect, BASE_DPI,
};

fn rect(left: i32, top: i32, right: i32, bottom: i32) -> Rect {
    Rect { left, top, right, bottom }
}

fn monitor(handle: u64, r: Rect) -> MonitorInfo {
    MonitorInfo {
        hmonitor: handle,
        rect: r,
        work: r,
        is_primary: handle == 1,
        device: [0; 32],
        dpi: BASE_DPI,
    }
}

fn frame(w: u32, h: u32, b: u8) -> ImageBuf {
    ImageBuf { width: w, height: h, bgra: vec![b; (w * h * 4) as usize] }
}

#[test]
fn a_region_is_stitched_from_its_monitors() {
    let monitors = vec![monitor(1, rect(0, 0, 4, 4)), monitor(2, rect(-4, 1, 0, 5))];
    let frames = vec![Some(frame(4, 4, 10)), Some(frame(4, 4, 20))];
    let img = capture_region(&rect(-2, 0, 2, 2), &monitors, &frames).unwrap();
    assert_eq!((img.width, img.height), (4, 2));
    let shown: Vec<u8> = (0..8).map(|p| get_px(&img.bgra, p).0).collect();
    assert_eq!(shown, vec![0, 0, 10, 10, 20, 20, 10, 10]);
}

#[test]
fn a_region_is_cut_from_the_right_place() {
    let monitors = vec![monitor(1, rect(0, 0, 3, 3))];
    let bytes: Vec<u8> = (0..36).collect();
    let frames = vec![Some(ImageBuf { width: 3, height: 3, bgra: bytes })];
    let img = capture_region(&rect(1, 1, 3, 3), &monitors, &frames).unwrap();
    assert_eq!(img.bgra[..8], [16, 17, 18, 19, 20, 21, 22, 23]);
    assert_eq!(img.bgra[8..], [28, 29, 30, 31, 32, 33, 34, 35]);
}

#[test]
fn a_missing_or_mismatched_frame_fails_the_capture() {
    let monitors = vec![monitor(1, rect(0, 0, 4, 4)), monitor(2, rect(4, 0, 8, 4))];
    let sel = rect(0, 0, 2, 2);
    // The second monitor is not touched, so it needs no frame.
    assert!(capture_region(&sel, &monitors, &vec![Some(frame(4, 4, 1)), None]).is_some());
    assert!(!needs_frame(&sel, &monitors[1]));
    assert!(capture_region(&sel, &monitors, &vec![None, None]).is_none());
    assert!(capture_region(&sel, &monitors, &vec![Some(frame(4, 3, 1)), None]).is_none());
    assert!(capture_region(&rect(2, 2, 2, 5), &monitors, &vec![None, None]).is_none());
}

#[test]
fn a_monitor_readback_needs_pixels() {
    let m = monitor(1, rect(0, 0, 2, 1));
    let img = capture_monitor(&m, true, 1, vec![7; 8]).unwrap();
    assert_eq!((img.width, img.height, img.bgra.len()), (2, 1, 8));
    assert!(capture_monitor(&m, false, 1, vec![7; 8]).is_none());
    assert!(capture_monitor(&m, true, 0, vec![7; 8]).is_none());
    assert!(capture_monitor(&monitor(1, rect(0, 0, 0, 1)), true, 1, Vec::new()).is_none());
    assert!(capture_monitor_wgc(None).is_none());
    assert!(capture_monitor_wgc(Some(Err("lost".to_string()))).is_none());
    assert!(capture_monitor_wgc(Some(Ok(frame(1, 1, 1)))).is_some());
}

#[test]
fn only_the_first_frame_is_taken() {
    let mut h = ShotHandler::new(ShotFlags { tx: None });
    assert!(h.on_frame_arrived(Ok(frame(1, 1, 1))));
    assert!(h.on_frame_arrived(Ok(frame(1, 1, 2))));
    assert_eq!(h.flags.tx.unwrap().unwrap().bgra[0], 1);
}

#[test]
fn unsupported_settings_fall_back() {
    let asked = |support: CaptureSupport| {
        compatible_capture_settings(
            CursorCaptureSettings::WithoutCursor,
            DrawBorderSettings::WithoutBorder,
            MinimumUpdateIntervalSettings::Custom(16_666_666),
            &support,
        )
    };
    let yes = Some(true);
    assert_eq!(
        asked(CaptureSupport { cursor: yes, border: Some(false), interval: None }),
        (
            CursorCaptureSettings::WithoutCursor,
            DrawBorderSettings::Default,
            MinimumUpdateIntervalSettings::Default
        )
    );
    assert_eq!(
        asked(CaptureSupport { cursor: None, border: yes, interval: yes }),
        (
            CursorCaptureSettings::Default,
            DrawBorderSettings::WithoutBorder,
            MinimumUpdateIntervalSettings::Custom(16_666_666)
        )
    );
}

#[test]
fn pixels_are_written_where_they_belong() {
    let mut b = vec![0u8; 12];
    put_px(&mut b, 1, (1, 2, 3, 4));
    assert_eq!(b, vec![0, 0, 0, 0, 1, 2, 3, 4, 0, 0, 0, 0]);
    assert_eq!(get_px(&b, 1), (1, 2, 3, 4));
}

#[test]
fn monitors_are_listed_and_found() {
    let mut list = Vec::new();
    enumerate(&mut list, Some(monitor(1, rect(0, 0, 4, 4))), Some(144));
    enumerate(&mut list, None, Some(144));
    enumerate(&mut list, Some(monitor(2, rect(4, 0, 8, 4))), None);
    assert_eq!(list.len(), 2);
    assert_eq!((list[0].dpi, list[1].dpi), (144, 96));
    assert_eq!(monitor_at_point(&list, 2).unwrap().rect.left, 4);
    assert!(monitor_at_point(&list, 3).is_none());
}

#[test]
fn rectangles_have_sizes_and_intersections() {
    let v = virtual_screen(-1920, 0, 3840, 1080);
    assert_eq!(v, rect(-1920, 0, 1920, 1080));
    assert_eq!((rect_width(&v), rect_height(&v)), (3840, 1080));
    assert_eq!(intersect(&v, &rect(0, -5, 5000, 20)), rect(0, 0, 1920, 20));
    assert!(!is_empty(&rect(0, 0, 1, 1)));
    assert!(is_empty(&rect(0, 0, 0, 1)));
    assert!(is_empty(&intersect(&v, &rect(2000, 0, 2001, 1))));
}

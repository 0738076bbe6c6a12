use snapdrop::monitors::Rect;
use snapdrop::settings::Settings;
use snapdrop::thumbnail::{
    base_width, fallback_position, file_preview, get_latest_capture, hide_all, is_visible,
    note_drag_started, open_failure, pick_monitor, present_begin, present_capture,
    recover_after_resume, recover_if_stale, report_renderer_input, report_renderer_pointerdown,
    schedule_present_retry, set_visible, should_recover, should_recover_click_stall,
    should_recover_input_stall, should_refresh_before_present, show_capture, show_capture_for,
    show_capture_for_at, thumbnail_geometry, watchdog_tick, Measures, Reason, ThumbnailState,
    WindowOps,
};

#[test]
fn recovery_fires_only_when_renderer_is_stale_and_throttled() {
    let now = 1_000_000u64;
    // Live renderer: heartbeat fresh, so never recover.
    assert!(!should_recover(now, now - 1_000, now - 60_000, 0));
    // Stale renderer, but we just presented: wait.
    assert!(!should_recover(now, 0, now - 1_000, 0));
    // Stale renderer, no recent present, but recovered 30s ago: cooldown.
    assert!(!should_recover(now, 0, now - 60_000, now - 30_000));
    // Stale renderer, nothing recent: recover.
    assert!(should_recover(now, 0, now - 60_000, now - 120_000));
    // Recovery just happened: must wait out the cooldown again.
    assert!(!should_recover(now, 0, now - 60_000, now - 1_000));
}

#[test]
fn input_stall_recovery_fires_only_for_live_renderer_with_no_input() {
    let now = 1_000_000u64;
    // Dead renderer: handled by the heartbeat path, never input-stall.
    assert!(!should_recover_input_stall(now, 0, now - 60_000, now - 120_000, 0, true));
    // Fresh input: user is interacting (or dragging), no recovery.
    assert!(!should_recover_input_stall(now, now - 1_000, now - 5_000, now - 120_000, 0, true));
    // Stale input, but we just presented: give the user a moment.
    assert!(!should_recover_input_stall(now, now - 1_000, 0, now - 5_000, 0, true));
    // Live renderer, no input for a long time, nothing recent: recover.
    assert!(should_recover_input_stall(now, now - 1_000, now - 60_000, now - 120_000, 0, true));
    // ...but only once per cooldown.
    assert!(!should_recover_input_stall(
        now,
        now - 1_000,
        now - 60_000,
        now - 120_000,
        now - 10_000,
        true
    ));
    // No interaction since the last recovery: never churn again.
    assert!(!should_recover_input_stall(
        now,
        now - 1_000,
        now - 60_000,
        now - 120_000,
        now - 120_000,
        false
    ));
}

#[test]
fn click_stall_recovery_fires_when_click_never_becomes_drag() {
    let now = 1_000_000u64;
    // Dead renderer: heartbeat path, never click-stall.
    assert!(!should_recover_click_stall(now, 0, now - 10_000, 0, now - 60_000, 0));
    // No click ever reached the page: nothing to detect.
    assert!(!should_recover_click_stall(now, now - 1_000, 0, 0, now - 60_000, 0));
    // Click just arrived: give the healthy page a moment to start the drag.
    assert!(!should_recover_click_stall(now, now - 1_000, now - 1_000, 0, now - 60_000, 0));
    // Click 2s old, still within grace: keep waiting.
    assert!(!should_recover_click_stall(now, now - 1_000, now - 2_000, 0, now - 60_000, 0));
    // Click 3s old with no drag: already a stall.
    assert!(should_recover_click_stall(now, now - 1_000, now - 3_000, 0, now - 60_000, 0));
    // Click older than the window: stale history, don't fire.
    assert!(!should_recover_click_stall(now, now - 1_000, now - 60_000, 0, now - 120_000, 0));
    // A drag started after the press: healthy, never recover.
    assert!(!should_recover_click_stall(
        now,
        now - 1_000,
        now - 10_000,
        now - 9_000,
        now - 60_000,
        0
    ));
    // We just presented: let the user reach for the thumbnail.
    assert!(!should_recover_click_stall(now, now - 1_000, now - 10_000, 0, now - 1_000, 0));
    // The ghost: click received, no drag, past grace + present + cooldown.
    assert!(should_recover_click_stall(now, now - 1_000, now - 10_000, 0, now - 60_000, 0));
    // ...but only once per cooldown.
    assert!(!should_recover_click_stall(
        now,
        now - 1_000,
        now - 10_000,
        0,
        now - 60_000,
        now - 30_000
    ));
}

#[test]
fn refresh_before_present_uses_its_own_throttle() {
    let now = 1_000_000u64;
    // Long idle, never refreshed or recovered: refresh.
    assert!(should_refresh_before_present(now, now - 90_000, 90_000, 0, 0));
    // Brand-new page that never reported input: nothing to refresh.
    assert!(!should_refresh_before_present(now, 0, now, 0, 0));
    // Input is recent: warm page, no refresh.
    assert!(!should_refresh_before_present(now, now - 5_000, 5_000, 0, 0));
    // Refreshed within the cooldown (rapid captures): no second reload.
    assert!(!should_refresh_before_present(now, now - 90_000, 90_000, now - 30_000, 0));
    // Just force-recovered: page is already fresh, skip the refresh.
    assert!(!should_refresh_before_present(now, now - 90_000, 90_000, 0, now - 30_000));
}

fn shown(st: &mut ThumbnailState, now: u64) -> u64 {
    let s = Settings::default();
    show_capture(st, &s, Some("C:\\a.png".to_string()), "QUJD", 10, 20, false, (5, 6), now)
        .unwrap()
        .generation
}

#[test]
fn a_capture_becomes_the_latest_one() {
    let mut st = ThumbnailState::new();
    let g = shown(&mut st, 1_000);
    assert_eq!(g, 1);
    let p = get_latest_capture(&mut st, 2_000).unwrap();
    assert_eq!(st.heartbeat, 2_000);
    assert_eq!(p.capture_id, 1);
    assert_eq!(p.path.as_deref(), Some("C:\\a.png"));
    assert_eq!(p.preview, "data:image/png;base64,QUJD");
    assert_eq!((p.width, p.height, p.unsaved), (10, 20, false));
    assert_eq!(st.last_center, Some((5, 6)));
    assert!(st.wanted_visible && watchdog_tick(&st));
    shown(&mut st, 3_000);
    assert_eq!(get_latest_capture(&mut st, 3_000).unwrap().capture_id, 2);
}

#[test]
fn switched_off_thumbnails_are_not_shown() {
    let mut st = ThumbnailState::new();
    let mut s = Settings::default();
    s.show_thumbnail = false;
    assert!(show_capture(&mut st, &s, None, "", 1, 1, true, (0, 0), 5).is_none());
    assert!(st.latest.is_none() && st.generation == 0 && st.next_capture_id == 1);
}

#[test]
fn a_long_idle_page_is_refreshed_once() {
    let mut st = ThumbnailState::new();
    report_renderer_input(&mut st, 100_000);
    let s = Settings::default();
    let a = show_capture(&mut st, &s, None, "", 1, 1, true, (0, 0), 200_000).unwrap();
    assert!(a.refresh);
    assert_eq!(st.last_refresh, 200_000);
    let b = show_capture(&mut st, &s, None, "", 1, 1, true, (0, 0), 210_000).unwrap();
    assert!(!b.refresh);
}

#[test]
fn a_dismissal_overtakes_pending_attempts() {
    let mut st = ThumbnailState::new();
    let s = Settings::default();
    let g = shown(&mut st, 1_000);
    assert!(present_begin(&mut st, &s, g, 1_500));
    assert_eq!(st.last_present, 1_500);
    hide_all(&mut st);
    assert!(!st.wanted_visible);
    assert!(!present_begin(&mut st, &s, g, 2_000));
    assert_eq!(st.last_present, 1_500);
    assert!(recover_if_stale(&mut st, 1_000_000, true, false).is_none());
}

fn ops() -> WindowOps {
    WindowOps {
        size: true,
        position: Some(true),
        show: true,
        visible: true,
        unminimize: true,
        on_top: true,
    }
}

#[test]
fn failed_attempts_are_retried_up_to_the_limit() {
    assert_eq!(present_capture(Some(ops()), true, 0), None);
    assert_eq!(present_capture(Some(WindowOps { position: None, ..ops() }), true, 0), None);
    assert_eq!(present_capture(Some(WindowOps { size: false, ..ops() }), true, 0), Some(1));
    assert_eq!(
        present_capture(Some(WindowOps { position: Some(false), ..ops() }), true, 1),
        Some(2)
    );
    assert_eq!(present_capture(Some(WindowOps { show: false, ..ops() }), true, 2), Some(3));
    assert_eq!(present_capture(Some(WindowOps { visible: false, ..ops() }), true, 3), Some(4));
    assert_eq!(present_capture(Some(WindowOps { unminimize: false, ..ops() }), true, 4), Some(5));
    assert_eq!(present_capture(Some(WindowOps { on_top: false, ..ops() }), true, 5), Some(6));
    assert_eq!(present_capture(Some(ops()), false, 0), Some(1));
    assert_eq!(present_capture(None, true, 0), Some(1));
    assert_eq!(present_capture(None, true, 6), None);
}

#[test]
fn retry_delays_double() {
    let delays: Vec<u64> = (0u8..9).map(schedule_present_retry).collect();
    assert_eq!(delays, vec![100, 100, 200, 400, 800, 1600, 3200, 3200, 3200]);
}

#[test]
fn a_dead_renderer_is_revived_once_per_cooldown() {
    let mut st = ThumbnailState::new();
    shown(&mut st, 1_000);
    get_latest_capture(&mut st, 1_000);
    let r = recover_if_stale(&mut st, 100_000, false, true).unwrap();
    assert_eq!(r.reason, Reason::StaleHeartbeat);
    assert_eq!(r.payload.capture_id, 1);
    assert_eq!(r.center, (5, 6));
    assert_eq!(r.generation, 1);
    assert_eq!(st.last_recovery, 100_000);
    assert!(recover_if_stale(&mut st, 159_999, false, true).is_none());
    assert!(recover_after_resume(&mut st, 160_000, false, true).is_some());
}

#[test]
fn stalls_need_a_visible_window_without_a_drag() {
    let mut st = ThumbnailState::new();
    shown(&mut st, 1_000);
    report_renderer_input(&mut st, 1_000);
    let now = 100_000;
    get_latest_capture(&mut st, now);
    assert!(recover_if_stale(&mut st, now, false, false).is_none());
    assert!(recover_if_stale(&mut st, now, true, true).is_none());
    let r = recover_if_stale(&mut st, now, true, false).unwrap();
    assert_eq!(r.reason, Reason::InputStalled);
    // Untouched since: not again for want of input.
    let later = 300_000;
    get_latest_capture(&mut st, later);
    assert!(recover_if_stale(&mut st, later, true, false).is_none());
    // A press that never becomes a drag is another matter.
    report_renderer_pointerdown(&mut st, later);
    report_renderer_input(&mut st, later);
    get_latest_capture(&mut st, later + 3_000);
    let r = recover_if_stale(&mut st, later + 3_000, true, false).unwrap();
    assert_eq!(r.reason, Reason::ClickStalled);
}

#[test]
fn a_drag_after_the_press_is_healthy() {
    let mut st = ThumbnailState::new();
    shown(&mut st, 1_000);
    report_renderer_input(&mut st, 99_000);
    report_renderer_pointerdown(&mut st, 95_000);
    note_drag_started(&mut st, 95_100);
    get_latest_capture(&mut st, 100_000);
    assert!(recover_if_stale(&mut st, 100_000, true, false).is_none());
}

#[test]
fn nothing_is_revived_without_a_capture() {
    let mut st = ThumbnailState::new();
    set_visible(&mut st, true);
    assert!(recover_if_stale(&mut st, 100_000, true, false).is_none());
    assert!(is_visible(Some(true)) && !is_visible(Some(false)) && !is_visible(None));
}

fn area() -> Rect {
    Rect { left: 100, top: 50, right: 2020, bottom: 1090 }
}

#[test]
fn the_thumbnail_goes_into_its_corner() {
    let m = Measures { margin: 16, desired_w: 320, desired_h: 180, min_h: 120 };
    let mut s = Settings::default();
    assert_eq!(thumbnail_geometry(&s, &area(), &m), ((320, 180), (116, 894)));
    s.thumbnail_position = "top_left".to_string();
    assert_eq!(thumbnail_geometry(&s, &area(), &m).1, (116, 66));
    s.thumbnail_position = "top_right".to_string();
    assert_eq!(thumbnail_geometry(&s, &area(), &m).1, (1684, 66));
    s.thumbnail_position = "anywhere".to_string();
    assert_eq!(thumbnail_geometry(&s, &area(), &m).1, (1684, 894));
}

#[test]
fn the_thumbnail_is_no_larger_than_fits() {
    let s = Settings::default();
    let small = Rect { left: 0, top: 0, right: 100, bottom: 80 };
    let m = Measures { margin: 16, desired_w: 320, desired_h: 40, min_h: 120 };
    assert_eq!(thumbnail_geometry(&s, &small, &m), ((68, 48), (16, 16)));
    let tiny = Rect { left: 0, top: 0, right: 10, bottom: 10 };
    assert_eq!(thumbnail_geometry(&s, &tiny, &m), ((1, 1), (16, 16)));
}

#[test]
fn sizes_have_names() {
    assert_eq!(base_width("small"), 220);
    assert_eq!(base_width("medium"), 320);
    assert_eq!(base_width("large"), 420);
    assert_eq!(base_width(""), 320);
}

#[test]
fn without_a_monitor_there_is_a_fallback() {
    assert!(pick_monitor(None, None, &Vec::new()).is_none());
    assert_eq!(fallback_position(&area()), Some((116, 66)));
    assert_eq!(fallback_position(&Rect { left: 5, top: 5, right: 5, bottom: 9 }), None);
}

#[test]
fn an_existing_file_is_shown_by_its_preview() {
    let mut st = ThumbnailState::new();
    let s = Settings::default();
    let png = file_preview(vec![7u8; 4 * 6], 3, 2, (0, 0)).unwrap();
    assert!(png.starts_with(&[0x89, b'P', b'N', b'G']));
    let (plan, toast) =
        show_capture_for_at(&mut st, &s, "C:\\x.png", Some(&png), 3, 2, Some((9, 8)), 10);
    let plan = plan.unwrap();
    assert!(toast.is_none());
    assert_eq!((plan.generation, st.generation, st.next_capture_id), (1, 1, 2));
    assert_eq!(st.last_center, Some((9, 8)));
    let p = get_latest_capture(&mut st, 11).unwrap();
    assert!(p.preview.starts_with("data:image/png;base64,iVBORw0KGgo"));
    let (plan, _) = show_capture_for(&mut st, &s, "C:\\x.png", Some(&png), 30, 20, 12);
    let plan = plan.unwrap();
    assert_eq!((plan.generation, st.generation, st.next_capture_id), (2, 2, 3));
    assert!(!plan.refresh && st.last_refresh == 0);
    assert_eq!(st.last_center, Some((15, 10)));
    let hour = 3_600_000;
    st.last_input = 13;
    let (plan, _) = show_capture_for(&mut st, &s, "C:\\x.png", Some(&png), 30, 20, hour);
    let plan = plan.unwrap();
    assert_eq!((plan.generation, plan.refresh, st.last_refresh), (3, true, hour));
    assert!(st.wanted_visible);
    let (plan, toast) = show_capture_for(&mut st, &s, "C:\\x.png", None, 30, 20, 12);
    assert!(plan.is_none());
    assert_eq!(toast.unwrap().message, "Could not preview capture");
    assert!(file_preview(vec![7u8; 4 * 5], 3, 2, (0, 0)).is_none());
    assert_eq!(open_failure("C:\\x.png", "gone").message, "Could not open C:\\x.png: gone");
}

#[test]
fn a_preview_is_scaled_down_with_its_proportions() {
    let (w, h) = (1024u32, 256u32);
    let png = file_preview(vec![200u8; (w * h * 4) as usize], w, h, (512, 128)).unwrap();
    let img = image::load_from_memory(&png).unwrap();
    assert_eq!((img.width(), img.height()), (512, 128));
    assert_eq!(img.to_rgba8().get_pixel(500, 100).0, [200; 4]);
}

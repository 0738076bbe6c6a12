use snapdrop::audio::{packet_bytes, pump, AudioLoopback, BYTES_PER_SECOND, MAX_PACKETS};
use snapdrop::commands::{video_record_arm_cancel, video_record_begin};
use snapdrop::history::{FileFacts, HistoryState};
use snapdrop::monitors::{MonitorInfo, Rect};
use snapdrop::toolbar::{
    arm, is_muted, is_paused, place, region_center, show_border, show_recording, toggle_mute,
    toggle_pause, ToolbarFlags,
};
use snapdrop::video_recording::{
    flip_rows, is_recording_active, record_headless, recording_started, register_recording,
    start_recording, stop_done, stop_recording, stop_result, video_bitrate_bps, FramePlan,
    FrameRest, GpuOutcome, RecorderFlags, RecordingResult, VideoRecorder, VideoSession,
};

fn rect(left: i32, top: i32, right: i32, bottom: i32) -> Rect {
    Rect { left, top, right, bottom }
}

fn monitor(r: Rect) -> MonitorInfo {
    MonitorInfo { hmonitor: 1, rect: r, work: r, is_primary: true, device: [0; 32], dpi: 96 }
}

fn session() -> VideoSession {
    VideoSession::new(
        RecorderFlags {
            region: rect(110, 20, 411, 221),
            monitor_rect: rect(100, 0, 2020, 1080),
            output_path: "C:\\v.mp4".to_string(),
            fps: 30,
        },
        1_000,
    )
}

fn stamp(p: FramePlan) -> i64 {
    match p {
        FramePlan::Encode { ts, .. } => ts,
        FramePlan::Skip { .. } => panic!("skipped"),
    }
}

#[test]
fn bitrates_are_bounded() {
    assert_eq!(video_bitrate_bps(1920, 1080, 30), 6_220_800);
    assert_eq!(video_bitrate_bps(100, 100, 5), 1_500_000);
    assert_eq!(video_bitrate_bps(7680, 4320, 60), 20_000_000);
}

#[test]
fn sides_are_even() {
    let s = session();
    assert_eq!((s.enc_w, s.enc_h), (300, 200));
    let tiny = VideoSession::new(
        RecorderFlags {
            region: rect(5, 5, 5, 4),
            monitor_rect: rect(0, 0, 10, 10),
            output_path: String::new(),
            fps: 30,
        },
        0,
    );
    assert_eq!((tiny.enc_w, tiny.enc_h), (2, 2));
}

#[test]
fn the_timeline_starts_at_zero_and_leaves_pauses_out() {
    let mut s = session();
    assert_eq!(
        s.on_frame_arrived(5_000, 10_000, false, false),
        FramePlan::Encode { ts: 0, ox: 10, oy: 20, gpu: true }
    );
    assert_eq!(stamp(s.on_frame_arrived(6_000, 11_000, false, false)), 1_000);
    assert_eq!(s.on_frame_arrived(7_000, 12_000, true, false), FramePlan::Skip { stop: false });
    assert_eq!(s.on_frame_arrived(8_000, 13_000, true, true), FramePlan::Skip { stop: true });
    assert_eq!(stamp(s.on_frame_arrived(9_000, 15_000, false, false)), 2_000);
    assert_eq!((s.paused_wgc, s.paused_accum), (2_000, 3_000));
    // Never before the start.
    assert_eq!(stamp(s.on_frame_arrived(0, 15_000, false, false)), 0);
}

#[test]
fn a_failed_gpu_falls_back_to_reading_the_frame() {
    let mut s = session();
    let done = GpuOutcome::Done { dropped_before: 3, dropped_after: 3 };
    assert_eq!(s.after_gpu(done, 10, 20, 1920, 1080), FrameRest::Sent);
    let dropped = GpuOutcome::Done { dropped_before: 3, dropped_after: 4 };
    let back = FrameRest::ReadBack { x0: 10, y0: 20, x1: 310, y1: 220 };
    assert_eq!(s.after_gpu(dropped, 10, 20, 1920, 1080), back);
    assert!(s.use_gpu);
    assert_eq!(s.after_gpu(GpuOutcome::Failed, 10, 20, 1920, 1080), back);
    assert!(!s.use_gpu);
    assert_eq!(s.after_gpu(GpuOutcome::NotTried, 10, 20, 309, 1080), FrameRest::Lost);
}

#[test]
fn frames_are_counted() {
    let mut s = session();
    let e = s.end_frame(true, false);
    assert!(e.start_audio && !e.log_health && !e.stop);
    s.frames = 149;
    let e = s.end_frame(true, true);
    assert!(!e.start_audio && e.log_health && e.stop);
    assert_eq!(s.frames, 150);
    assert!(!s.end_frame(false, false).log_health);
}

#[test]
fn a_finished_recording_tells_its_length() {
    let mut s = session();
    s.frames = 9;
    s.paused_accum = 1_000_000_000;
    s.stop_time = Some(6_000_001_000);
    let r = s.finalize(Some(true), 99_000_000_000);
    assert_eq!((r.frames, r.elapsed_ms, r.width, r.height), (9, 5_000, 300, 200));
    assert_eq!(r.path, "C:\\v.mp4");
    let r = s.finalize(Some(false), 0);
    assert_eq!(r.frames, 0);
    let r = s.finalize(None, 0);
    assert_eq!((r.frames, r.elapsed_ms), (0, 5_000));
}

#[test]
fn flipping_twice_changes_nothing() {
    let b = vec![1, 2, 3, 4, 5, 6];
    let f = flip_rows(&b, 2, 3);
    assert_eq!(f, vec![5, 6, 3, 4, 1, 2]);
    assert_eq!(flip_rows(&f, 2, 3), b);
}

#[test]
fn one_recording_at_a_time() {
    let mut rec: VideoRecorder<u8> = VideoRecorder::new();
    let region = rect(0, 0, 100, 100);
    let m = Some(monitor(rect(0, 0, 1920, 1080)));
    let plan = start_recording(&mut rec, &region, "C:\\v.mp4", 24, m).unwrap();
    assert_eq!((plan.flags.fps, plan.interval_ns), (24, 41_666_666));
    assert_eq!(
        start_recording(&mut rec, &region, "x", 24, m).err().unwrap(),
        "a recording is already starting"
    );
    assert!(recording_started(&mut rec, Ok(7)).is_ok());
    assert!(rec.is_recording() && is_recording_active(&rec));
    assert_eq!(rec.try_reserve_start().unwrap_err(), "a recording is already active");
    assert_eq!(stop_recording(&mut rec), Ok(7));
    assert!(!rec.is_recording() && is_recording_active(&rec));
    assert!(stop_done(&mut rec));
    assert!(!is_recording_active(&rec));
    assert_eq!(stop_recording(&mut rec).unwrap_err(), "no recording is active");
}

#[test]
fn a_failed_start_frees_the_slot() {
    let mut rec: VideoRecorder<u8> = VideoRecorder::new();
    assert!(rec.try_reserve_start().is_ok());
    assert_eq!(recording_started(&mut rec, Err("no gpu".to_string())).unwrap_err(), "no gpu");
    assert!(rec.try_reserve_start().is_ok());
    let mut rec: VideoRecorder<u8> = VideoRecorder::new();
    assert_eq!(
        start_recording(&mut rec, &rect(0, 0, 1, 1), "x", 30, None).err().unwrap(),
        "region is not on any monitor"
    );
    assert!(!is_recording_active(&rec));
    assert!(rec.try_reserve_start().is_ok());
}

#[test]
fn a_new_start_survives_the_end_of_the_old_recording() {
    let mut rec: VideoRecorder<u8> = VideoRecorder::new();
    recording_started(&mut rec, Ok(1)).unwrap();
    stop_recording(&mut rec).unwrap();
    rec.try_reserve_start().unwrap();
    assert!(!stop_done(&mut rec));
    assert!(is_recording_active(&rec));
}

#[test]
fn frame_rates_are_sane() {
    let of = |fps: u32| record_headless(&rect(0, 0, 9, 9), 1920, 1080, "x", fps);
    assert_eq!(of(0).flags.fps, 5);
    assert_eq!(of(30).flags.fps, 30);
    assert_eq!(of(500).flags.fps, 60);
    assert_eq!(of(30).flags.monitor_rect, rect(0, 0, 1920, 1080));
    assert_eq!(of(30).interval_ns, 33_333_333);
}

#[test]
fn armed_regions_are_taken_once() {
    let mut rec: VideoRecorder<u8> = VideoRecorder::new();
    assert_eq!(
        video_record_begin(&mut rec).err().unwrap(),
        "No region selected — press Ctrl+Alt+V first"
    );
    rec.arm(rect(1, 2, 3, 4), "C:\\v.mp4".to_string(), true, true);
    let p = video_record_begin(&mut rec).unwrap();
    assert_eq!(p.region, rect(1, 2, 3, 4));
    assert!(rec.take_pending().is_none());
    rec.arm(rect(1, 2, 3, 4), "C:\\v.mp4".to_string(), false, true);
    assert_eq!(video_record_arm_cancel(&mut rec), Some((false, true)));
    assert_eq!(video_record_arm_cancel(&mut rec), Some((true, false)));
    rec.active = true;
    assert_eq!(video_record_arm_cancel(&mut rec), None);
}

#[test]
fn a_stalled_encoder_is_told() {
    let (r, t) = stop_result(Some(RecordingResult::default()), "p".to_string(), 4, 2, 9);
    assert!(t.is_none() && r.path.is_empty());
    let (r, t) = stop_result(None, "p".to_string(), 4, 2, 9);
    assert_eq!((r.path.as_str(), r.frames, r.elapsed_ms, r.width, r.height), ("p", 1, 0, 4, 2));
    assert!(t.unwrap().message.starts_with("Recording stopped but the encoder stalled"));
    assert_eq!(stop_result(None, "p".to_string(), 4, 2, 0).0.frames, 0);
}

#[test]
fn recordings_enter_the_history() {
    let mut h = HistoryState(Vec::new());
    let f = FileFacts { size: Some(5), dimensions: None };
    let mut r = RecordingResult::default();
    assert!(!register_recording(&r, &mut h, &f, 10));
    r.frames = 3;
    assert!(!register_recording(&r, &mut h, &f, 10));
    r.path = "C:\\v.mp4".to_string();
    r.elapsed_ms = 900;
    r.width = 8;
    assert!(register_recording(&r, &mut h, &f, 10));
    assert_eq!((h.0[0].duration_secs, h.0[0].size_bytes, h.0[0].width), (1, 5, 8));
    r.elapsed_ms = 61_999;
    register_recording(&r.clone(), &mut h, &f, 10);
    assert_eq!(h.0.len(), 1);
    assert_eq!(h.0[0].duration_secs, 61);
}

#[test]
fn the_queue_of_sound_is_bounded() {
    let mut a = AudioLoopback::start();
    for i in 0..MAX_PACKETS {
        assert!(a.offer(vec![i as u8, 1]));
    }
    assert!(!a.offer(vec![9, 9]));
    let pcm = a.drain();
    assert_eq!(pcm.len(), 2 * MAX_PACKETS);
    assert_eq!(pcm[..4], [0, 1, 1, 1]);
    assert!(a.drain().is_empty());
    assert_eq!(packet_bytes(480), 1920);
    assert_eq!(BYTES_PER_SECOND, 192_000);
}

#[test]
fn muted_sound_is_silence_of_the_same_length() {
    let mut n = 10u64;
    assert_eq!(pump(vec![1, 2, 3, 4], false, false, &mut n), Some(vec![1, 2, 3, 4]));
    assert_eq!(pump(vec![1, 2, 3, 4], false, true, &mut n), Some(vec![0; 4]));
    assert_eq!(n, 18);
    assert_eq!(pump(vec![1], true, false, &mut n), None);
    assert_eq!(pump(Vec::new(), false, false, &mut n), None);
    assert_eq!(n, 18);
}

#[test]
fn a_new_recording_starts_unmuted_and_running() {
    let mut f = ToolbarFlags { muted: false, paused: false };
    assert!(toggle_mute(&mut f) && toggle_pause(&mut f));
    assert!(is_muted(&f) && is_paused(&f));
    let s = arm(&f);
    assert!(!s.recording && s.muted && s.paused);
    let s = show_recording(&mut f);
    assert!(s.recording && !s.muted && !s.paused);
    assert!(!is_muted(&f) && !is_paused(&f));
}

#[test]
fn the_toolbar_goes_below_the_region_or_above() {
    let m = rect(0, 0, 1920, 1080);
    assert_eq!(place(&rect(600, 100, 1000, 500), &m), (620, 512));
    assert_eq!(place(&rect(600, 500, 1000, 1050), &m), (620, 408));
    assert_eq!(place(&rect(0, 0, 1920, 1080), &m), (780, 8));
    assert_eq!(place(&rect(0, 100, 50, 150), &m), (8, 162));
    assert_eq!(region_center(&rect(-10, 0, 11, 9)), (0, 4));
}

#[test]
fn the_border_surrounds_the_region() {
    assert_eq!(show_border(&rect(100, 200, 400, 500)), ((52, 152), (396, 396)));
    assert_eq!(show_border(&rect(0, 0, 3, 40)), ((-48, -48), (112, 136)));
}

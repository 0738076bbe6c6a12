//! Video recording: the session that turns captured frames into a timeline,
//! and the recorder that starts and stops sessions.

use vstd::prelude::*;

use crate::filename::{is_time, timestamp};
use crate::history::{self, FileFacts, HistoryEntry, HistoryState};
use crate::monitors::{MonitorInfo, Rect};
use crate::notifier::{payload, ToastPayload};
use crate::overlay::greatest;

verus! {

/// The least and the greatest frame rate.
pub const MIN_FPS: u32 = 5;

pub const MAX_FPS: u32 = 60;

/// The bounds of the bitrate, in bits per second.
pub const MIN_BITRATE: u64 = 1_500_000;

pub const MAX_BITRATE: u64 = 20_000_000;

/// The health of a session is logged after every so many frames.
pub const HEALTH_FRAMES: u64 = 150;

/// Milliseconds between two rounds of the audio pump.
pub const PUMP_MS: u64 = 15;

/// Seconds to wait for the encoder to finish.
pub const FINALIZE_TIMEOUT_SECS: u64 = 20;

/// A tenth of a bit for each pixel of each frame, within bounds.
pub open spec fn bitrate(w: int, h: int, fps: int) -> int {
    crate::overlay::clamped((w * h * fps) / 10, MIN_BITRATE as int, MAX_BITRATE as int)
}

/// Target encode bitrate for a region.
pub fn video_bitrate_bps(w: u32, h: u32, fps: u32) -> (r: u32)
    requires
        w * h * fps <= u64::MAX,
    ensures
        r == bitrate(w as int, h as int, fps as int),
{
    assert(0 <= w * h <= 0xffff_ffff * 0xffff_ffff) by (nonlinear_arith)
        requires
            0 <= w <= 0xffff_ffff,
            0 <= h <= 0xffff_ffff,
    ;
    let raw: u64 = (w as u64) * (h as u64) * (fps as u64) / 10;
    if raw < MIN_BITRATE {
        MIN_BITRATE as u32
    } else if raw > MAX_BITRATE {
        MAX_BITRATE as u32
    } else {
        raw as u32
    }
}

/// What a session records.
#[derive(Debug)]
pub struct RecorderFlags {
    /// The region to record, in physical virtual-screen px.
    pub region: Rect,
    /// Physical rect of the monitor being captured, for crop offsets.
    pub monitor_rect: Rect,
    /// Full path of the MP4 to write.
    pub output_path: String,
    /// Capture rate (frames per second).
    pub fps: u32,
}

/// Outcome of a finished recording session.
#[derive(Debug)]
pub struct RecordingResult {
    pub path: String,
    pub frames: u64,
    pub elapsed_ms: u128,
    /// Recorded region dimensions (even), for the history entry.
    pub width: u32,
    pub height: u32,
}

impl Clone for RecordingResult {
    fn clone(&self) -> (r: RecordingResult)
        ensures
            r == *self,
    {
        RecordingResult {
            path: self.path.clone(),
            frames: self.frames,
            elapsed_ms: self.elapsed_ms,
            width: self.width,
            height: self.height,
        }
    }
}

impl Default for RecordingResult {
    fn default() -> (r: RecordingResult)
        ensures
            r.path@.len() == 0,
            r.frames == 0 && r.elapsed_ms == 0 && r.width == 0 && r.height == 0,
    {
        RecordingResult { path: String::new(), frames: 0, elapsed_ms: 0, width: 0, height: 0 }
    }
}

/// A running session. Wall-clock times are nanoseconds of a monotonic clock;
/// frame times are the capture's own, in steps of 100 nanoseconds.
pub struct VideoSession {
    pub region: Rect,
    pub monitor_rect: Rect,
    /// Even encoder width (encoders need even dimensions).
    pub enc_w: u32,
    /// Even encoder height.
    pub enc_h: u32,
    pub output_path: String,
    pub started: u64,
    pub frames: u64,
    /// When the stop was requested, so that the duration leaves the time of
    /// stopping out.
    pub stop_time: Option<u64>,
    /// Time spent paused.
    pub paused_accum: u64,
    pub currently_paused: bool,
    pub pause_started_at: Option<u64>,
    /// The same, in the clock of the frames.
    pub paused_wgc: i64,
    pub pause_wgc_start: Option<i64>,
    /// The time of the first frame: the origin of the timeline.
    pub first_wgc_ts: Option<i64>,
    /// True until the first frame is handled.
    pub first_frame: bool,
    /// False once cropping on the GPU has failed.
    pub use_gpu: bool,
    pub fps: u32,
    pub result: RecordingResult,
}

/// The largest even number that is not greater than a side, at least 2.
pub open spec fn even_side(side: int) -> int {
    greatest(side, 2) / 2 * 2
}

fn even(side: i64) -> (r: u32)
    requires
        side <= i32::MAX,
    ensures
        r == even_side(side as int),
{
    let n: i64 = if side >= 2 {
        side
    } else {
        2
    };
    (n / 2 * 2) as u32
}

/// A number moved to the nearest one that 64 bits can hold.
pub open spec fn saturated(n: int) -> int {
    crate::overlay::clamped(n, i64::MIN as int, i64::MAX as int)
}

fn saturating_difference(a: i64, b: i64) -> (r: i64)
    ensures
        r == saturated(a - b),
{
    let d: i128 = a as i128 - b as i128;
    if d < i64::MIN as i128 {
        i64::MIN
    } else if d > i64::MAX as i128 {
        i64::MAX
    } else {
        d as i64
    }
}

/// The time of a frame in the recording: since the first frame, without the
/// time spent paused, and never negative.
pub open spec fn frame_time(ts: int, base: int, paused: int) -> int {
    greatest(saturated(saturated(ts - base) - paused), 0)
}

/// What happens to a frame.
#[derive(Clone, Copy, Debug, PartialEq, Eq, Structural)]
pub enum FramePlan {
    /// Paused: the frame is dropped, and the session may end.
    Skip { stop: bool },
    /// The frame is encoded with this time, cropped from this point on.
    Encode { ts: i64, ox: u32, oy: u32, gpu: bool },
}

/// What came of cropping a frame on the GPU: how many frames the encoder had
/// shed before and after, or that it failed.
#[derive(Clone, Copy, Debug, PartialEq, Eq, Structural)]
pub enum GpuOutcome {
    NotTried,
    Done { dropped_before: u64, dropped_after: u64 },
    Failed,
}

/// What is left to do for a frame.
#[derive(Clone, Copy, Debug, PartialEq, Eq, Structural)]
pub enum FrameRest {
    /// It has reached the encoder.
    Sent,
    /// It is read back: from here, to there.
    ReadBack { x0: u32, y0: u32, x1: u32, y1: u32 },
    /// It is lost.
    Lost,
}

/// What the end of a frame asks for.
#[derive(Clone, Copy, Debug, PartialEq, Eq, Structural)]
pub struct FrameEnd {
    pub log_health: bool,
    /// The first frame opens the audio.
    pub start_audio: bool,
    pub stop: bool,
}

impl VideoSession {
    /// A session that records a region, at a time.
    pub fn new(flags: RecorderFlags, now: u64) -> (s: VideoSession)
        requires
            flags.region.width() <= i32::MAX,
            flags.region.height() <= i32::MAX,
        ensures
            s.region == flags.region && s.monitor_rect == flags.monitor_rect,
            s.enc_w == even_side(flags.region.width()),
            s.enc_h == even_side(flags.region.height()),
            s.output_path@ == flags.output_path@,
            s.started == now,
            s.frames == 0,
            s.stop_time is None,
            s.paused_accum == 0 && !s.currently_paused && s.pause_started_at is None,
            s.paused_wgc == 0 && s.pause_wgc_start is None,
            s.first_wgc_ts is None,
            s.first_frame && s.use_gpu,
            s.fps == flags.fps,
            s.result.frames == 0,
            s.pauses_ok(),
    {
        VideoSession {
            region: flags.region,
            monitor_rect: flags.monitor_rect,
            enc_w: even(flags.region.right as i64 - flags.region.left as i64),
            enc_h: even(flags.region.bottom as i64 - flags.region.top as i64),
            output_path: flags.output_path,
            started: now,
            frames: 0,
            stop_time: None,
            paused_accum: 0,
            currently_paused: false,
            pause_started_at: None,
            paused_wgc: 0,
            pause_wgc_start: None,
            first_wgc_ts: None,
            first_frame: true,
            use_gpu: true,
            fps: flags.fps,
            result: RecordingResult::default(),
        }
    }

    /// A pause under way has a start in both clocks, and only then.
    pub open spec fn pauses_ok(self) -> bool {
        &&& self.currently_paused == self.pause_started_at is Some
        &&& self.currently_paused == self.pause_wgc_start is Some
    }

    /// The session once the pause switch has been looked at.
    pub open spec fn pause_seen(self, ts: i64, now: u64, pause_req: bool) -> VideoSession {
        if pause_req && !self.currently_paused {
            VideoSession {
                currently_paused: true,
                pause_started_at: Some(now),
                pause_wgc_start: Some(ts),
                ..self
            }
        } else if !pause_req && self.currently_paused {
            VideoSession {
                currently_paused: false,
                paused_accum: (self.paused_accum + (now - self.pause_started_at->0)) as u64,
                pause_started_at: None,
                paused_wgc: (self.paused_wgc + saturated(ts - self.pause_wgc_start->0)) as i64,
                pause_wgc_start: None,
                ..self
            }
        } else {
            self
        }
    }

    /// Whether the ends of the clocks are far enough away.
    pub open spec fn clocks_ok(self, ts: i64, now: u64, pause_req: bool) -> bool {
        !pause_req && self.currently_paused ==> {
            &&& self.pause_started_at->0 <= now
            &&& self.paused_accum + (now - self.pause_started_at->0) <= u64::MAX
            &&& i64::MIN <= self.paused_wgc + saturated(ts - self.pause_wgc_start->0) <= i64::MAX
        }
    }

    /// The crop origin, relative to the captured monitor.
    pub open spec fn crop_origin(self) -> (int, int) {
        (
            greatest(self.region.left - self.monitor_rect.left, 0),
            greatest(self.region.top - self.monitor_rect.top, 0),
        )
    }

    /// The origin of the timeline, once a frame with the given time is seen.
    pub open spec fn origin(self, ts: i64) -> i64 {
        match self.first_wgc_ts {
            Some(b) => b,
            None => ts,
        }
    }

    /// Takes a frame. A paused session drops it; otherwise it gets its place
    /// in the timeline and its crop.
    pub fn on_frame_arrived(&mut self, ts: i64, now: u64, pause_req: bool, stop_requested: bool) -> (
        plan: FramePlan)
        requires
            old(self).pauses_ok(),
            old(self).clocks_ok(ts, now, pause_req),
            old(self).region.left - old(self).monitor_rect.left <= i32::MAX,
            old(self).region.top - old(self).monitor_rect.top <= i32::MAX,
        ensures
            final(self).pauses_ok(),
            ({
                let seen = old(self).pause_seen(ts, now, pause_req);
                if pause_req {
                    &&& plan == FramePlan::Skip { stop: stop_requested }
                    &&& *final(self) == seen
                } else {
                    &&& *final(self) == (VideoSession {
                        first_wgc_ts: Some(old(self).origin(ts)),
                        ..seen
                    })
                    &&& plan matches FramePlan::Encode { ts: t, ox, oy, gpu } && {
                        &&& t == frame_time(
                            ts as int,
                            old(self).origin(ts) as int,
                            seen.paused_wgc as int,
                        )
                        &&& ox == old(self).crop_origin().0
                        &&& oy == old(self).crop_origin().1
                        &&& gpu == old(self).use_gpu
                        &&& old(self).monitor_rect.left <= old(self).region.left ==> old(
                            self,
                        ).monitor_rect.left + ox == old(self).region.left
                        &&& old(self).monitor_rect.top <= old(self).region.top ==> old(
                            self,
                        ).monitor_rect.top + oy == old(self).region.top
                    }
                }
            }),
            plan is Skip == pause_req,
            !pause_req ==> final(self).first_wgc_ts == Some(
                if old(self).first_wgc_ts is Some {
                    old(self).first_wgc_ts->0
                } else {
                    ts
                },
            ),
            !pause_req && old(self).first_wgc_ts is None && final(self).paused_wgc == 0 ==> (
            plan matches FramePlan::Encode { ts: t, .. } && t == 0),
            final(self).region == old(self).region && final(self).monitor_rect == old(
                self,
            ).monitor_rect,
            final(self).frames == old(self).frames && final(self).enc_w == old(self).enc_w
                && final(self).enc_h == old(self).enc_h,
    {
        if pause_req && !self.currently_paused {
            self.currently_paused = true;
            self.pause_started_at = Some(now);
            self.pause_wgc_start = Some(ts);
        } else if !pause_req && self.currently_paused {
            if let Some(ps) = self.pause_started_at {
                self.paused_accum = self.paused_accum + (now - ps);
            }
            self.pause_started_at = None;
            if let Some(pw) = self.pause_wgc_start {
                self.paused_wgc = self.paused_wgc + saturating_difference(ts, pw);
            }
            self.pause_wgc_start = None;
            self.currently_paused = false;
        }
        if self.currently_paused {
            return FramePlan::Skip { stop: stop_requested };
        }
        let base: i64 = match self.first_wgc_ts {
            Some(b) => b,
            None => ts,
        };
        self.first_wgc_ts = Some(base);
        let t: i64 = saturating_difference(saturating_difference(ts, base), self.paused_wgc);
        let t: i64 = if t >= 0 {
            t
        } else {
            0
        };
        let dx: i64 = self.region.left as i64 - self.monitor_rect.left as i64;
        let dy: i64 = self.region.top as i64 - self.monitor_rect.top as i64;
        let ox: u32 = if dx >= 0 {
            dx as u32
        } else {
            0
        };
        let oy: u32 = if dy >= 0 {
            dy as u32
        } else {
            0
        };
        FramePlan::Encode { ts: t, ox, oy, gpu: self.use_gpu }
    }

    /// Takes what came of cropping a frame on the GPU. A frame that the encoder
    /// shed has not reached it. A failure ends the use of the GPU. What has not
    /// been sent is read back, if the crop lies within the frame.
    pub fn after_gpu(&mut self, outcome: GpuOutcome, ox: u32, oy: u32, frame_w: u32, frame_h: u32)
        -> (rest: FrameRest)
        ensures
            *final(self) == (VideoSession {
                use_gpu: old(self).use_gpu && outcome != GpuOutcome::Failed,
                ..*old(self)
            }),
            rest == (if outcome matches GpuOutcome::Done { dropped_before, dropped_after }
                && dropped_before == dropped_after {
                FrameRest::Sent
            } else if ox + old(self).enc_w <= frame_w && oy + old(self).enc_h <= frame_h {
                FrameRest::ReadBack {
                    x0: ox,
                    y0: oy,
                    x1: (ox + old(self).enc_w) as u32,
                    y1: (oy + old(self).enc_h) as u32,
                }
            } else {
                FrameRest::Lost
            }),
    {
        match outcome {
            GpuOutcome::Done { dropped_before, dropped_after } => {
                if dropped_before == dropped_after {
                    return FrameRest::Sent;
                }
            },
            GpuOutcome::Failed => {
                self.use_gpu = false;
            },
            GpuOutcome::NotTried => {},
        }
        let x1: u64 = ox as u64 + self.enc_w as u64;
        let y1: u64 = oy as u64 + self.enc_h as u64;
        if x1 <= frame_w as u64 && y1 <= frame_h as u64 {
            FrameRest::ReadBack { x0: ox, y0: oy, x1: x1 as u32, y1: y1 as u32 }
        } else {
            FrameRest::Lost
        }
    }

    /// Ends a frame that was sent or lost.
    pub fn end_frame(&mut self, sent: bool, stop_requested: bool) -> (end: FrameEnd)
        requires
            sent ==> old(self).frames < u64::MAX,
        ensures
            *final(self) == (VideoSession {
                frames: (old(self).frames + (if sent {
                    1int
                } else {
                    0
                })) as u64,
                first_frame: false,
                ..*old(self)
            }),
            end == (FrameEnd {
                log_health: sent && final(self).frames % HEALTH_FRAMES == 0,
                start_audio: old(self).first_frame,
                stop: stop_requested,
            }),
    {
        let mut log_health = false;
        if sent {
            self.frames = self.frames + 1;
            log_health = self.frames % HEALTH_FRAMES == 0;
        }
        let start_audio = self.first_frame;
        self.first_frame = false;
        FrameEnd { log_health, start_audio, stop: stop_requested }
    }

    /// The time that a session has recorded so far, without its pauses.
    pub open spec fn recorded(self, now: u64) -> int {
        let end = match self.stop_time {
            Some(t) => t,
            None => now,
        };
        (if end >= self.started {
            end - self.started
        } else {
            0
        }) - self.paused_accum
    }

    /// Closes the session with what came of finishing the encoder: a file that
    /// was not finished counts as empty. A session whose encoder is gone keeps
    /// the result that it had.
    pub fn finalize(&mut self, finished: Option<bool>, now: u64) -> (r: RecordingResult)
        requires
            finished is Some ==> old(self).recorded(now) >= 0,
        ensures
            r == final(self).result,
            match finished {
                None => *final(self) == *old(self),
                Some(ok) => {
                    &&& final(self).frames == (if ok {
                        old(self).frames
                    } else {
                        0
                    })
                    &&& *final(self) == (VideoSession {
                        frames: final(self).frames,
                        result: r,
                        ..*old(self)
                    })
                    &&& r.path@ == old(self).output_path@
                    &&& r.frames == final(self).frames
                    &&& r.elapsed_ms == old(self).recorded(now) / 1_000_000
                    &&& r.width == old(self).enc_w && r.height == old(self).enc_h
                },
            },
    {
        if let Some(ok) = finished {
            if !ok {
                self.frames = 0;
            }
            let end: u64 = match self.stop_time {
                Some(t) => t,
                None => now,
            };
            let span: u64 = if end >= self.started {
                end - self.started
            } else {
                0
            };
            let recorded: u64 = span - self.paused_accum;
            self.result = RecordingResult {
                path: self.output_path.clone(),
                frames: self.frames,
                elapsed_ms: (recorded / 1_000_000) as u128,
                width: self.enc_w,
                height: self.enc_h,
            };
        }
        self.result.clone()
    }
}

/// The rows of a picture in the opposite order.
pub open spec fn flipped(bytes: Seq<u8>, row: int, h: int) -> Seq<u8> {
    Seq::new(bytes.len(), |i: int| bytes[(h - 1 - i / row) * row + i % row])
}

/// Turns a picture of `h` rows upside down.
pub fn flip_rows(bgra: &Vec<u8>, row: usize, h: usize) -> (r: Vec<u8>)
    requires
        row > 0,
        bgra@.len() == row * h,
    ensures
        r@ == flipped(bgra@, row as int, h as int),
{
    let n: usize = bgra.len();
    let mut r: Vec<u8> = Vec::new();
    let mut y: usize = 0;
    while y < h
        invariant
            row > 0,
            n == row * h,
            n == bgra@.len(),
            y <= h,
            r@.len() == y * row,
            forall|i: int|
                0 <= i < y * row ==> r@[i] == #[trigger] flipped(bgra@, row as int, h as int)[i],
        decreases h - y,
    {
        let from: usize = h - 1 - y;
        assert(from * row + row <= n && y * row + row <= n) by (nonlinear_arith)
            requires
                from == h - 1 - y,
                y < h,
                n == row * h,
        ;
        let start: usize = from * row;
        let mut x: usize = 0;
        while x < row
            invariant
                row > 0,
                n == row * h,
                n == bgra@.len(),
                y < h,
                from == h - 1 - y,
                start == from * row,
                start + row <= n,
                y * row + row <= n,
                x <= row,
                r@.len() == y * row + x,
                forall|i: int|
                    0 <= i < y * row + x ==> r@[i] == #[trigger] flipped(
                        bgra@,
                        row as int,
                        h as int,
                    )[i],
            decreases row - x,
        {
            r.push(bgra[start + x]);
            proof {
                let i = y * row + x;
                assert(i / (row as int) == y && i % (row as int) == x) by {
                    vstd::arithmetic::div_mod::lemma_fundamental_div_mod_converse(
                        i,
                        row as int,
                        y as int,
                        x as int,
                    );
                }
                assert(flipped(bgra@, row as int, h as int)[i] == bgra@[(h - 1 - y) * row + x]);
            }
            x = x + 1;
        }
        assert((y + 1) * row == y * row + row) by (nonlinear_arith);
        y = y + 1;
    }
    assert(r@ =~= flipped(bgra@, row as int, h as int)) by {
        assert(h * row == row * h) by (nonlinear_arith);
    }
    r
}

/// A region selected for recording but not yet started.
#[derive(Debug)]
pub struct PendingRecording {
    pub region: Rect,
    pub path: String,
    /// The main window's state before the selection, to restore it when the
    /// recording is cancelled.
    pub was_visible: bool,
    pub was_minimized: bool,
}

/// The recorder: the live session's control, what is armed, and whether a
/// start is under way.
pub struct VideoRecorder<C> {
    pub control: Option<C>,
    pub pending: Option<PendingRecording>,
    /// True from when a start is reserved until the control is stored, so that
    /// two starts at a time cannot both pass.
    pub starting: bool,
    /// Whether a recording is going on.
    pub active: bool,
}

pub fn is_recording_active<C>(rec: &VideoRecorder<C>) -> (r: bool)
    ensures
        r == rec.active,
{
    rec.active
}

impl<C> VideoRecorder<C> {
    pub fn new() -> (r: VideoRecorder<C>)
        ensures
            r.control is None && r.pending is None && !r.starting && !r.active,
    {
        VideoRecorder { control: None, pending: None, starting: false, active: false }
    }

    pub fn is_recording(&self) -> (r: bool)
        ensures
            r == (self.control is Some),
    {
        self.control.is_some()
    }

    /// Reserves the start slot, unless a recording is active or another start
    /// is being set up.
    pub fn try_reserve_start(&mut self) -> (r: Result<(), String>)
        ensures
            match r {
                Ok(_) => old(self).idle() && *final(self) == old(self).reserved(),
                Err(e) => !old(self).idle() && *final(self) == *old(self) && e@ == (
                if old(self).control is Some {
                    "a recording is already active"@
                } else {
                    "a recording is already starting"@
                }),
            },
    {
        if self.control.is_some() {
            return Err("a recording is already active".to_owned());
        }
        if self.starting {
            return Err("a recording is already starting".to_owned());
        }
        self.starting = true;
        Ok(())
    }

    /// Arms a recording from the selection flow; it is started later.
    pub fn arm(&mut self, region: Rect, path: String, was_visible: bool, was_minimized: bool)
        ensures
            *final(self) == (VideoRecorder {
                pending: Some(PendingRecording { region, path, was_visible, was_minimized }),
                ..*old(self)
            }),
    {
        self.pending = Some(PendingRecording { region, path, was_visible, was_minimized });
    }

    pub fn take_pending(&mut self) -> (r: Option<PendingRecording>)
        ensures
            r == old(self).pending,
            *final(self) == (VideoRecorder { pending: None, ..*old(self) }),
    {
        self.pending.take()
    }

    /// Whether neither a recording nor a start is under way.
    pub open spec fn idle(self) -> bool {
        self.control is None && !self.starting
    }

    /// With the start slot taken.
    pub open spec fn reserved(self) -> VideoRecorder<C> {
        VideoRecorder { starting: true, ..self }
    }

    /// With a live session.
    pub open spec fn live(self, control: C) -> VideoRecorder<C> {
        VideoRecorder { control: Some(control), starting: false, active: true, ..self }
    }

    /// With the start slot given back.
    pub open spec fn failed(self) -> VideoRecorder<C> {
        VideoRecorder { starting: false, ..self }
    }

    /// With the session's control taken out.
    pub open spec fn stopped(self) -> VideoRecorder<C> {
        VideoRecorder { control: None, ..self }
    }
}

/// A frame rate within bounds.
pub open spec fn sane_fps(fps: u32) -> int {
    crate::overlay::clamped(fps as int, MIN_FPS as int, MAX_FPS as int)
}

fn clamp_fps(fps: u32) -> (r: u32)
    ensures
        r == sane_fps(fps),
{
    if fps < MIN_FPS {
        MIN_FPS
    } else if fps > MAX_FPS {
        MAX_FPS
    } else {
        fps
    }
}

/// A session to start.
pub struct RecordingPlan {
    pub flags: RecorderFlags,
    /// Nanoseconds between two frames.
    pub interval_ns: u64,
}

/// Whether a plan records a region of a monitor at a frame rate.
pub open spec fn records(
    p: RecordingPlan,
    region: Rect,
    monitor_rect: Rect,
    path: Seq<char>,
    fps: u32,
) -> bool {
    &&& p.flags.region == region
    &&& p.flags.monitor_rect == monitor_rect
    &&& p.flags.output_path@ == path
    &&& p.flags.fps == sane_fps(fps)
    &&& p.interval_ns == 1_000_000_000int / sane_fps(fps)
}

fn plan(region: &Rect, monitor_rect: &Rect, path: &str, fps: u32) -> (p: RecordingPlan)
    ensures
        records(p, *region, *monitor_rect, path@, fps),
{
    let fps: u32 = clamp_fps(fps);
    RecordingPlan {
        flags: RecorderFlags {
            region: *region,
            monitor_rect: *monitor_rect,
            output_path: path.to_owned(),
            fps,
        },
        interval_ns: 1_000_000_000 / fps as u64,
    }
}

/// Begins a recording of a region. The start slot is reserved first, and freed
/// again where the start ends here; `monitor` is the one that the middle of the
/// region lies on.
pub fn start_recording<C>(
    rec: &mut VideoRecorder<C>,
    region: &Rect,
    path: &str,
    fps: u32,
    monitor: Option<MonitorInfo>,
) -> (r: Result<RecordingPlan, String>)
    ensures
        *final(rec) == (if old(rec).idle() && monitor is Some {
            old(rec).reserved()
        } else {
            *old(rec)
        }),
        match r {
            Ok(p) => old(rec).idle() && monitor is Some && records(
                p,
                *region,
                monitor->0.rect,
                path@,
                fps,
            ),
            Err(e) => e@ == (if old(rec).control is Some {
                "a recording is already active"@
            } else if old(rec).starting {
                "a recording is already starting"@
            } else {
                "region is not on any monitor"@
            }) && (!old(rec).idle() || monitor is None),
        },
{
    match rec.try_reserve_start() {
        Err(e) => {
            return Err(e);
        },
        Ok(_) => {},
    }
    match monitor {
        None => {
            rec.starting = false;
            Err("region is not on any monitor".to_owned())
        },
        Some(m) => Ok(plan(region, &m.rect, path, fps)),
    }
}

/// Takes the outcome of starting a session: its control is stored and the
/// recording is active, or the start slot is free again.
pub fn recording_started<C>(rec: &mut VideoRecorder<C>, outcome: Result<C, String>) -> (r: Result<
    (),
    String,
>)
    ensures
        match outcome {
            Ok(c) => r is Ok && *final(rec) == old(rec).live(c),
            Err(e) => r == Err::<(), String>(e) && *final(rec) == old(rec).failed(),
        },
{
    match outcome {
        Ok(c) => {
            rec.control = Some(c);
            rec.starting = false;
            rec.active = true;
            Ok(())
        },
        Err(e) => {
            rec.starting = false;
            Err(e)
        },
    }
}

/// A session without the app around it: the region is given on a monitor of
/// the given size.
pub fn record_headless(
    region: &Rect,
    monitor_w: i32,
    monitor_h: i32,
    path: &str,
    fps: u32,
) -> (p: RecordingPlan)
    ensures
        records(
            p,
            *region,
            (Rect { left: 0, top: 0, right: monitor_w, bottom: monitor_h }),
            path@,
            fps,
        ),
{
    plan(region, &Rect { left: 0, top: 0, right: monitor_w, bottom: monitor_h }, path, fps)
}

/// Takes the live session's control, to stop it.
pub fn stop_recording<C>(rec: &mut VideoRecorder<C>) -> (r: Result<C, String>)
    ensures
        match old(rec).control {
            Some(c) => r == Ok::<C, String>(c),
            None => r matches Err(e) && e@ == "no recording is active"@,
        },
        *final(rec) == old(rec).stopped(),
{
    match rec.control.take() {
        Some(c) => Ok(c),
        None => Err("no recording is active".to_owned()),
    }
}

/// The outcome of a stopped recording. Where the encoder did not finish in
/// time, the file counts if it has content (`size` is its length), and the user
/// is told.
pub fn stop_result(
    finalized: Option<RecordingResult>,
    path: String,
    width: u32,
    height: u32,
    size: u64,
) -> (r: (RecordingResult, Option<ToastPayload>))
    ensures
        match finalized {
            Some(f) => r.0 == f && r.1 is None,
            None => {
                &&& r.0 == (RecordingResult {
                    path,
                    frames: if size > 0 {
                        1
                    } else {
                        0
                    },
                    elapsed_ms: 0,
                    width,
                    height,
                })
                &&& r.1 matches Some(t) && t.says(
                    "error"@,
                    "Recording stopped but the encoder stalled — the file may be incomplete."@,
                )
            },
        },
{
    match finalized {
        Some(f) => (f, None),
        None => (
            RecordingResult {
                path,
                frames: if size > 0 {
                    1
                } else {
                    0
                },
                elapsed_ms: 0,
                width,
                height,
            },
            Some(
                payload(
                    "error",
                    "Recording stopped but the encoder stalled — the file may be incomplete.",
                ),
            ),
        ),
    }
}

/// Whether a recording goes into the history: it has frames and a file.
pub open spec fn worth_keeping(r: RecordingResult) -> bool {
    r.frames > 0 && r.path@.len() > 0
}

/// The whole seconds of a recording, at least one.
pub open spec fn shown_seconds(elapsed_ms: u128) -> int {
    greatest((elapsed_ms / 1000) as int, 1)
}

/// Whether a history became another by putting a recording in front.
pub open spec fn video_added(
    before: Seq<HistoryEntry>,
    after: Seq<HistoryEntry>,
    r: RecordingResult,
    file: FileFacts,
    max_history: usize,
) -> bool {
    let e = after[0];
    &&& after == history::inserted(before, e, max_history)
    &&& e.path@ == r.path@
    &&& is_time(e.captured_at@)
    &&& e.kind@ == "video"@
    &&& e.duration_secs == shown_seconds(r.elapsed_ms)
    &&& e.size_bytes == (match file.size {
        Some(n) => n,
        None => 0,
    })
    &&& (e.width, e.height) == (match file.dimensions {
        Some(d) => if r.width == 0 || r.height == 0 {
            d
        } else {
            (r.width, r.height)
        },
        None => (r.width, r.height),
    })
}

/// Puts a finished recording into the history, unless it is empty.
pub fn register_recording(
    result: &RecordingResult,
    history: &mut HistoryState,
    file: &FileFacts,
    max_history: usize,
) -> (changed: bool)
    requires
        result.elapsed_ms / 1000 <= u64::MAX,
    ensures
        changed == worth_keeping(*result),
        !changed ==> final(history).0@ == old(history).0@,
        changed ==> video_added(
            old(history).0@,
            final(history).0@,
            *result,
            *file,
            max_history,
        ),
{
    if result.frames == 0 || crate::text::same(result.path.as_str(), "") {
        proof {
            reveal_strlit("");
        }
        return false;
    }
    proof {
        reveal_strlit("");
        if result.path@.len() == 0 {
            assert(result.path@ =~= ""@);
        }
    }
    let whole: u128 = result.elapsed_ms / 1000;
    let secs: u64 = if whole >= 1 {
        whole as u64
    } else {
        1
    };
    let captured_at = timestamp();
    history::add_video(
        history,
        result.path.clone(),
        captured_at,
        secs,
        result.width,
        result.height,
        file,
        max_history,
    );
    true
}

/// The end of a stop: the app's windows come back, unless another recording
/// has started meanwhile, which must not film them.
pub fn stop_done<C>(rec: &mut VideoRecorder<C>) -> (restore: bool)
    ensures
        restore == old(rec).idle(),
        *final(rec) == (VideoRecorder { active: old(rec).active && !restore, ..*old(rec) }),
{
    let restore = rec.control.is_none() && !rec.starting;
    if restore {
        rec.active = false;
    }
    restore
}

/// The bitrate stays within its bounds.
pub proof fn law_bitrate_is_bounded(w: int, h: int, fps: int)
    ensures
        MIN_BITRATE <= bitrate(w, h, fps) <= MAX_BITRATE,
{
}

/// The sides of a recording are even, and no larger than the region where that
/// has any size.
pub proof fn law_sides_are_even(side: int)
    ensures
        even_side(side) % 2 == 0,
        even_side(side) >= 2,
        side >= 2 ==> side - 1 <= even_side(side) <= side,
{
}

/// Between its bounds the bitrate is a tenth of a bit for each pixel of each
/// frame, rounded down; a larger picture or a higher rate never gets less.
pub proof fn law_bitrate_is_a_tenth_of_a_bit(w: int, h: int, fps: int, w2: int, h2: int, fps2: int)
    requires
        0 <= w <= w2,
        0 <= h <= h2,
        0 <= fps <= fps2,
    ensures
        10 * MIN_BITRATE <= w * h * fps <= 10 * MAX_BITRATE ==> 10 * bitrate(w, h, fps) <= w * h
            * fps < 10 * bitrate(w, h, fps) + 10,
        w * h * fps < 10 * MIN_BITRATE ==> bitrate(w, h, fps) == MIN_BITRATE,
        w * h * fps > 10 * MAX_BITRATE ==> bitrate(w, h, fps) == MAX_BITRATE,
        bitrate(w, h, fps) <= bitrate(w2, h2, fps2),
{
    assert(w * h <= w2 * h2 && 0 <= w * h) by (nonlinear_arith)
        requires
            0 <= w <= w2,
            0 <= h <= h2,
    ;
    let a = w * h;
    let b = w2 * h2;
    assert(a * fps <= b * fps2) by (nonlinear_arith)
        requires
            0 <= a <= b,
            0 <= fps <= fps2,
    ;
}

/// The pixel of a monitor's frame at which the crop starts is the top left
/// pixel of the region, where the region starts on the monitor; what lies
/// before the monitor is left out.
pub proof fn law_crop_starts_at_the_region(s: VideoSession)
    ensures
        s.monitor_rect.left <= s.region.left ==> s.monitor_rect.left + s.crop_origin().0
            == s.region.left,
        s.monitor_rect.top <= s.region.top ==> s.monitor_rect.top + s.crop_origin().1
            == s.region.top,
        s.region.left < s.monitor_rect.left ==> s.crop_origin().0 == 0,
        s.region.top < s.monitor_rect.top ==> s.crop_origin().1 == 0,
{
}

/// Where a monitor stands on the virtual screen does not matter: moving it and
/// the region together leaves the crop as it is.
pub proof fn law_crop_moves_with_the_monitor(s: VideoSession, t: VideoSession, dx: int, dy: int)
    requires
        t.region.left == s.region.left + dx,
        t.monitor_rect.left == s.monitor_rect.left + dx,
        t.region.top == s.region.top + dy,
        t.monitor_rect.top == s.monitor_rect.top + dy,
    ensures
        s.crop_origin() == t.crop_origin(),
{
}

/// A frame's time is how long after the first frame it came, less the time
/// spent paused.
pub proof fn law_frame_times_are_distances(ts: i64, base: i64, paused: i64)
    requires
        0 <= paused,
        ts - base <= i64::MAX,
        base <= ts,
    ensures
        base + paused <= ts ==> frame_time(ts as int, base as int, paused as int) + base + paused
            == ts,
        ts < base + paused ==> frame_time(ts as int, base as int, paused as int) == 0,
{
}

/// A session that neither is paused nor gets paused goes on as it is; the start
/// of a pause is noted in both clocks and leaves everything else alone.
pub proof fn law_pauses_are_noted(s: VideoSession, ts: i64, now: u64)
    requires
        s.pauses_ok(),
        !s.currently_paused,
    ensures
        s.pause_seen(ts, now, false) == s,
        s.pause_seen(ts, now, true).currently_paused,
        s.pause_seen(ts, now, true).pause_started_at == Some(now),
        s.pause_seen(ts, now, true).pause_wgc_start == Some(ts),
        s.pause_seen(ts, now, true).paused_accum == s.paused_accum,
        s.pause_seen(ts, now, true).paused_wgc == s.paused_wgc,
        s.pause_seen(ts, now, true).started == s.started,
        s.pause_seen(ts, now, true).region == s.region,
        s.origin(ts) == (if s.first_wgc_ts is Some {
            s.first_wgc_ts->0
        } else {
            ts
        }),
{
}

/// What a session has recorded is the time from its start to its stop, or until
/// now while it was not stopped, less its pauses.
pub proof fn law_recorded_time(s: VideoSession, now: u64, later: u64)
    ensures
        s.stop_time matches Some(t) ==> {
            &&& s.recorded(now) == s.recorded(later)
            &&& s.started <= t ==> s.recorded(now) + s.paused_accum + s.started == t
        },
        s.stop_time is None && s.started <= now ==> s.recorded(now) + s.paused_accum + s.started
            == now,
{
}

/// The rows of a flipped picture are the picture's rows from the last to the
/// first, each as it was.
pub proof fn law_flipping_reverses_the_rows(bytes: Seq<u8>, row: int, h: int, x: int, y: int)
    requires
        row > 0,
        bytes.len() == row * h,
        0 <= x < row,
        0 <= y < h,
    ensures
        flipped(bytes, row, h).len() == bytes.len(),
        0 <= y * row + x < bytes.len(),
        flipped(bytes, row, h)[y * row + x] == bytes[(h - 1 - y) * row + x],
{
    let i = y * row + x;
    assert(0 <= i < row * h) by (nonlinear_arith)
        requires
            0 <= x < row,
            0 <= y < h,
            i == y * row + x,
    ;
    vstd::arithmetic::div_mod::lemma_fundamental_div_mod_converse(i, row, y, x);
}

/// A frame rate within the bounds is taken as it is, any other at the nearest
/// bound, and the frames of a second fit into it with less than one nanosecond
/// of each left.
pub proof fn law_frames_fill_a_second(
    p: RecordingPlan,
    region: Rect,
    monitor_rect: Rect,
    path: Seq<char>,
    fps: u32,
)
    requires
        records(p, region, monitor_rect, path, fps),
    ensures
        MIN_FPS <= fps <= MAX_FPS ==> p.flags.fps == fps,
        fps < MIN_FPS ==> p.flags.fps == MIN_FPS,
        fps > MAX_FPS ==> p.flags.fps == MAX_FPS,
        p.interval_ns * p.flags.fps <= 1_000_000_000 < (p.interval_ns + 1) * p.flags.fps,
        p.flags.region == region && p.flags.monitor_rect == monitor_rect,
        p.flags.output_path@ == path,
{
    let f = sane_fps(fps);
    let i = 1_000_000_000int / f;
    vstd::arithmetic::div_mod::lemma_fundamental_div_mod(1_000_000_000, f);
    assert(0 <= 1_000_000_000int % f < f) by {
        vstd::arithmetic::div_mod::lemma_mod_bound(1_000_000_000, f);
    }
    assert(i * f <= 1_000_000_000 < (i + 1) * f) by (nonlinear_arith)
        requires
            1_000_000_000 == f * i + 1_000_000_000int % f,
            0 <= 1_000_000_000int % f < f,
    ;
}

/// The steps of a recorder: a session that went live is the one that is stopped
/// later; a start that fails leaves a live session and the armed region alone.
pub proof fn law_recorder_steps<C>(rec: VideoRecorder<C>, control: C)
    ensures
        rec.live(control).control == Some(control),
        rec.live(control).active && !rec.live(control).starting,
        rec.stopped().control is None,
        rec.stopped().active == rec.active && rec.stopped().starting == rec.starting,
        rec.failed().control == rec.control && rec.failed().active == rec.active,
        !rec.failed().starting,
        rec.reserved().control == rec.control && rec.reserved().active == rec.active,
        rec.reserved().starting,
        rec.live(control).pending == rec.pending,
        rec.stopped().pending == rec.pending,
        rec.failed().pending == rec.pending,
        rec.reserved().pending == rec.pending,
        rec.idle() == (rec.control is None && !rec.starting),
{
}

/// The shown length of a recording is its whole seconds, and one for less than
/// that; a recording is kept if it has a frame and a file.
pub proof fn law_kept_recordings(r: RecordingResult)
    ensures
        r.elapsed_ms >= 1000 ==> 1000 * shown_seconds(r.elapsed_ms) <= r.elapsed_ms < 1000 * (
        shown_seconds(r.elapsed_ms) + 1),
        r.elapsed_ms < 1000 ==> shown_seconds(r.elapsed_ms) == 1,
        worth_keeping(r) == (r.frames != 0 && r.path@.len() != 0),
{
}

/// A recording that is put into the history is its first entry: with its path,
/// its length and its size, or the size that the file tells where the recording
/// has none.
pub proof fn law_recordings_are_entered_first(
    before: Seq<HistoryEntry>,
    after: Seq<HistoryEntry>,
    r: RecordingResult,
    file: FileFacts,
    max_history: usize,
)
    requires
        video_added(before, after, r, file, max_history),
    ensures
        after[0].path@ == r.path@,
        after[0].kind@ == "video"@,
        r.elapsed_ms >= 1000 ==> after[0].duration_secs == r.elapsed_ms / 1000,
        r.elapsed_ms < 1000 ==> after[0].duration_secs == 1,
        r.width != 0 && r.height != 0 ==> after[0].width == r.width && after[0].height == r.height,
        r.width == 0 || r.height == 0 ==> (file.dimensions matches Some(d) ==> after[0].width == d.0
            && after[0].height == d.1),
        file.size matches Some(n) ==> after[0].size_bytes == n,
{
}

/// The first frame is at time zero, and no frame is before it.
pub proof fn law_timeline_starts_at_zero(ts: i64, base: i64, paused: i64)
    ensures
        frame_time(ts as int, ts as int, 0) == 0,
        frame_time(ts as int, base as int, paused as int) >= 0,
{
}

/// Frames keep their order and their distance, and a pause between two of them
/// is left out.
pub proof fn law_pauses_are_left_out(base: i64, first: i64, second: i64, paused: i64, pause: int)
    requires
        base + paused <= first,
        first + pause <= second,
        0 <= pause,
        0 <= paused,
        second - base <= i64::MAX,
    ensures
        frame_time(second as int, base as int, paused + pause) - frame_time(
            first as int,
            base as int,
            paused as int,
        ) == second - first - pause,
{
}

/// While a session is paused it encodes nothing and its timeline does not
/// move; what it does then only records the pause.
pub proof fn law_paused_sessions_stand_still(s: VideoSession, ts: i64, now: u64)
    requires
        s.pauses_ok(),
    ensures
        s.pause_seen(ts, now, true).paused_wgc == s.paused_wgc,
        s.pause_seen(ts, now, true).frames == s.frames,
        s.pause_seen(ts, now, true).first_wgc_ts == s.first_wgc_ts,
        s.pause_seen(ts, now, true).pauses_ok(),
        s.currently_paused ==> s.pause_seen(ts, now, true) == s,
{
}

/// Pausing and resuming adds exactly the time in between to what is left out.
pub proof fn law_pause_length(s: VideoSession, from: i64, to: i64, t0: u64, t1: u64)
    requires
        s.pauses_ok(),
        !s.currently_paused,
        from <= to,
        t0 <= t1,
        to - from <= i64::MAX,
        s.paused_wgc + (to - from) <= i64::MAX,
        s.paused_accum + (t1 - t0) <= u64::MAX,
    ensures
        ({
            let end = s.pause_seen(from, t0, true).pause_seen(to, t1, false);
            &&& end.paused_wgc == s.paused_wgc + (to - from)
            &&& end.paused_accum == s.paused_accum + (t1 - t0)
            &&& !end.currently_paused
        }),
{
}

/// Turning a picture upside down twice changes nothing.
pub proof fn law_flipping_twice_changes_nothing(bytes: Seq<u8>, row: int, h: int)
    requires
        row > 0,
        h >= 0,
        bytes.len() == row * h,
    ensures
        flipped(flipped(bytes, row, h), row, h) == bytes,
{
    let once = flipped(bytes, row, h);
    let twice = flipped(once, row, h);
    assert forall|i: int| 0 <= i < bytes.len() implies twice[i] == bytes[i] by {
        let y = i / row;
        let x = i % row;
        vstd::arithmetic::div_mod::lemma_fundamental_div_mod(i, row);
        assert(0 <= y < h) by (nonlinear_arith)
            requires
                0 <= i < row * h,
                row > 0,
                y == i / row,
        ;
        assert(0 <= x < row) by (nonlinear_arith)
            requires
                row > 0,
                x == i % row,
        ;
        let j = (h - 1 - y) * row + x;
        assert(0 <= j < row * h) by (nonlinear_arith)
            requires
                0 <= y < h,
                0 <= x < row,
                j == (h - 1 - y) * row + x,
        ;
        vstd::arithmetic::div_mod::lemma_fundamental_div_mod_converse(j, row, h - 1 - y, x);
        assert(once[j] == bytes[(h - 1 - j / row) * row + j % row]);
        assert((h - 1 - j / row) * row + j % row == y * row + x);
        assert(y * row + x == i) by (nonlinear_arith)
            requires
                i == row * y + x,
        ;
        assert(twice[i] == once[j]);
    }
    assert(twice =~= bytes);
}

/// At most one start is under way: while one is reserved, or a recording is
/// live, no other gets the slot. A start that fails and a recording that is
/// stopped give it back.
pub proof fn law_one_start_at_a_time<C>(rec: VideoRecorder<C>, control: C)
    requires
        rec.idle(),
    ensures
        !rec.reserved().idle(),
        !rec.reserved().live(control).idle(),
        rec.reserved().failed() == rec,
        rec.reserved().live(control).stopped().idle(),
{
}

} // verus!

//! The floating thumbnail: where it is shown, how a capture is presented and
//! retried, and when a stuck renderer is revived. All times are milliseconds.

use vstd::prelude::*;

use crate::capture_flow::same_path;
use crate::encoding::{
    base64_fits, base64_text, data_url, decoded_png, encode_base64, encode_rgba, fit_rgba,
    fittable, fitted_picture, is_png, make_data_url, png_bytes, read_back,
};
use crate::filename::{fit_size, preview_size};
use crate::monitors::{MonitorInfo, Rect};
use crate::notifier::{payload, ToastPayload};
use crate::overlay::{greatest, least};
use crate::settings::Settings;
use crate::text::same;

verus! {

/// How often a failed presentation is tried again.
pub const MAX_PRESENT_RETRIES: u8 = 6;

/// A renderer that has not polled for this long is dead.
pub const RENDERER_STALE_AFTER_MS: u64 = 10_000;

/// At most one forced recovery in this time.
pub const RECOVERY_COOLDOWN_MS: u64 = 60_000;

/// A visible thumbnail without input for this long may be a ghost: its scripts
/// run, but its input is stuck.
pub const INPUT_STALL_MS: u64 = 45_000;

/// A press that has not become a drag after this time is stalled.
pub const CLICK_STALL_GRACE_MS: u64 = 2_500;

/// A press older than this is forgotten.
pub const CLICK_STALL_WINDOW_MS: u64 = 30_000;

/// After this much time without input, a new capture gets a fresh page.
pub const LONG_IDLE_RELOAD_MS: u64 = 60_000;

/// The period of the watchdog.
pub const WATCHDOG_TICK_MS: u64 = 1_000;

/// The longest side of the preview of an existing file.
pub const FILE_PREVIEW_DIM: u32 = 512;

pub struct CapturedPayload {
    /// Monotonic identity by which the renderer tells captures apart.
    pub capture_id: u64,
    /// None when the screenshot could not be saved.
    pub path: Option<String>,
    /// A PNG data URL.
    pub preview: String,
    pub width: u32,
    pub height: u32,
    pub unsaved: bool,
}

impl Clone for CapturedPayload {
    fn clone(&self) -> (r: CapturedPayload)
        ensures
            r == *self,
    {
        CapturedPayload {
            capture_id: self.capture_id,
            path: match &self.path {
                Some(p) => Some(p.clone()),
                None => None,
            },
            preview: self.preview.clone(),
            width: self.width,
            height: self.height,
            unsaved: self.unsaved,
        }
    }
}

pub struct ThumbnailState {
    pub latest: Option<CapturedPayload>,
    pub last_center: Option<(i32, i32)>,
    pub next_capture_id: u64,
    /// Whether the latest thumbnail is expected to remain visible.
    pub wanted_visible: bool,
    /// Invalidates delayed retries when a capture starts or the thumbnail is
    /// hidden.
    pub generation: u64,
    /// When the renderer last polled.
    pub heartbeat: u64,
    /// When the renderer last received input.
    pub last_input: u64,
    /// When the renderer last received a press.
    pub last_pointerdown: u64,
    /// When a drag was last started.
    pub last_drag: u64,
    /// Whether any input came since the last recovery.
    pub input_since_recovery: bool,
    pub last_present: u64,
    pub last_recovery: u64,
    pub last_refresh: u64,
}

impl ThumbnailState {
    pub fn new() -> (st: ThumbnailState)
        ensures
            st.latest is None,
            st.last_center is None,
            st.next_capture_id == 1,
            !st.wanted_visible,
            st.generation == 0,
            st.heartbeat == 0 && st.last_input == 0 && st.last_pointerdown == 0 && st.last_drag
                == 0,
            st.input_since_recovery,
            st.last_present == 0 && st.last_recovery == 0 && st.last_refresh == 0,
    {
        ThumbnailState {
            latest: None,
            last_center: None,
            next_capture_id: 1,
            wanted_visible: false,
            generation: 0,
            heartbeat: 0,
            last_input: 0,
            last_pointerdown: 0,
            last_drag: 0,
            input_since_recovery: true,
            last_present: 0,
            last_recovery: 0,
            last_refresh: 0,
        }
    }
}

/// The latest capture, for the renderer that polls for it. The poll is also
/// its sign of life.
pub fn get_latest_capture(st: &mut ThumbnailState, now: u64) -> (r: Option<CapturedPayload>)
    ensures
        r == old(st).latest,
        *final(st) == (ThumbnailState { heartbeat: now, ..*old(st) }),
{
    st.heartbeat = now;
    match &st.latest {
        Some(p) => Some(p.clone()),
        None => None,
    }
}

/// Records that the renderer received input.
pub fn report_renderer_input(st: &mut ThumbnailState, now: u64)
    ensures
        *final(st) == (ThumbnailState {
            last_input: now,
            input_since_recovery: true,
            ..*old(st)
        }),
{
    st.last_input = now;
    st.input_since_recovery = true;
}

/// Records that the renderer received a press.
pub fn report_renderer_pointerdown(st: &mut ThumbnailState, now: u64)
    ensures
        *final(st) == (ThumbnailState {
            last_pointerdown: now,
            input_since_recovery: true,
            ..*old(st)
        }),
{
    st.last_pointerdown = now;
    st.input_since_recovery = true;
}

/// Records that a drag was started.
pub fn note_drag_started(st: &mut ThumbnailState, now: u64)
    ensures
        *final(st) == (ThumbnailState { last_drag: now, ..*old(st) }),
{
    st.last_drag = now;
}

/// The state once the thumbnail was dismissed.
pub open spec fn dismissed(st: ThumbnailState) -> ThumbnailState {
    ThumbnailState { wanted_visible: false, generation: (st.generation + 1) as u64, ..st }
}

/// Whether an attempt to present still goes through.
pub open spec fn goes_on(st: ThumbnailState, settings: Settings, generation: u64) -> bool {
    st.generation == generation && settings.show_thumbnail
}

/// Dismisses the thumbnail, and with it every presentation under way.
pub fn hide_all(st: &mut ThumbnailState)
    requires
        old(st).generation < u64::MAX,
    ensures
        *final(st) == dismissed(*old(st)),
{
    st.wanted_visible = false;
    st.generation = st.generation + 1;
}

/// Whether the thumbnail is visible: a window that is not there, or does not
/// tell, is not.
pub fn is_visible(window: Option<bool>) -> (r: bool)
    ensures
        r == (window == Some(true)),
{
    match window {
        Some(v) => v,
        None => false,
    }
}

pub fn set_visible(st: &mut ThumbnailState, visible: bool)
    ensures
        *final(st) == (ThumbnailState { wanted_visible: visible, ..*old(st) }),
{
    st.wanted_visible = visible;
}

/// The time from `since` to `now`; none where `since` lies ahead.
pub open spec fn elapsed(now: u64, since: u64) -> int {
    if now >= since {
        now - since
    } else {
        0
    }
}

/// Whether a renderer that has stopped polling is to be revived: not while a
/// presentation is fresh, and not before the cooldown is over.
pub open spec fn heartbeat_stall(
    now: u64,
    heartbeat: u64,
    last_present: u64,
    last_recovery: u64,
) -> bool {
    &&& elapsed(now, heartbeat) >= RENDERER_STALE_AFTER_MS
    &&& elapsed(now, last_present) >= RENDERER_STALE_AFTER_MS
    &&& elapsed(now, last_recovery) >= RECOVERY_COOLDOWN_MS
}

pub fn should_recover(now: u64, heartbeat: u64, last_present: u64, last_recovery: u64) -> (r: bool)
    ensures
        r == heartbeat_stall(now, heartbeat, last_present, last_recovery),
{
    if now.saturating_sub(heartbeat) < RENDERER_STALE_AFTER_MS {
        return false;
    }
    if now.saturating_sub(last_present) < RENDERER_STALE_AFTER_MS {
        return false;
    }
    if now.saturating_sub(last_recovery) < RECOVERY_COOLDOWN_MS {
        return false;
    }
    true
}

/// Whether a live renderer is to be revived because a press never became a
/// drag: the press is past its grace and not yet forgotten.
pub open spec fn click_stall(
    now: u64,
    heartbeat: u64,
    last_pointerdown: u64,
    last_drag: u64,
    last_present: u64,
    last_recovery: u64,
) -> bool {
    &&& elapsed(now, heartbeat) < RENDERER_STALE_AFTER_MS
    &&& last_pointerdown != 0
    &&& CLICK_STALL_GRACE_MS <= elapsed(now, last_pointerdown) <= CLICK_STALL_WINDOW_MS
    &&& last_drag < last_pointerdown
    &&& elapsed(now, last_present) >= CLICK_STALL_GRACE_MS
    &&& elapsed(now, last_recovery) >= RECOVERY_COOLDOWN_MS
}

pub fn should_recover_click_stall(
    now: u64,
    heartbeat: u64,
    last_pointerdown: u64,
    last_drag: u64,
    last_present: u64,
    last_recovery: u64,
) -> (r: bool)
    ensures
        r == click_stall(
            now,
            heartbeat,
            last_pointerdown,
            last_drag,
            last_present,
            last_recovery,
        ),
{
    if now.saturating_sub(heartbeat) >= RENDERER_STALE_AFTER_MS {
        return false;
    }
    if last_pointerdown == 0 {
        return false;
    }
    if now.saturating_sub(last_pointerdown) < CLICK_STALL_GRACE_MS {
        return false;
    }
    if now.saturating_sub(last_pointerdown) > CLICK_STALL_WINDOW_MS {
        return false;
    }
    if last_drag >= last_pointerdown {
        return false;
    }
    if now.saturating_sub(last_present) < CLICK_STALL_GRACE_MS {
        return false;
    }
    if now.saturating_sub(last_recovery) < RECOVERY_COOLDOWN_MS {
        return false;
    }
    true
}

/// Whether the page is reloaded before a capture is shown on it: it had input
/// once, but none for long, and was neither refreshed nor revived lately.
pub open spec fn idle_refresh(
    now: u64,
    last_input: u64,
    idle_ms: u64,
    last_refresh: u64,
    last_recovery: u64,
) -> bool {
    &&& last_input != 0
    &&& idle_ms > LONG_IDLE_RELOAD_MS
    &&& elapsed(now, last_refresh) >= RECOVERY_COOLDOWN_MS
    &&& elapsed(now, last_recovery) >= RECOVERY_COOLDOWN_MS
}

pub fn should_refresh_before_present(
    now: u64,
    last_input: u64,
    idle_ms: u64,
    last_refresh: u64,
    last_recovery: u64,
) -> (r: bool)
    ensures
        r == idle_refresh(now, last_input, idle_ms, last_refresh, last_recovery),
{
    if last_input == 0 {
        return false;
    }
    if idle_ms <= LONG_IDLE_RELOAD_MS {
        return false;
    }
    if now.saturating_sub(last_refresh) < RECOVERY_COOLDOWN_MS {
        return false;
    }
    if now.saturating_sub(last_recovery) < RECOVERY_COOLDOWN_MS {
        return false;
    }
    true
}

/// Whether a live renderer is to be revived because it has had no input for
/// long. Without any input since the last recovery, another would not help.
pub open spec fn input_stall(
    now: u64,
    heartbeat: u64,
    last_input: u64,
    last_present: u64,
    last_recovery: u64,
    input_since_recovery: bool,
) -> bool {
    &&& elapsed(now, heartbeat) < RENDERER_STALE_AFTER_MS
    &&& input_since_recovery
    &&& elapsed(now, last_input) >= INPUT_STALL_MS
    &&& elapsed(now, last_present) >= INPUT_STALL_MS
    &&& elapsed(now, last_recovery) >= RECOVERY_COOLDOWN_MS
}

pub fn should_recover_input_stall(
    now: u64,
    heartbeat: u64,
    last_input: u64,
    last_present: u64,
    last_recovery: u64,
    input_since_recovery: bool,
) -> (r: bool)
    ensures
        r == input_stall(
            now,
            heartbeat,
            last_input,
            last_present,
            last_recovery,
            input_since_recovery,
        ),
{
    if now.saturating_sub(heartbeat) >= RENDERER_STALE_AFTER_MS {
        return false;
    }
    if !input_since_recovery {
        return false;
    }
    if now.saturating_sub(last_input) < INPUT_STALL_MS {
        return false;
    }
    if now.saturating_sub(last_present) < INPUT_STALL_MS {
        return false;
    }
    if now.saturating_sub(last_recovery) < RECOVERY_COOLDOWN_MS {
        return false;
    }
    true
}

/// A presentation to carry out.
#[derive(Clone, Copy, Debug)]
pub struct ShowPlan {
    pub generation: u64,
    /// Whether the page is reloaded first.
    pub refresh: bool,
}

/// The presentation of a capture that comes in: a new generation, and a page
/// that is reloaded first where it sat idle for long.
pub open spec fn planned(st: ThumbnailState, now: u64) -> ShowPlan {
    ShowPlan {
        generation: (st.generation + 1) as u64,
        refresh: idle_refresh(
            now,
            st.last_input,
            elapsed(now, st.last_input) as u64,
            st.last_refresh,
            st.last_recovery,
        ),
    }
}

/// The state after a capture came in. Nothing else changes.
pub open spec fn showing(
    st: ThumbnailState,
    p: CapturedPayload,
    center: (i32, i32),
    now: u64,
) -> ThumbnailState {
    ThumbnailState {
        latest: Some(p),
        last_center: Some(center),
        next_capture_id: (st.next_capture_id + 1) as u64,
        wanted_visible: true,
        generation: planned(st, now).generation,
        last_refresh: if planned(st, now).refresh {
            now
        } else {
            st.last_refresh
        },
        ..st
    }
}

/// Takes a fresh capture: it becomes the latest one and is to be presented,
/// unless thumbnails are switched off.
pub fn show_capture(
    st: &mut ThumbnailState,
    settings: &Settings,
    path: Option<String>,
    preview_b64: &str,
    img_w: u32,
    img_h: u32,
    unsaved: bool,
    sel_center: (i32, i32),
    now: u64,
) -> (r: Option<ShowPlan>)
    requires
        old(st).generation < u64::MAX,
        old(st).next_capture_id < u64::MAX,
    ensures
        r is Some == settings.show_thumbnail,
        r is None ==> *final(st) == *old(st),
        r matches Some(plan) ==> {
            let p = final(st).latest->0;
            &&& plan == planned(*old(st), now)
            &&& *final(st) == showing(*old(st), p, sel_center, now)
            &&& p.capture_id == old(st).next_capture_id
            &&& p.path == path
            &&& p.preview@ == data_url(preview_b64@)
            &&& p.width == img_w && p.height == img_h
            &&& p.unsaved == unsaved
        },
{
    if !settings.show_thumbnail {
        return None;
    }
    st.latest = Some(
        CapturedPayload {
            capture_id: st.next_capture_id,
            path,
            preview: make_data_url(preview_b64),
            width: img_w,
            height: img_h,
            unsaved,
        },
    );
    st.next_capture_id = st.next_capture_id + 1;
    st.last_center = Some(sel_center);
    st.wanted_visible = true;
    st.generation = st.generation + 1;
    let idle_ms: u64 = now.saturating_sub(st.last_input);
    let refresh = should_refresh_before_present(
        now,
        st.last_input,
        idle_ms,
        st.last_refresh,
        st.last_recovery,
    );
    if refresh {
        st.last_refresh = now;
    }
    Some(ShowPlan { generation: st.generation, refresh })
}

/// Begins an attempt to present a capture. An attempt that a newer capture or
/// a dismissal has overtaken does nothing.
pub fn present_begin(st: &mut ThumbnailState, settings: &Settings, generation: u64, now: u64) -> (r:
    bool)
    ensures
        r == goes_on(*old(st), *settings, generation),
        *final(st) == (ThumbnailState {
            last_present: if old(st).generation == generation {
                now
            } else {
                old(st).last_present
            },
            ..*old(st)
        }),
{
    if st.generation != generation {
        return false;
    }
    st.last_present = now;
    settings.show_thumbnail
}

/// What came of the window operations of an attempt.
#[derive(Clone, Copy, Debug)]
pub struct WindowOps {
    pub size: bool,
    /// Without a position to set, nothing can fail.
    pub position: Option<bool>,
    pub show: bool,
    /// Whether the window is visible afterwards.
    pub visible: bool,
    pub unminimize: bool,
    pub on_top: bool,
}

impl WindowOps {
    pub open spec fn ok(self) -> bool {
        self.size && self.position != Some(false) && self.show && self.visible && self.unminimize
            && self.on_top
    }
}

/// The attempt after this one, if one is needed: something failed (or there
/// was no window), and there are attempts left.
pub fn present_capture(window: Option<WindowOps>, emitted: bool, attempt: u8) -> (next: Option<u8>)
    ensures
        next == (if (window matches Some(w) && w.ok()) && emitted {
            None
        } else if attempt < MAX_PRESENT_RETRIES {
            Some((attempt + 1) as u8)
        } else {
            None
        }),
{
    let fine = match window {
        Some(w) => {
            let placed = match w.position {
                Some(p) => p,
                None => true,
            };
            w.size && placed && w.show && w.visible && w.unminimize && w.on_top
        },
        None => false,
    };
    if !(fine && emitted) && attempt < MAX_PRESENT_RETRIES {
        Some(attempt + 1)
    } else {
        None
    }
}

/// The delay before an attempt: it doubles from one to the next, up to a
/// limit.
pub open spec fn retry_delay(attempt: int) -> int
    decreases attempt,
{
    if attempt <= 1 {
        100
    } else if attempt >= 6 {
        3200
    } else {
        2 * retry_delay(attempt - 1)
    }
}

pub fn schedule_present_retry(attempt: u8) -> (delay_ms: u64)
    ensures
        delay_ms == retry_delay(attempt as int),
{
    proof {
        reveal_with_fuel(retry_delay, 7);
    }
    if attempt <= 1 {
        100
    } else if attempt == 2 {
        200
    } else if attempt == 3 {
        400
    } else if attempt == 4 {
        800
    } else if attempt == 5 {
        1600
    } else {
        3200
    }
}

/// The width of a thumbnail on an unscaled monitor.
pub open spec fn base_size(name: Seq<char>) -> u32 {
    if name == "small"@ {
        220
    } else if name == "large"@ {
        420
    } else {
        320
    }
}

pub fn base_width(name: &str) -> (w: u32)
    ensures
        w == base_size(name@),
{
    if same(name, "small") {
        220
    } else if same(name, "large") {
        420
    } else {
        320
    }
}

/// The monitor for the thumbnail: the one at the capture, else the one at the
/// origin, else any.
pub fn pick_monitor(
    at_center: Option<MonitorInfo>,
    at_origin: Option<MonitorInfo>,
    monitors: &Vec<MonitorInfo>,
) -> (r: Option<MonitorInfo>)
    ensures
        r == (if at_center is Some {
            at_center
        } else if at_origin is Some {
            at_origin
        } else if monitors@.len() > 0 {
            Some(monitors@[0])
        } else {
            None
        }),
{
    if at_center.is_some() {
        at_center
    } else if at_origin.is_some() {
        at_origin
    } else if monitors.len() > 0 {
        Some(monitors[0])
    } else {
        None
    }
}

/// Lengths in physical pixels on the thumbnail's monitor.
#[derive(Clone, Copy, Debug)]
pub struct Measures {
    /// The distance to the edges of the work area.
    pub margin: i32,
    /// The size that the capture's proportions ask for.
    pub desired_w: u32,
    pub desired_h: u32,
    /// The least height.
    pub min_h: u32,
}

/// What a thumbnail window may take up of a work area's side.
pub open spec fn room(side: int, margin: int) -> int {
    greatest(side - least(2 * margin, i32::MAX as int), 1)
}

pub open spec fn window_width(work: Rect, m: Measures) -> int {
    greatest(least(m.desired_w as int, room(work.width(), m.margin as int)), 1)
}

pub open spec fn window_height(work: Rect, m: Measures) -> int {
    let h = room(work.height(), m.margin as int);
    greatest(least(greatest(m.desired_h as int, least(m.min_h as int, h)), h), 1)
}

/// Whether the named corner is on the left.
pub open spec fn on_left(position: Seq<char>) -> bool {
    position == "top_left"@ || position == "bottom_left"@
}

/// Whether the named corner is at the top.
pub open spec fn on_top(position: Seq<char>) -> bool {
    position == "top_left"@ || position == "top_right"@
}

pub open spec fn window_x(work: Rect, m: Measures, position: Seq<char>) -> int {
    let left = work.left + m.margin;
    if on_left(position) {
        left
    } else {
        greatest(work.right - window_width(work, m) - m.margin, left)
    }
}

pub open spec fn window_y(work: Rect, m: Measures, position: Seq<char>) -> int {
    let top = work.top + m.margin;
    if on_top(position) {
        top
    } else {
        greatest(work.bottom - window_height(work, m) - m.margin, top)
    }
}

fn greater(a: i64, b: i64) -> (r: i64)
    ensures
        r == greatest(a as int, b as int),
{
    if a >= b {
        a
    } else {
        b
    }
}

fn lesser(a: i64, b: i64) -> (r: i64)
    ensures
        r == least(a as int, b as int),
{
    if a <= b {
        a
    } else {
        b
    }
}

/// The size and position of the thumbnail in a monitor's work area: in the
/// configured corner, a margin away from the edges, and no larger than fits.
pub fn thumbnail_geometry(settings: &Settings, work: &Rect, m: &Measures) -> (r: (
    (u32, u32),
    (i32, i32),
))
    requires
        work.width() <= i32::MAX,
        work.height() <= i32::MAX,
        0 <= m.margin,
        work.left + m.margin <= i32::MAX,
        work.top + m.margin <= i32::MAX,
    ensures
        r.0.0 == window_width(*work, *m),
        r.0.1 == window_height(*work, *m),
        r.1.0 == window_x(*work, *m, settings.thumbnail_position@),
        r.1.1 == window_y(*work, *m, settings.thumbnail_position@),
{
    let margin: i64 = m.margin as i64;
    let twice: i64 = lesser(2 * margin, i32::MAX as i64);
    let work_w: i64 = greater(work.right as i64 - work.left as i64 - twice, 1);
    let work_h: i64 = greater(work.bottom as i64 - work.top as i64 - twice, 1);
    let win_w: i64 = greater(lesser(m.desired_w as i64, work_w), 1);
    let win_h: i64 = greater(
        lesser(greater(m.desired_h as i64, lesser(m.min_h as i64, work_h)), work_h),
        1,
    );
    let left: i64 = work.left as i64 + margin;
    let top: i64 = work.top as i64 + margin;
    let right: i64 = greater(work.right as i64 - win_w - margin, left);
    let bottom: i64 = greater(work.bottom as i64 - win_h - margin, top);
    let p = settings.thumbnail_position.as_str();
    let x: i64 = if same(p, "top_left") || same(p, "bottom_left") {
        left
    } else {
        right
    };
    let y: i64 = if same(p, "top_left") || same(p, "top_right") {
        top
    } else {
        bottom
    };
    ((win_w as u32, win_h as u32), (x as i32, y as i32))
}

/// The position of the thumbnail where no monitor can be found: near the
/// corner of the virtual screen, or where the window is.
pub fn fallback_position(virt: &Rect) -> (r: Option<(i32, i32)>)
    requires
        virt.left <= i32::MAX - 16,
        virt.top <= i32::MAX - 16,
    ensures
        r == (if virt.right > virt.left && virt.bottom > virt.top {
            Some(((virt.left + 16) as i32, (virt.top + 16) as i32))
        } else {
            None
        }),
{
    if virt.right > virt.left && virt.bottom > virt.top {
        Some((virt.left + 16, virt.top + 16))
    } else {
        None
    }
}

/// Why a renderer is revived.
#[derive(Clone, Copy, Debug, PartialEq, Eq, Structural)]
pub enum Reason {
    StaleHeartbeat,
    InputStalled,
    ClickStalled,
}

/// A page to reload and a capture to present on it again.
pub struct Recovery {
    pub reason: Reason,
    pub payload: CapturedPayload,
    pub center: (i32, i32),
    pub generation: u64,
}

/// Why the renderer would be revived now, if it would. `visible` says whether
/// the window is on screen, `dragging` whether a drag is under way, during
/// which the page sees no input.
pub open spec fn stall(st: ThumbnailState, now: u64, visible: bool, dragging: bool) -> Option<
    Reason,
> {
    if !st.wanted_visible {
        None
    } else if heartbeat_stall(now, st.heartbeat, st.last_present, st.last_recovery) {
        Some(Reason::StaleHeartbeat)
    } else if input_stall(
        now,
        st.heartbeat,
        st.last_input,
        st.last_present,
        st.last_recovery,
        st.input_since_recovery,
    ) && visible && !dragging {
        Some(Reason::InputStalled)
    } else if click_stall(
        now,
        st.heartbeat,
        st.last_pointerdown,
        st.last_drag,
        st.last_present,
        st.last_recovery,
    ) && visible && !dragging {
        Some(Reason::ClickStalled)
    } else {
        None
    }
}

/// The state after a recovery: its clocks start anew.
pub open spec fn recovered(st: ThumbnailState, now: u64) -> ThumbnailState {
    ThumbnailState {
        last_recovery: now,
        last_input: now,
        input_since_recovery: false,
        ..st
    }
}

/// Revives a stuck renderer: its page is reloaded and the latest capture
/// presented again. A healthy thumbnail is not touched, nor one that was
/// dismissed or never had a capture.
pub fn recover_if_stale(st: &mut ThumbnailState, now: u64, visible: bool, dragging: bool) -> (r:
    Option<Recovery>)
    ensures
        r is Some == (stall(*old(st), now, visible, dragging) is Some && old(st).latest is Some
            && old(st).generation != 0),
        r is None ==> *final(st) == *old(st),
        r matches Some(rec) ==> {
            &&& *final(st) == recovered(*old(st), now)
            &&& stall(*old(st), now, visible, dragging) == Some(rec.reason)
            &&& old(st).latest == Some(rec.payload)
            &&& rec.center == (match old(st).last_center {
                Some(c) => c,
                None => (0, 0),
            })
            &&& rec.generation == old(st).generation
        },
{
    if !st.wanted_visible {
        return None;
    }
    let reason = if should_recover(now, st.heartbeat, st.last_present, st.last_recovery) {
        Reason::StaleHeartbeat
    } else if should_recover_input_stall(
        now,
        st.heartbeat,
        st.last_input,
        st.last_present,
        st.last_recovery,
        st.input_since_recovery,
    ) && visible && !dragging {
        Reason::InputStalled
    } else if should_recover_click_stall(
        now,
        st.heartbeat,
        st.last_pointerdown,
        st.last_drag,
        st.last_present,
        st.last_recovery,
    ) && visible && !dragging {
        Reason::ClickStalled
    } else {
        return None;
    };
    recover_now(st, now, reason)
}

fn recover_now(st: &mut ThumbnailState, now: u64, reason: Reason) -> (r: Option<Recovery>)
    requires
        old(st).wanted_visible,
    ensures
        r is Some == (old(st).latest is Some && old(st).generation != 0),
        r is None ==> *final(st) == *old(st),
        r matches Some(rec) ==> {
            &&& *final(st) == recovered(*old(st), now)
            &&& rec.reason == reason
            &&& old(st).latest == Some(rec.payload)
            &&& rec.center == (match old(st).last_center {
                Some(c) => c,
                None => (0, 0),
            })
            &&& rec.generation == old(st).generation
        },
{
    let payload = match &st.latest {
        Some(p) => p.clone(),
        None => {
            return None;
        },
    };
    let center: (i32, i32) = match st.last_center {
        Some(c) => c,
        None => (0, 0),
    };
    let generation: u64 = st.generation;
    if generation == 0 {
        return None;
    }
    st.last_recovery = now;
    st.last_input = now;
    st.input_since_recovery = false;
    Some(Recovery { reason, payload, center, generation })
}

/// Resuming from sleep is one more occasion to look for a stuck renderer.
pub fn recover_after_resume(st: &mut ThumbnailState, now: u64, visible: bool, dragging: bool) -> (r:
    Option<Recovery>)
    ensures
        r is Some == (stall(*old(st), now, visible, dragging) is Some && old(st).latest is Some
            && old(st).generation != 0),
        *final(st) == (if r is Some {
            recovered(*old(st), now)
        } else {
            *old(st)
        }),
        r matches Some(rec) ==> {
            &&& stall(*old(st), now, visible, dragging) == Some(rec.reason)
            &&& old(st).latest == Some(rec.payload)
            &&& rec.center == (match old(st).last_center {
                Some(c) => c,
                None => (0, 0),
            })
            &&& rec.generation == old(st).generation
        },
{
    recover_if_stale(st, now, visible, dragging)
}

/// Whether the watchdog's tick wakes the main thread: only while a thumbnail is
/// meant to be visible.
pub fn watchdog_tick(st: &ThumbnailState) -> (r: bool)
    ensures
        r == st.wanted_visible,
{
    st.wanted_visible
}

/// The preview of an existing picture: scaled down to fit, with its
/// proportions kept. `scaled` is its size scaled down to `FILE_PREVIEW_DIM`.
pub fn file_preview(rgba: Vec<u8>, width: u32, height: u32, scaled: (u32, u32)) -> (r: Option<
    Vec<u8>,
>)
    requires
        fittable(
            width,
            height,
            preview_size(width, height, FILE_PREVIEW_DIM, scaled).0,
            preview_size(width, height, FILE_PREVIEW_DIM, scaled).1,
        ),
    ensures
        r is Some == (rgba@.len() >= width * height * 4),
        r matches Some(png) ==> {
            let (tw, th) = preview_size(width, height, FILE_PREVIEW_DIM, scaled);
            let p = fitted_picture(rgba@, width, height, tw, th);
            &&& png@ == png_bytes(p.0, p.1, p.2)
            &&& is_png(png@)
            &&& decoded_png(png@) == read_back(p.0, p.1, p.2)
            &&& p.0.len() == p.1 * p.2 * 4
            &&& 1 <= p.1 <= tw
            &&& 1 <= p.2 <= th
        },
{
    let (tw, th) = fit_size(width, height, FILE_PREVIEW_DIM, scaled);
    match fit_rgba(rgba, width, height, tw, th) {
        None => None,
        Some((px, w, h)) => match encode_rgba(&px, w, h) {
            Ok(png) => Some(png),
            Err(_) => None,
        },
    }
}

/// What the user is told of a file that cannot be opened.
pub fn open_failure(path: &str, reason: &str) -> (p: ToastPayload)
    ensures
        p.says("error"@, "Could not open "@ + path@ + ": "@ + reason@),
{
    let mut m = "Could not open ".to_owned();
    m.append(path);
    m.append(": ");
    m.append(reason);
    payload("error", m.as_str())
}

/// Shows the thumbnail of an existing file, from its preview. Without a point
/// given, the monitor is picked by the middle of the picture. The second part
/// is what the user is told when there is no preview.
pub fn show_capture_for_at(
    st: &mut ThumbnailState,
    settings: &Settings,
    path: &str,
    png: Option<&Vec<u8>>,
    width: u32,
    height: u32,
    sel_center: Option<(i32, i32)>,
    now: u64,
) -> (r: (Option<ShowPlan>, Option<ToastPayload>))
    requires
        old(st).generation < u64::MAX,
        old(st).next_capture_id < u64::MAX,
        png matches Some(p) ==> base64_fits(p@.len()),
    ensures
        match r.1 {
            Some(t) => png is None && t.says("error"@, "Could not preview capture"@),
            None => png is Some,
        },
        r.0 is Some == (png is Some && settings.show_thumbnail),
        r.0 is None ==> *final(st) == *old(st),
        r.0 matches Some(plan) ==> {
            let p = final(st).latest->0;
            &&& plan == planned(*old(st), now)
            &&& *final(st) == showing(
                *old(st),
                p,
                match sel_center {
                    Some(c) => c,
                    None => ((width / 2) as i32, (height / 2) as i32),
                },
                now,
            )
            &&& p.capture_id == old(st).next_capture_id
            &&& same_path(p.path, Some(path@))
            &&& p.preview@ == data_url(base64_text(png->0@))
            &&& p.width == width && p.height == height
            &&& !p.unsaved
        },
{
    match png {
        None => (None, Some(payload("error", "Could not preview capture"))),
        Some(bytes) => {
            let b64 = encode_base64(bytes);
            let center: (i32, i32) = match sel_center {
                Some(c) => c,
                None => ((width / 2) as i32, (height / 2) as i32),
            };
            let plan = show_capture(
                st,
                settings,
                Some(path.to_owned()),
                b64.as_str(),
                width,
                height,
                false,
                center,
                now,
            );
            (plan, None)
        },
    }
}

/// Shows the thumbnail of an existing file (tray "Recent Captures").
pub fn show_capture_for(
    st: &mut ThumbnailState,
    settings: &Settings,
    path: &str,
    png: Option<&Vec<u8>>,
    width: u32,
    height: u32,
    now: u64,
) -> (r: (Option<ShowPlan>, Option<ToastPayload>))
    requires
        old(st).generation < u64::MAX,
        old(st).next_capture_id < u64::MAX,
        png matches Some(p) ==> base64_fits(p@.len()),
    ensures
        match r.1 {
            Some(t) => png is None && t.says("error"@, "Could not preview capture"@),
            None => png is Some,
        },
        r.0 is Some == (png is Some && settings.show_thumbnail),
        r.0 is None ==> *final(st) == *old(st),
        r.0 matches Some(plan) ==> {
            let p = final(st).latest->0;
            &&& plan == planned(*old(st), now)
            &&& *final(st) == showing(
                *old(st),
                p,
                ((width / 2) as i32, (height / 2) as i32),
                now,
            )
            &&& p.capture_id == old(st).next_capture_id
            &&& same_path(p.path, Some(path@))
            &&& p.preview@ == data_url(base64_text(png->0@))
            &&& p.width == width && p.height == height
            &&& !p.unsaved
        },
{
    show_capture_for_at(st, settings, path, png, width, height, None, now)
}

/// After a recovery there is no other before the cooldown is over, whatever
/// happens in between.
pub proof fn law_one_recovery_per_cooldown(
    st: ThumbnailState,
    now: u64,
    visible: bool,
    dragging: bool,
)
    requires
        elapsed(now, st.last_recovery) < RECOVERY_COOLDOWN_MS,
    ensures
        stall(st, now, visible, dragging) is None,
{
}

/// A dead renderer is never taken for a stalled one, nor the other way round.
pub proof fn law_stalls_exclude_each_other(st: ThumbnailState, now: u64)
    ensures
        !(heartbeat_stall(now, st.heartbeat, st.last_present, st.last_recovery) && input_stall(
            now,
            st.heartbeat,
            st.last_input,
            st.last_present,
            st.last_recovery,
            st.input_since_recovery,
        )),
        !(heartbeat_stall(now, st.heartbeat, st.last_present, st.last_recovery) && click_stall(
            now,
            st.heartbeat,
            st.last_pointerdown,
            st.last_drag,
            st.last_present,
            st.last_recovery,
        )),
{
}

/// A thumbnail that was dismissed is never revived, and none of its pending
/// attempts goes through.
pub proof fn law_dismissed_thumbnails_stay_away(
    st: ThumbnailState,
    settings: Settings,
    generation: u64,
    now: u64,
    visible: bool,
    dragging: bool,
)
    requires
        generation <= st.generation < u64::MAX,
    ensures
        stall(dismissed(st), now, visible, dragging) is None,
        !goes_on(dismissed(st), settings, generation),
{
}

/// A healthy renderer is left alone: one that polls, and has had input since
/// it was presented, with no press that waits for its drag.
pub proof fn law_healthy_renderers_are_left_alone(
    st: ThumbnailState,
    now: u64,
    visible: bool,
    dragging: bool,
)
    requires
        elapsed(now, st.heartbeat) < RENDERER_STALE_AFTER_MS,
        elapsed(now, st.last_input) < INPUT_STALL_MS,
        st.last_drag >= st.last_pointerdown,
    ensures
        stall(st, now, visible, dragging) is None,
{
}

/// A thumbnail that nobody touches is revived for want of input at most once.
pub proof fn law_untouched_thumbnails_are_not_churned(
    st: ThumbnailState,
    at: u64,
    now: u64,
    visible: bool,
    dragging: bool,
)
    ensures
        stall(recovered(st, at), now, visible, dragging) != Some(Reason::InputStalled),
{
}

/// The thumbnail lies within the work area, a margin away from its edges,
/// wherever the work area has room for the margins.
pub proof fn law_thumbnail_fits_the_work_area(work: Rect, m: Measures, position: Seq<char>)
    requires
        0 <= m.margin,
        2 * m.margin < work.width() <= i32::MAX,
        2 * m.margin < work.height() <= i32::MAX,
    ensures
        work.left + m.margin <= window_x(work, m, position),
        window_x(work, m, position) + window_width(work, m) <= work.right - m.margin,
        work.top + m.margin <= window_y(work, m, position),
        window_y(work, m, position) + window_height(work, m) <= work.bottom - m.margin,
        1 <= window_width(work, m),
        1 <= window_height(work, m),
{
}

/// The delay before a retry never shrinks from one attempt to the next.
pub proof fn law_retry_delays_grow(attempt: int)
    ensures
        100 <= retry_delay(attempt) <= retry_delay(attempt + 1) <= 3200,
{
    reveal_with_fuel(retry_delay, 8);
}

/// When a thumbnail that is meant to be visible is revived, and why. The times
/// since the last poll, input, press, presentation and recovery decide; a dead
/// page is revived even where the window is not visible.
pub proof fn law_when_renderers_are_revived(
    st: ThumbnailState,
    now: u64,
    visible: bool,
    dragging: bool,
)
    ensures
        ({
            let s = stall(st, now, visible, dragging);
            let polls = now < st.heartbeat + RENDERER_STALE_AFTER_MS;
            let rested = st.last_recovery + RECOVERY_COOLDOWN_MS <= now;
            let no_input = st.input_since_recovery && st.last_input + INPUT_STALL_MS <= now
                && st.last_present + INPUT_STALL_MS <= now;
            let pressed = st.last_pointerdown != 0 && st.last_drag < st.last_pointerdown
                && st.last_pointerdown + CLICK_STALL_GRACE_MS <= now && now <= st.last_pointerdown
                + CLICK_STALL_WINDOW_MS && st.last_present + CLICK_STALL_GRACE_MS <= now;
            &&& !st.wanted_visible || !rested ==> s is None
            &&& st.wanted_visible && rested && !polls ==> (s == Some(Reason::StaleHeartbeat)) == (
            st.last_present + RENDERER_STALE_AFTER_MS <= now)
            &&& s == Some(Reason::StaleHeartbeat) ==> !polls
            &&& !visible || dragging ==> s is None || s == Some(Reason::StaleHeartbeat)
            &&& st.wanted_visible && rested && polls && visible && !dragging ==> s == (
            if no_input {
                Some(Reason::InputStalled)
            } else if pressed {
                Some(Reason::ClickStalled)
            } else {
                None
            })
        }),
{
}

/// A recovery restarts the clocks by which the next one is judged, and changes
/// nothing of what is shown.
pub proof fn law_recovery_restarts_the_clocks(st: ThumbnailState, now: u64)
    ensures
        ({
            let r = recovered(st, now);
            &&& r.last_recovery == now && r.last_input == now && !r.input_since_recovery
            &&& r.latest == st.latest && r.last_center == st.last_center
            &&& r.wanted_visible == st.wanted_visible && r.generation == st.generation
            &&& r.next_capture_id == st.next_capture_id && r.heartbeat == st.heartbeat
            &&& r.last_present == st.last_present && r.last_refresh == st.last_refresh
            &&& r.last_pointerdown == st.last_pointerdown && r.last_drag == st.last_drag
        }),
{
}

/// A capture that comes in is the latest one, with a new identity and a new
/// generation; the page is reloaded first if it had input once but none for
/// long, and was neither reloaded nor revived lately. The renderer's clocks go
/// on.
pub proof fn law_captures_come_in(
    st: ThumbnailState,
    p: CapturedPayload,
    center: (i32, i32),
    now: u64,
)
    requires
        st.generation < u64::MAX,
        st.next_capture_id < u64::MAX,
    ensures
        ({
            let n = showing(st, p, center, now);
            let plan = planned(st, now);
            &&& n.latest == Some(p) && n.last_center == Some(center) && n.wanted_visible
            &&& n.next_capture_id == st.next_capture_id + 1
            &&& n.generation == st.generation + 1 && plan.generation == n.generation
            &&& plan.refresh == (st.last_input != 0 && st.last_input + LONG_IDLE_RELOAD_MS < now
                && st.last_refresh + RECOVERY_COOLDOWN_MS <= now && st.last_recovery
                + RECOVERY_COOLDOWN_MS <= now)
            &&& n.last_refresh == (if plan.refresh {
                now
            } else {
                st.last_refresh
            })
            &&& n.heartbeat == st.heartbeat && n.last_input == st.last_input
            &&& n.last_pointerdown == st.last_pointerdown && n.last_drag == st.last_drag
            &&& n.input_since_recovery == st.input_since_recovery
            &&& n.last_present == st.last_present && n.last_recovery == st.last_recovery
        }),
{
}

/// Of all captures only the newest can still be presented: an attempt for an
/// older one does not go through any more.
pub proof fn law_newer_captures_overtake(
    st: ThumbnailState,
    p: CapturedPayload,
    center: (i32, i32),
    now: u64,
    settings: Settings,
)
    requires
        st.generation < u64::MAX,
        st.next_capture_id < u64::MAX,
    ensures
        ({
            let n = showing(st, p, center, now);
            &&& !goes_on(n, settings, st.generation)
            &&& goes_on(n, settings, planned(st, now).generation) == settings.show_thumbnail
        }),
{
}

/// Dismissing a thumbnail keeps the capture, but not the wish to see it.
pub proof fn law_dismissing_keeps_the_capture(st: ThumbnailState)
    requires
        st.generation < u64::MAX,
    ensures
        !dismissed(st).wanted_visible,
        dismissed(st).generation == st.generation + 1,
        dismissed(st).latest == st.latest && dismissed(st).last_center == st.last_center,
        dismissed(st).next_capture_id == st.next_capture_id,
{
}

/// The first retry comes after a tenth of a second, and each one after twice
/// the time of the one before, up to the last.
pub proof fn law_retry_delays_double(attempt: int)
    requires
        1 <= attempt < MAX_PRESENT_RETRIES,
    ensures
        retry_delay(1) == 100,
        retry_delay(attempt + 1) == 2 * retry_delay(attempt),
        retry_delay(0) == 100,
{
    reveal_with_fuel(retry_delay, 8);
}

/// The three sizes of a thumbnail go from small over medium to large; a name
/// that is none of them means medium.
pub proof fn law_thumbnail_sizes(name: Seq<char>)
    ensures
        base_size("small"@) == 220,
        base_size("medium"@) == 320,
        base_size("large"@) == 420,
        name != "small"@ && name != "large"@ ==> base_size(name) == base_size("medium"@),
{
    reveal_strlit("small");
    reveal_strlit("medium");
    reveal_strlit("large");
    assert("small"@.len() == 5 && "medium"@.len() == 6);
    assert("large"@[0] == 'l' && "small"@[0] == 's');
    assert("large"@ != "small"@);
}

/// The thumbnail stands in the corner that was named: a margin from the work
/// area's left or right edge, and from its top or bottom edge. A name that is
/// no corner means the bottom right.
pub proof fn law_thumbnail_is_in_its_corner(work: Rect, m: Measures, position: Seq<char>)
    requires
        0 <= m.margin,
        2 * m.margin < work.right - work.left <= i32::MAX,
        2 * m.margin < work.bottom - work.top <= i32::MAX,
    ensures
        position == "top_left"@ || position == "bottom_left"@ ==> window_x(work, m, position)
            - m.margin == work.left,
        position != "top_left"@ && position != "bottom_left"@ ==> window_x(work, m, position)
            + window_width(work, m) + m.margin == work.right,
        position == "top_left"@ || position == "top_right"@ ==> window_y(work, m, position)
            - m.margin == work.top,
        position != "top_left"@ && position != "top_right"@ ==> window_y(work, m, position)
            + window_height(work, m) + m.margin == work.bottom,
{
}

/// The thumbnail has the size that the capture's proportions ask for, but at
/// least the least height, as far as the work area has room.
pub proof fn law_thumbnail_has_the_desired_size(work: Rect, m: Measures)
    requires
        0 <= m.margin,
        2 * m.margin < work.right - work.left <= i32::MAX,
        2 * m.margin < work.bottom - work.top <= i32::MAX,
    ensures
        ({
            let room_w = work.right - work.left - 2 * m.margin;
            let room_h = work.bottom - work.top - 2 * m.margin;
            &&& 1 <= m.desired_w <= room_w ==> window_width(work, m) == m.desired_w
            &&& m.desired_w > room_w ==> window_width(work, m) == room_w
            &&& m.min_h <= m.desired_h <= room_h && m.desired_h >= 1 ==> window_height(work, m)
                == m.desired_h
            &&& m.desired_h < m.min_h <= room_h ==> window_height(work, m) == m.min_h
            &&& m.desired_h > room_h || m.min_h > room_h ==> window_height(work, m) == room_h
        }),
{
}

/// A presentation has worked if every step that was taken has, and the window is
/// visible then.
pub proof fn law_every_window_step_counts(w: WindowOps)
    ensures
        w.ok() ==> w.size && w.show && w.visible && w.unminimize && w.on_top,
        w.ok() ==> w.position is None || w.position->0,
        w.size && w.show && w.visible && w.unminimize && w.on_top && w.position is None ==> w.ok(),
        w.size && w.show && w.visible && w.unminimize && w.on_top && w.position == Some(true)
            ==> w.ok(),
{
}

} // verus!

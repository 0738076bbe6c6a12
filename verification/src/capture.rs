//! Screen capture in physical pixels, per monitor: stitching the monitors'
//! frames into the picture of a region.

use vstd::prelude::*;

use crate::canvas::{lemma_place_bound, lemma_place_injective, place};
use crate::monitors::{intersect, is_empty, MonitorInfo, Rect};

verus! {

/// Seconds to wait for the first frame. It is delivered right after the
/// session starts, even on a static screen.
pub const FRAME_TIMEOUT_SECS: u64 = 8;

/// Seconds to wait for the session to stop. A stuck session is abandoned
/// rather than waited for.
pub const STOP_TIMEOUT_SECS: u64 = 5;

pub struct ImageBuf {
    pub width: u32,
    pub height: u32,
    /// BGRA8, top-down.
    pub bgra: Vec<u8>,
}

/// The four bytes of a pixel.
pub type Pixel = (u8, u8, u8, u8);

/// The bytes of the pixel with the given number.
pub open spec fn px(bytes: Seq<u8>, p: int) -> Pixel {
    (bytes[4 * p], bytes[4 * p + 1], bytes[4 * p + 2], bytes[4 * p + 3])
}

/// Overwrites the pixel with the given number.
pub fn put_px(bytes: &mut Vec<u8>, p: usize, v: Pixel)
    requires
        4 * p + 4 <= old(bytes)@.len(),
    ensures
        final(bytes)@.len() == old(bytes)@.len(),
        px(final(bytes)@, p as int) == v,
        forall|q: int|
            0 <= q && 4 * q + 4 <= old(bytes)@.len() && q != p ==> #[trigger] px(final(bytes)@, q)
                == px(old(bytes)@, q),
{
    let n: usize = bytes.len();
    assert(4 * p + 4 <= n);
    bytes.set(4 * p, v.0);
    bytes.set(4 * p + 1, v.1);
    bytes.set(4 * p + 2, v.2);
    bytes.set(4 * p + 3, v.3);
}

pub fn get_px(bytes: &Vec<u8>, p: usize) -> (v: Pixel)
    requires
        4 * p + 4 <= bytes@.len(),
    ensures
        v == px(bytes@, p as int),
{
    let n: usize = bytes.len();
    assert(4 * p + 4 <= n);
    (bytes[4 * p], bytes[4 * p + 1], bytes[4 * p + 2], bytes[4 * p + 3])
}

impl ImageBuf {
    /// A picture has four bytes for each of its pixels.
    pub open spec fn wf(self) -> bool {
        self.bgra@.len() == self.width * self.height * 4
    }

    pub open spec fn at(self, x: int, y: int) -> Pixel {
        px(self.bgra@, place(self.width as int, x, y))
    }
}

#[derive(Clone, Copy, Debug, PartialEq, Eq, Structural)]
pub enum CursorCaptureSettings {
    Default,
    WithCursor,
    WithoutCursor,
}

#[derive(Clone, Copy, Debug, PartialEq, Eq, Structural)]
pub enum DrawBorderSettings {
    Default,
    WithBorder,
    WithoutBorder,
}

#[derive(Clone, Copy, Debug, PartialEq, Eq, Structural)]
pub enum MinimumUpdateIntervalSettings {
    Default,
    /// Nanoseconds between two frames.
    Custom(u64),
}

/// What the system says it supports; `None` where the question failed.
#[derive(Clone, Copy, Debug)]
pub struct CaptureSupport {
    pub cursor: Option<bool>,
    pub border: Option<bool>,
    pub interval: Option<bool>,
}

/// The requested settings, with the default in place of each that the system
/// does not say it supports.
pub fn compatible_capture_settings(
    requested_cursor: CursorCaptureSettings,
    requested_border: DrawBorderSettings,
    requested_interval: MinimumUpdateIntervalSettings,
    support: &CaptureSupport,
) -> (r: (CursorCaptureSettings, DrawBorderSettings, MinimumUpdateIntervalSettings))
    ensures
        r.0 == (if support.cursor == Some(true) {
            requested_cursor
        } else {
            CursorCaptureSettings::Default
        }),
        r.1 == (if support.border == Some(true) {
            requested_border
        } else {
            DrawBorderSettings::Default
        }),
        r.2 == (if support.interval == Some(true) {
            requested_interval
        } else {
            MinimumUpdateIntervalSettings::Default
        }),
{
    let cursor = match support.cursor {
        Some(true) => requested_cursor,
        _ => CursorCaptureSettings::Default,
    };
    let border = match support.border {
        Some(true) => requested_border,
        _ => DrawBorderSettings::Default,
    };
    let interval = match support.interval {
        Some(true) => requested_interval,
        _ => MinimumUpdateIntervalSettings::Default,
    };
    (cursor, border, interval)
}

/// Whether a selection and a monitor have a point in common.
pub open spec fn touches(sel: Rect, mon: MonitorInfo) -> bool {
    exists|x: int, y: int| #[trigger] sel.contains(x, y) && mon.rect.contains(x, y)
}

/// Whether a frame of this monitor is needed for the picture of a region.
pub fn needs_frame(sel: &Rect, mon: &MonitorInfo) -> (r: bool)
    ensures
        r == touches(*sel, *mon),
{
    let inter = intersect(sel, &mon.rect);
    let r = !is_empty(&inter);
    proof {
        if r {
            assert(inter.contains(inter.left as int, inter.top as int)) by {
                let (x, y) = choose|x: int, y: int| #[trigger] inter.contains(x, y);
                assert(inter.contains(x, y));
            }
            assert(sel.contains(inter.left as int, inter.top as int));
        } else if touches(*sel, *mon) {
            let (x, y) = choose|x: int, y: int| #[trigger]
                sel.contains(x, y) && mon.rect.contains(x, y);
            assert(inter.contains(x, y));
        }
    }
    r
}

/// Whether a frame has exactly the size of its monitor.
pub open spec fn fits(frame: Option<ImageBuf>, mon: MonitorInfo) -> bool {
    frame matches Some(f) && f.width == mon.rect.width() && f.height == mon.rect.height()
}

/// Whether each of the first `n` monitors that the selection touches has a
/// frame of its own size.
pub open spec fn all_fit(
    sel: Rect,
    monitors: Seq<MonitorInfo>,
    frames: Seq<Option<ImageBuf>>,
    n: int,
) -> bool {
    forall|i: int|
        0 <= i < n && touches(sel, #[trigger] monitors[i]) ==> fits(frames[i], monitors[i])
}

/// What a point of the screen shows: the last of the first `n` monitors that
/// contain it, or nothing.
pub open spec fn seen(
    monitors: Seq<MonitorInfo>,
    frames: Seq<Option<ImageBuf>>,
    n: int,
    x: int,
    y: int,
) -> Pixel
    decreases n,
{
    if n <= 0 {
        (0, 0, 0, 0)
    } else if monitors[n - 1].rect.contains(x, y) {
        frames[n - 1]->0.at(x - monitors[n - 1].rect.left, y - monitors[n - 1].rect.top)
    } else {
        seen(monitors, frames, n - 1, x, y)
    }
}

/// Whether each of the frames is a well-formed picture.
pub open spec fn frames_wf(frames: Seq<Option<ImageBuf>>) -> bool {
    forall|i: int| 0 <= i < frames.len() ==> ((#[trigger] frames[i]) matches Some(f) ==> f.wf())
}

/// Copies one monitor's part of a region from its frame.
fn stitch(out: &mut Vec<u8>, sel: &Rect, mon: &Rect, full: &ImageBuf)
    requires
        0 < sel.width() <= i32::MAX,
        0 < sel.height() <= i32::MAX,
        old(out)@.len() == sel.width() * sel.height() * 4,
        full.wf(),
        full.width == mon.width(),
        full.height == mon.height(),
    ensures
        final(out)@.len() == old(out)@.len(),
        forall|x: int, y: int|
            0 <= x < sel.width() && 0 <= y < sel.height() ==> #[trigger] px(
                final(out)@,
                place(sel.width(), x, y),
            ) == (if mon.contains(sel.left + x, sel.top + y) {
                full.at(sel.left + x - mon.left, sel.top + y - mon.top)
            } else {
                px(old(out)@, place(sel.width(), x, y))
            }),
{
    let w: usize = (sel.right as i64 - sel.left as i64) as usize;
    let h: usize = (sel.bottom as i64 - sel.top as i64) as usize;
    let fw: usize = full.width as usize;
    let fh: usize = full.height as usize;
    let inter = intersect(sel, mon);
    let total: usize = out.len();
    let source: usize = full.bgra.len();
    let mut y: i32 = inter.top;
    while y < inter.bottom
        invariant
            w == sel.width(),
            h == sel.height(),
            fw == full.width,
            fh == full.height,
            full.width == mon.width(),
            full.height == mon.height(),
            full.wf(),
            total == w * h * 4,
            source == fw * fh * 4,
            source == full.bgra@.len(),
            out@.len() == total,
            old(out)@.len() == total,
            inter == crate::monitors::intersection(*sel, *mon),
            inter.top <= y,
            inter.top < inter.bottom ==> y <= inter.bottom,
            forall|u: int, v: int|
                0 <= u < w && 0 <= v < h ==> #[trigger] px(out@, place(w as int, u, v)) == (
                if sel.top + v < y && mon.contains(sel.left + u, sel.top + v) {
                    full.at(sel.left + u - mon.left, sel.top + v - mon.top)
                } else {
                    px(old(out)@, place(w as int, u, v))
                }),
        decreases inter.bottom - y,
    {
        let mut x: i32 = inter.left;
        while x < inter.right
            invariant
                w == sel.width(),
                h == sel.height(),
                fw == full.width,
                fh == full.height,
                full.width == mon.width(),
                full.height == mon.height(),
                full.wf(),
                total == w * h * 4,
                source == fw * fh * 4,
                source == full.bgra@.len(),
                out@.len() == total,
                old(out)@.len() == total,
                inter == crate::monitors::intersection(*sel, *mon),
                inter.top <= y < inter.bottom,
                inter.left <= x,
                inter.left < inter.right ==> x <= inter.right,
                forall|u: int, v: int|
                    0 <= u < w && 0 <= v < h ==> #[trigger] px(out@, place(w as int, u, v)) == (
                    if (sel.top + v < y || sel.top + v == y && sel.left + u < x)
                        && mon.contains(sel.left + u, sel.top + v) {
                        full.at(sel.left + u - mon.left, sel.top + v - mon.top)
                    } else {
                        px(old(out)@, place(w as int, u, v))
                    }),
            decreases inter.right - x,
        {
            let dx: usize = (x as i64 - sel.left as i64) as usize;
            let dy: usize = (y as i64 - sel.top as i64) as usize;
            let sx: usize = (x as i64 - mon.left as i64) as usize;
            let sy: usize = (y as i64 - mon.top as i64) as usize;
            proof {
                lemma_place_bound(w as int, h as int, dx as int, dy as int);
                lemma_place_bound(fw as int, fh as int, sx as int, sy as int);
            }
            assert(dy * w + dx < w * h);
            assert(sy * fw + sx < fw * fh);
            let ghost before = out@;
            let v: Pixel = get_px(&full.bgra, sy * fw + sx);
            put_px(out, dy * w + dx, v);
            assert forall|u: int, t: int| 0 <= u < w && 0 <= t < h implies #[trigger] px(
                out@,
                place(w as int, u, t),
            ) == (if u == dx && t == dy {
                v
            } else {
                px(before, place(w as int, u, t))
            }) by {
                lemma_place_bound(w as int, h as int, u, t);
                if place(w as int, u, t) == place(w as int, dx as int, dy as int) {
                    lemma_place_injective(w as int, u, t, dx as int, dy as int);
                }
            }
            x = x + 1;
        }
        y = y + 1;
    }
}

/// The picture of a region of the virtual screen, stitched from the frames of
/// the monitors that it touches: `frames[i]` belongs to `monitors[i]`. There
/// is none of an empty region, nor where a frame is missing or does not match
/// its monitor's size (the display changed meanwhile).
pub fn capture_region(
    sel: &Rect,
    monitors: &Vec<MonitorInfo>,
    frames: &Vec<Option<ImageBuf>>,
) -> (r: Option<ImageBuf>)
    requires
        sel.width() <= i32::MAX,
        sel.height() <= i32::MAX,
        sel.width() * sel.height() * 4 <= isize::MAX,
        frames@.len() == monitors@.len(),
        frames_wf(frames@),
    ensures
        r is Some == (sel.width() > 0 && sel.height() > 0 && all_fit(
            *sel,
            monitors@,
            frames@,
            monitors@.len() as int,
        )),
        r matches Some(img) ==> {
            &&& img.wf()
            &&& img.width == sel.width()
            &&& img.height == sel.height()
            &&& forall|x: int, y: int|
                0 <= x < img.width && 0 <= y < img.height ==> #[trigger] img.at(x, y) == seen(
                    monitors@,
                    frames@,
                    monitors@.len() as int,
                    sel.left + x,
                    sel.top + y,
                )
        },
{
    let w: i64 = sel.right as i64 - sel.left as i64;
    let h: i64 = sel.bottom as i64 - sel.top as i64;
    if w <= 0 || h <= 0 {
        return None;
    }
    assert(0 < w * h && w <= w * h) by (nonlinear_arith)
        requires
            w > 0,
            h > 0,
    ;
    let n: usize = w as usize * h as usize * 4;
    let mut out: Vec<u8> = Vec::new();
    for i in 0..n
        invariant
            out@.len() == i,
            forall|j: int| 0 <= j < i ==> out@[j] == 0,
    {
        out.push(0);
    }
    assert forall|x: int, y: int| 0 <= x < w && 0 <= y < h implies #[trigger] px(
        out@,
        place(w as int, x, y),
    ) == (0u8, 0u8, 0u8, 0u8) by {
        lemma_place_bound(w as int, h as int, x, y);
    }
    for i in 0..monitors.len()
        invariant
            0 < w <= i32::MAX,
            0 < h <= i32::MAX,
            w == sel.width(),
            h == sel.height(),
            out@.len() == w * h * 4,
            frames@.len() == monitors@.len(),
            frames_wf(frames@),
            all_fit(*sel, monitors@, frames@, i as int),
            forall|x: int, y: int|
                0 <= x < w && 0 <= y < h ==> #[trigger] px(out@, place(w as int, x, y)) == seen(
                    monitors@,
                    frames@,
                    i as int,
                    sel.left + x,
                    sel.top + y,
                ),
    {
        let mon = &monitors[i];
        if needs_frame(sel, mon) {
            match &frames[i] {
                None => {
                    assert(touches(*sel, monitors@[i as int]));
                    return None;
                },
                Some(full) => {
                    let mw: i64 = mon.rect.right as i64 - mon.rect.left as i64;
                    let mh: i64 = mon.rect.bottom as i64 - mon.rect.top as i64;
                    if full.width as i64 != mw || full.height as i64 != mh {
                        assert(touches(*sel, monitors@[i as int]));
                        return None;
                    }
                    assert(frames@[i as int]->0 == *full);
                    stitch(&mut out, sel, &mon.rect, full);
                },
            }
        } else {
            assert forall|x: int, y: int| 0 <= x < w && 0 <= y < h implies #[trigger] px(
                out@,
                place(w as int, x, y),
            ) == seen(monitors@, frames@, i + 1, sel.left + x, sel.top + y) by {
                assert(sel.contains(sel.left + x, sel.top + y));
            }
        }
    }
    Some(ImageBuf { width: w as u32, height: h as u32, bgra: out })
}

/// The picture of a whole monitor from a plain readback of the desktop: `ok`
/// says whether the pixels were copied, `lines` how many rows were read.
pub fn capture_monitor(mon: &MonitorInfo, ok: bool, lines: i32, buf: Vec<u8>) -> (r: Option<
    ImageBuf,
>)
    ensures
        r is Some == (0 < mon.rect.width() <= i32::MAX && 0 < mon.rect.height() <= i32::MAX && ok
            && lines != 0),
        r matches Some(img) ==> img.width == mon.rect.width() && img.height == mon.rect.height()
            && img.bgra@ == buf@,
{
    let w: i64 = mon.rect.right as i64 - mon.rect.left as i64;
    let h: i64 = mon.rect.bottom as i64 - mon.rect.top as i64;
    if w <= 0 || h <= 0 || w > i32::MAX as i64 || h > i32::MAX as i64 || !ok || lines == 0 {
        return None;
    }
    Some(ImageBuf { width: w as u32, height: h as u32, bgra: buf })
}

/// The picture of a whole monitor from a capture session: what was received
/// within the timeout, if it is a frame and not a failure.
pub fn capture_monitor_wgc(received: Option<Result<ImageBuf, String>>) -> (r: Option<ImageBuf>)
    ensures
        r == (match received {
            Some(Ok(img)) => Some(img),
            _ => None,
        }),
{
    match received {
        Some(Ok(img)) => Some(img),
        _ => None,
    }
}

/// Where the one frame of a session goes.
pub struct ShotFlags {
    pub tx: Option<Result<ImageBuf, String>>,
}

/// Takes the first frame of a capture session and ends the session.
pub struct ShotHandler {
    pub flags: ShotFlags,
    pub sent: bool,
}

impl ShotHandler {
    pub fn new(flags: ShotFlags) -> (h: ShotHandler)
        ensures
            h.flags == flags,
            !h.sent,
    {
        ShotHandler { flags, sent: false }
    }

    /// Takes a frame; only the first is handed on, since others may race in
    /// before the session has stopped. Returns whether the session is to stop,
    /// as it is after any frame.
    pub fn on_frame_arrived(&mut self, frame: Result<ImageBuf, String>) -> (stop: bool)
        ensures
            stop,
            final(self).sent,
            final(self).flags.tx == (if old(self).sent {
                old(self).flags.tx
            } else {
                Some(frame)
            }),
    {
        if !self.sent {
            self.sent = true;
            self.flags.tx = Some(frame);
        }
        true
    }
}

/// Where the monitors do not overlap, each point of a captured region shows
/// the frame of the monitor that it lies on.
pub proof fn law_points_show_their_monitor(
    monitors: Seq<MonitorInfo>,
    frames: Seq<Option<ImageBuf>>,
    i: int,
    n: int,
    x: int,
    y: int,
)
    requires
        0 <= i < n <= monitors.len(),
        monitors[i].rect.contains(x, y),
        forall|j: int| 0 <= j < n && j != i ==> !(#[trigger] monitors[j]).rect.contains(x, y),
    ensures
        seen(monitors, frames, n, x, y) == frames[i]->0.at(
            x - monitors[i].rect.left,
            y - monitors[i].rect.top,
        ),
    decreases n,
{
    if i != n - 1 {
        law_points_show_their_monitor(monitors, frames, i, n - 1, x, y);
    }
}

/// A point on no monitor is black and transparent.
pub proof fn law_points_off_screen_are_empty(
    monitors: Seq<MonitorInfo>,
    frames: Seq<Option<ImageBuf>>,
    n: int,
    x: int,
    y: int,
)
    requires
        0 <= n <= monitors.len(),
        forall|j: int| 0 <= j < n ==> !(#[trigger] monitors[j]).rect.contains(x, y),
    ensures
        seen(monitors, frames, n, x, y) == (0u8, 0u8, 0u8, 0u8),
    decreases n,
{
    if n > 0 {
        law_points_off_screen_are_empty(monitors, frames, n - 1, x, y);
    }
}

/// The bytes of the pixel at a position: row by row from the top, four to a
/// pixel.
pub proof fn law_pixels_lie_row_by_row(img: ImageBuf, x: int, y: int)
    ensures
        ({
            let i = 4 * (y * img.width + x);
            img.at(x, y) == (img.bgra@[i], img.bgra@[i + 1], img.bgra@[i + 2], img.bgra@[i + 3])
        }),
{
}

/// A selection touches a monitor exactly if they overlap both from left to right
/// and from top to bottom.
pub proof fn law_touching_is_overlapping(sel: Rect, mon: MonitorInfo)
    ensures
        touches(sel, mon) == (sel.left < sel.right && sel.top < sel.bottom && mon.rect.left
            < mon.rect.right && mon.rect.top < mon.rect.bottom && sel.left < mon.rect.right
            && mon.rect.left < sel.right && sel.top < mon.rect.bottom && mon.rect.top
            < sel.bottom),
{
    let i = crate::monitors::intersection(sel, mon.rect);
    let x = i.left as int;
    let y = i.top as int;
    if sel.left < sel.right && sel.top < sel.bottom && mon.rect.left < mon.rect.right
        && mon.rect.top < mon.rect.bottom && sel.left < mon.rect.right && mon.rect.left < sel.right
        && sel.top < mon.rect.bottom && mon.rect.top < sel.bottom {
        assert(sel.contains(x, y) && mon.rect.contains(x, y));
    }
}

/// Where monitors overlap, a point shows the last of those that it lies on, at
/// its distance from that monitor's corner.
pub proof fn law_the_last_monitor_is_on_top(
    monitors: Seq<MonitorInfo>,
    frames: Seq<Option<ImageBuf>>,
    i: int,
    n: int,
    x: int,
    y: int,
)
    requires
        0 <= i < n <= monitors.len(),
        monitors[i].rect.left <= x < monitors[i].rect.right,
        monitors[i].rect.top <= y < monitors[i].rect.bottom,
        forall|j: int| i < j < n ==> !(#[trigger] monitors[j]).rect.contains(x, y),
    ensures
        seen(monitors, frames, n, x, y) == frames[i]->0.at(
            x - monitors[i].rect.left,
            y - monitors[i].rect.top,
        ),
    decreases n,
{
    if i != n - 1 {
        law_the_last_monitor_is_on_top(monitors, frames, i, n - 1, x, y);
    }
}

/// A frame fits its monitor exactly if it has the monitor's width and height.
pub proof fn law_frames_of_their_monitors_size(f: ImageBuf, mon: MonitorInfo)
    ensures
        fits(Some(f), mon) == (mon.rect.left + f.width == mon.rect.right && mon.rect.top + f.height
            == mon.rect.bottom),
        !fits(None, mon),
{
}

/// A region has no picture as soon as one of the monitors that it touches has no
/// frame of its own size; the frames of the other monitors do not matter.
pub proof fn law_missing_frames_count(
    sel: Rect,
    monitors: Seq<MonitorInfo>,
    frames: Seq<Option<ImageBuf>>,
    i: int,
)
    requires
        0 <= i < monitors.len(),
        monitors.len() == frames.len(),
    ensures
        touches(sel, monitors[i]) && frames[i] is None ==> !all_fit(
            sel,
            monitors,
            frames,
            monitors.len() as int,
        ),
        touches(sel, monitors[i]) && !fits(frames[i], monitors[i]) ==> !all_fit(
            sel,
            monitors,
            frames,
            monitors.len() as int,
        ),
        (forall|j: int|
            0 <= j < monitors.len() ==> !touches(sel, #[trigger] monitors[j]) || fits(
                frames[j],
                monitors[j],
            )) ==> all_fit(sel, monitors, frames, monitors.len() as int),
{
}

/// A picture has as many bytes as its pixels take, four each.
pub proof fn law_pictures_have_all_their_bytes(img: ImageBuf)
    ensures
        img.wf() == (img.bgra@.len() == 4 * (img.width * img.height)),
{
}

} // verus!

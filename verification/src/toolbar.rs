//! The recording toolbar: its mute and pause switches, and where it and the
//! region's border are placed.

use vstd::prelude::*;

use crate::monitors::Rect;
use crate::overlay::{clamp, clamped, greatest};
use crate::scene::{half, half_of};

verus! {

pub const TOOLBAR_W: i32 = 360;

pub const TOOLBAR_H: i32 = 80;

pub const MARGIN: i32 = 12;

/// The least distance of the toolbar to the edges of its monitor.
pub const EDGE: i32 = 8;

/// Padding around the recorded region on the border window, which leaves room
/// for the dimension label.
pub const BORDER_PAD: i32 = 48;

/// The least width and height of a bordered region.
pub const MIN_BORDER: i32 = 16;

/// The switches of the toolbar.
#[derive(Clone, Copy, Debug, PartialEq, Eq, Structural)]
pub struct ToolbarFlags {
    /// The recorded sound is silenced.
    pub muted: bool,
    /// The recording stands still.
    pub paused: bool,
}

pub fn is_muted(flags: &ToolbarFlags) -> (r: bool)
    ensures
        r == flags.muted,
{
    flags.muted
}

/// Flips the mute switch; returns its new state.
pub fn toggle_mute(flags: &mut ToolbarFlags) -> (r: bool)
    ensures
        r == !old(flags).muted,
        *final(flags) == (ToolbarFlags { muted: r, ..*old(flags) }),
{
    let next = !is_muted(flags);
    flags.muted = next;
    next
}

pub fn is_paused(flags: &ToolbarFlags) -> (r: bool)
    ensures
        r == flags.paused,
{
    flags.paused
}

/// Flips the pause switch; returns its new state.
pub fn toggle_pause(flags: &mut ToolbarFlags) -> (r: bool)
    ensures
        r == !old(flags).paused,
        *final(flags) == (ToolbarFlags { paused: r, ..*old(flags) }),
{
    let next = !is_paused(flags);
    flags.paused = next;
    next
}

/// What the toolbar shows.
#[derive(Clone, Copy, Debug, PartialEq, Eq, Structural)]
pub struct RecorderState {
    pub recording: bool,
    pub muted: bool,
    pub paused: bool,
}

/// The toolbar while a region is armed and waits for the recording to start.
pub fn arm(flags: &ToolbarFlags) -> (s: RecorderState)
    ensures
        s == (RecorderState { recording: false, muted: flags.muted, paused: flags.paused }),
{
    RecorderState { recording: false, muted: is_muted(flags), paused: is_paused(flags) }
}

/// The toolbar at the start of a recording: no recording starts muted or
/// paused because the one before it was.
pub fn show_recording(flags: &mut ToolbarFlags) -> (s: RecorderState)
    ensures
        *final(flags) == (ToolbarFlags { muted: false, paused: false }),
        s == (RecorderState { recording: true, muted: false, paused: false }),
{
    flags.muted = false;
    flags.paused = false;
    RecorderState { recording: true, muted: is_muted(flags), paused: is_paused(flags) }
}

/// The middle of a region, by which its monitor is found.
pub fn region_center(region: &Rect) -> (c: (i32, i32))
    ensures
        c.0 == region.left + half(region.width()),
        c.1 == region.top + half(region.height()),
{
    let w: i64 = region.right as i64 - region.left as i64;
    let h: i64 = region.bottom as i64 - region.top as i64;
    ((region.left as i64 + half_of(w)) as i32, (region.top as i64 + half_of(h)) as i32)
}

/// Where the toolbar goes: centred below the region, or above it where it
/// would not fit, and always on the monitor.
pub open spec fn toolbar_place(region: Rect, m: Rect) -> (int, int) {
    let x = region.left + half(region.width()) - TOOLBAR_W / 2;
    let below = region.bottom + MARGIN;
    let y = if below + TOOLBAR_H > m.bottom {
        region.top - TOOLBAR_H - MARGIN
    } else {
        below
    };
    (
        clamped(x, m.left + EDGE, m.right - TOOLBAR_W - EDGE),
        clamped(y, m.top + EDGE, m.bottom - TOOLBAR_H - EDGE),
    )
}

/// Positions the toolbar for a region on a monitor that has room for it.
pub fn place(region: &Rect, m: &Rect) -> (r: (i32, i32))
    requires
        m.width() >= TOOLBAR_W + 2 * EDGE,
        m.height() >= TOOLBAR_H + 2 * EDGE,
    ensures
        (r.0 as int, r.1 as int) == toolbar_place(*region, *m),
{
    let (cx, _) = region_center(region);
    let x: i64 = cx as i64 - 180;
    let below: i64 = region.bottom as i64 + MARGIN as i64;
    let y: i64 = if below + TOOLBAR_H as i64 > m.bottom as i64 {
        region.top as i64 - TOOLBAR_H as i64 - MARGIN as i64
    } else {
        below
    };
    (
        clamp(
            x,
            m.left as i64 + EDGE as i64,
            m.right as i64 - TOOLBAR_W as i64 - EDGE as i64,
        ) as i32,
        clamp(
            y,
            m.top as i64 + EDGE as i64,
            m.bottom as i64 - TOOLBAR_H as i64 - EDGE as i64,
        ) as i32,
    )
}

/// The window with the dashed border around a region: position and size.
pub fn show_border(region: &Rect) -> (r: ((i32, i32), (i32, i32)))
    requires
        region.width() <= i32::MAX - 2 * BORDER_PAD,
        region.height() <= i32::MAX - 2 * BORDER_PAD,
        region.left >= i32::MIN + BORDER_PAD,
        region.top >= i32::MIN + BORDER_PAD,
    ensures
        r.0.0 == region.left - BORDER_PAD,
        r.0.1 == region.top - BORDER_PAD,
        r.1.0 == greatest(region.width(), MIN_BORDER as int) + 2 * BORDER_PAD,
        r.1.1 == greatest(region.height(), MIN_BORDER as int) + 2 * BORDER_PAD,
{
    let w: i64 = region.right as i64 - region.left as i64;
    let h: i64 = region.bottom as i64 - region.top as i64;
    let bw: i64 = if w >= MIN_BORDER as i64 {
        w
    } else {
        MIN_BORDER as i64
    };
    let bh: i64 = if h >= MIN_BORDER as i64 {
        h
    } else {
        MIN_BORDER as i64
    };
    (
        (region.left - BORDER_PAD, region.top - BORDER_PAD),
        ((bw + 96) as i32, (bh + 96) as i32),
    )
}

/// The toolbar lies on its monitor, clear of the edges.
pub proof fn law_toolbar_is_on_the_monitor(region: Rect, m: Rect)
    requires
        m.width() >= TOOLBAR_W + 2 * EDGE,
        m.height() >= TOOLBAR_H + 2 * EDGE,
    ensures
        m.left + EDGE <= toolbar_place(region, m).0,
        toolbar_place(region, m).0 + TOOLBAR_W <= m.right - EDGE,
        m.top + EDGE <= toolbar_place(region, m).1,
        toolbar_place(region, m).1 + TOOLBAR_H <= m.bottom - EDGE,
{
}

/// The toolbar does not cover a region below which there is room for it.
pub proof fn law_toolbar_is_below_the_region(region: Rect, m: Rect)
    requires
        m.width() >= TOOLBAR_W + 2 * EDGE,
        m.height() >= TOOLBAR_H + 2 * EDGE,
        m.top <= region.bottom,
        region.bottom + MARGIN + TOOLBAR_H + EDGE <= m.bottom,
    ensures
        toolbar_place(region, m).1 == region.bottom + MARGIN,
{
}

/// Where its monitor has room to both sides, the toolbar is centred on the
/// region; where there is none it stands as near as its distance to the edge
/// lets it.
pub proof fn law_toolbar_is_centred(region: Rect, m: Rect)
    requires
        m.right - m.left >= TOOLBAR_W + 2 * EDGE,
        m.bottom - m.top >= TOOLBAR_H + 2 * EDGE,
        region.left <= region.right,
    ensures
        ({
            let x = toolbar_place(region, m).0;
            let middle = region.left + region.right;
            &&& 2 * (m.left + EDGE) + TOOLBAR_W <= middle - 1 && middle <= 2 * (m.right - EDGE)
                - TOOLBAR_W ==> middle - 1 <= 2 * x + TOOLBAR_W <= middle
            &&& middle < 2 * (m.left + EDGE) + TOOLBAR_W ==> x == m.left + EDGE
            &&& middle > 2 * (m.right - EDGE) - TOOLBAR_W + 1 ==> x + TOOLBAR_W == m.right - EDGE
        }),
{
}

/// Where there is no room below the region the toolbar stands above it, if there
/// is room there.
pub proof fn law_toolbar_goes_above(region: Rect, m: Rect)
    requires
        m.right - m.left >= TOOLBAR_W + 2 * EDGE,
        m.bottom - m.top >= TOOLBAR_H + 2 * EDGE,
        region.bottom + MARGIN + TOOLBAR_H > m.bottom,
        region.top - MARGIN - TOOLBAR_H >= m.top + EDGE,
        region.top <= m.bottom,
    ensures
        toolbar_place(region, m).1 + TOOLBAR_H + MARGIN == region.top,
{
}

} // verus!

//! The capture overlay: a state machine that turns mouse, keyboard and timer
//! events into a selected rectangle.
//!
//! All coordinates are physical pixels in virtual-screen space.

use vstd::prelude::*;

use crate::monitors::{Point, Rect};

verus! {

/// The least width and height that count as a selection.
pub const MIN_SELECTION: i32 = 4;

/// Pixels within an edge in which a press starts resizing.
pub const RESIZE_TOL: i32 = 8;

/// Pixels of movement before a press counts as a drag.
pub const CLICK_MOVE: i32 = 3;

/// The timer that counts the delay down, one tick a second.
pub const TIMER_COUNTDOWN: u64 = 1;

pub const TIMER_PERIOD_MS: u32 = 1000;

pub const WM_KEYDOWN: u32 = 0x0100;

pub const WM_KEYUP: u32 = 0x0101;

pub const WM_TIMER: u32 = 0x0113;

pub const WM_NCHITTEST: u32 = 0x0084;

pub const WM_MOUSEMOVE: u32 = 0x0200;

pub const WM_LBUTTONDOWN: u32 = 0x0201;

pub const WM_LBUTTONUP: u32 = 0x0202;

pub const VK_RETURN: u64 = 0x0D;

pub const VK_CONTROL: u64 = 0x11;

pub const VK_ESCAPE: u64 = 0x1B;

#[derive(Clone, Copy, Debug, PartialEq, Eq, Structural)]
pub struct Selection {
    pub rect: Rect,
    /// True when Ctrl was held while the selection was being dragged. The
    /// capture flow flips the editor decision from the current setting: with
    /// the editor enabled Ctrl skips it, with it disabled Ctrl opens it.
    pub ctrl_held: bool,
    /// True when Shift was held at selection time: arms the delayed capture.
    pub shift_held: bool,
}

/// How the current mouse press is being interpreted inside the overlay.
#[derive(Clone, Copy, Debug, PartialEq, Eq, Structural)]
pub enum OverlayMode {
    /// No press in progress.
    Idle,
    /// Drawing a fresh selection box (normal capture).
    Select,
    /// Dragging the pre-positioned last-area rectangle to move it.
    Move,
    /// Dragging an edge or corner of the last-area rectangle to resize it.
    Resize,
}

/// Which edges of a rectangle are held.
#[derive(Clone, Copy, Debug, PartialEq, Eq, Structural)]
pub struct Edges {
    pub left: bool,
    pub right: bool,
    pub top: bool,
    pub bottom: bool,
}

impl Edges {
    pub open spec fn any(self) -> bool {
        self.left || self.right || self.top || self.bottom
    }
}

#[derive(Clone, Copy, Debug)]
pub struct OverlayState {
    pub width: i32,
    pub height: i32,
    pub start: Option<Point>,
    pub cur: Point,
    pub done: bool,
    /// What came of the overlay: a selection, or `Some(None)` when cancelled.
    pub result: Option<Option<Selection>>,
    /// Seconds to wait after the selection is released before capturing
    /// (0 = capture immediately).
    pub delayed_secs: u32,
    /// True while the countdown runs: the overlay is click-through and shows
    /// only a ghost outline and the remaining seconds.
    pub counting: bool,
    pub countdown: i64,
    /// The finalized selection.
    pub sel_rect: Rect,
    pub sel_ctrl: bool,
    /// Pre-positioned rectangle for "last area" mode; cleared once the user
    /// starts a fresh drag outside the remembered area.
    pub initial: Option<Rect>,
    /// Interaction mode for the current press.
    pub mode: OverlayMode,
    /// Cursor position when the current press began.
    pub press_start: Point,
    /// The rectangle at press time: the base for move and resize deltas.
    pub press_rect: Rect,
    /// Edges under the cursor while resizing.
    pub resize_edge: Edges,
    /// Modifiers seen at any time of the current press. A key release can
    /// overtake the mouse-up, so its own reading alone is not enough.
    pub press_ctrl: bool,
    pub press_shift: bool,
    /// The "annotate before showing thumbnail" setting, by which the Ctrl
    /// modifier is labelled.
    pub editor_enabled: bool,
    /// True while the overlay takes events.
    pub running: bool,
}

#[derive(Clone, Copy, Debug, PartialEq, Eq, Structural)]
pub enum Event {
    ButtonDown { pos: Point, ctrl: bool, shift: bool },
    MouseMove { pos: Point, ctrl: bool, shift: bool },
    ButtonUp { pos: Point, ctrl: bool, shift: bool },
    Tick,
    HitTest,
    Escape,
    Enter { ctrl: bool, shift: bool },
    ControlKey,
    Other,
}

/// How a window message is answered.
#[derive(Clone, Copy, Debug, PartialEq, Eq, Structural)]
pub enum Reply {
    Handled,
    /// Mouse input falls through to the window below.
    Transparent,
    /// The window system's own handling applies.
    Default,
}

/// What the window has to do after an event.
#[derive(Clone, Copy, Debug, PartialEq, Eq, Structural)]
pub struct Effects {
    pub capture_mouse: bool,
    pub release_mouse: bool,
    pub drop_focus: bool,
    pub start_timer: bool,
    pub stop_timer: bool,
    /// Wake the message loop, so that it sees that the overlay is done.
    pub wake: bool,
    pub redraw: bool,
    pub reply: Reply,
}

/// No effect, with the given answer.
pub open spec fn quiet(reply: Reply) -> Effects {
    Effects {
        capture_mouse: false,
        release_mouse: false,
        drop_focus: false,
        start_timer: false,
        stop_timer: false,
        wake: false,
        redraw: false,
        reply,
    }
}

fn quiet_effects(reply: Reply) -> (e: Effects)
    ensures
        e == quiet(reply),
{
    Effects {
        capture_mouse: false,
        release_mouse: false,
        drop_focus: false,
        start_timer: false,
        stop_timer: false,
        wake: false,
        redraw: false,
        reply,
    }
}

/// The key that a key message speaks of: the low half of its parameter.
pub open spec fn key_of(wparam: u64) -> int {
    wparam as int % 0x1_0000_0000
}

/// The event that a window message stands for, given where the cursor is and
/// which modifiers are held.
pub fn event_of(msg: u32, wparam: u64, pos: Point, ctrl: bool, shift: bool) -> (e: Event)
    ensures
        e == (if msg == WM_LBUTTONDOWN {
            Event::ButtonDown { pos, ctrl, shift }
        } else if msg == WM_MOUSEMOVE {
            Event::MouseMove { pos, ctrl, shift }
        } else if msg == WM_LBUTTONUP {
            Event::ButtonUp { pos, ctrl, shift }
        } else if msg == WM_TIMER && wparam == TIMER_COUNTDOWN {
            Event::Tick
        } else if msg == WM_NCHITTEST {
            Event::HitTest
        } else if msg == WM_KEYDOWN && key_of(wparam) == VK_ESCAPE {
            Event::Escape
        } else if msg == WM_KEYDOWN && key_of(wparam) == VK_RETURN {
            Event::Enter { ctrl, shift }
        } else if (msg == WM_KEYDOWN || msg == WM_KEYUP) && key_of(wparam) == VK_CONTROL {
            Event::ControlKey
        } else {
            Event::Other
        }),
{
    let key: u64 = wparam % 0x1_0000_0000;
    if msg == WM_LBUTTONDOWN {
        Event::ButtonDown { pos, ctrl, shift }
    } else if msg == WM_MOUSEMOVE {
        Event::MouseMove { pos, ctrl, shift }
    } else if msg == WM_LBUTTONUP {
        Event::ButtonUp { pos, ctrl, shift }
    } else if msg == WM_TIMER && wparam == TIMER_COUNTDOWN {
        Event::Tick
    } else if msg == WM_NCHITTEST {
        Event::HitTest
    } else if msg == WM_KEYDOWN && key == VK_ESCAPE {
        Event::Escape
    } else if msg == WM_KEYDOWN && key == VK_RETURN {
        Event::Enter { ctrl, shift }
    } else if (msg == WM_KEYDOWN || msg == WM_KEYUP) && key == VK_CONTROL {
        Event::ControlKey
    } else {
        Event::Other
    }
}

/// The rectangle with two points as opposite corners.
pub open spec fn spanned(a: Point, b: Point) -> Rect {
    Rect {
        left: if a.x <= b.x { a.x } else { b.x },
        top: if a.y <= b.y { a.y } else { b.y },
        right: if a.x <= b.x { b.x } else { a.x },
        bottom: if a.y <= b.y { b.y } else { a.y },
    }
}

pub fn make_selection(a: Point, b: Point) -> (r: Rect)
    ensures
        r == spanned(a, b),
        r.left <= r.right,
        r.top <= r.bottom,
        (r.left == a.x && r.right == b.x) || (r.left == b.x && r.right == a.x),
        (r.top == a.y && r.bottom == b.y) || (r.top == b.y && r.bottom == a.y),
{
    Rect {
        left: if a.x <= b.x { a.x } else { b.x },
        top: if a.y <= b.y { a.y } else { b.y },
        right: if a.x <= b.x { b.x } else { a.x },
        bottom: if a.y <= b.y { b.y } else { a.y },
    }
}

pub fn point_in_rect(r: &Rect, p: Point) -> (b: bool)
    ensures
        b == r.contains(p.x as int, p.y as int),
{
    p.x >= r.left && p.x < r.right && p.y >= r.top && p.y < r.bottom
}

/// Whether two coordinates are at most `tol` apart.
pub open spec fn near(a: int, b: int, tol: int) -> bool {
    -tol <= a - b <= tol
}

fn is_near(a: i32, b: i32, tol: i32) -> (r: bool)
    ensures
        r == near(a as int, b as int, tol as int),
{
    let d: i64 = a as i64 - b as i64;
    d <= tol as i64 && -d <= tol as i64
}

/// The edges of a rectangle that lie within `tol` pixels of a point, each
/// taken as an endless line.
pub open spec fn edges_near(r: Rect, p: Point, tol: int) -> Edges {
    Edges {
        left: near(p.x as int, r.left as int, tol),
        right: near(p.x as int, r.right as int, tol),
        top: near(p.y as int, r.top as int, tol),
        bottom: near(p.y as int, r.bottom as int, tol),
    }
}

/// A press near a border resizes; a press in the interior moves.
pub fn hit_edge(r: &Rect, p: Point, tol: i32) -> (e: Edges)
    ensures
        e == edges_near(*r, p, tol as int),
{
    Edges {
        left: is_near(p.x, r.left, tol),
        right: is_near(p.x, r.right, tol),
        top: is_near(p.y, r.top, tol),
        bottom: is_near(p.y, r.bottom, tol),
    }
}

pub open spec fn least(a: int, b: int) -> int {
    if a <= b {
        a
    } else {
        b
    }
}

pub open spec fn greatest(a: int, b: int) -> int {
    if a >= b {
        a
    } else {
        b
    }
}

/// The nearest number to `v` from `lo` to `hi`.
pub open spec fn clamped(v: int, lo: int, hi: int) -> int {
    if v < lo {
        lo
    } else if v > hi {
        hi
    } else {
        v
    }
}

pub fn clamp(v: i64, lo: i64, hi: i64) -> (r: i64)
    ensures
        r == clamped(v as int, lo as int, hi as int),
        lo <= v <= hi ==> r == v,
        v < lo ==> r == lo,
        lo <= hi ==> lo <= r <= hi,
{
    if v < lo {
        lo
    } else if v > hi {
        hi
    } else {
        v
    }
}

fn max_of(a: i64, b: i64) -> (r: i64)
    ensures
        r == greatest(a as int, b as int),
{
    if a >= b {
        a
    } else {
        b
    }
}

fn min_of(a: i64, b: i64) -> (r: i64)
    ensures
        r == least(a as int, b as int),
{
    if a <= b {
        a
    } else {
        b
    }
}

/// The remembered area cut down to the virtual screen, if enough of it is left
/// (the monitor it was on may have been unplugged).
pub open spec fn initial_area(rect: Option<Rect>, virt: Rect) -> Option<Rect> {
    match rect {
        None => None,
        Some(r) => {
            let c = crate::monitors::intersection(r, virt);
            if c.width() < MIN_SELECTION || c.height() < MIN_SELECTION {
                None
            } else {
                Some(c)
            }
        },
    }
}

pub fn clamp_initial(rect: Option<Rect>, virt: &Rect) -> (r: Option<Rect>)
    ensures
        r == initial_area(rect, *virt),
{
    match rect {
        None => None,
        Some(r) => {
            let c = crate::monitors::intersect(&r, virt);
            if (c.right as i64) - (c.left as i64) < MIN_SELECTION as i64 || (c.bottom as i64) - (
            c.top as i64) < MIN_SELECTION as i64 {
                None
            } else {
                Some(c)
            }
        },
    }
}

/// Whether a rectangle that is moved to the top left corner of the screen
/// still has coordinates that can be written down.
pub open spec fn movable(b: Rect, virt: Rect) -> bool {
    &&& 0 <= b.width() && virt.left + b.width() <= i32::MAX
    &&& 0 <= b.height() && virt.top + b.height() <= i32::MAX
}

pub fn is_movable(b: &Rect, virt: &Rect) -> (r: bool)
    ensures
        r == movable(*b, *virt),
{
    let w: i64 = b.right as i64 - b.left as i64;
    let h: i64 = b.bottom as i64 - b.top as i64;
    0 <= w && virt.left as i64 + w <= i32::MAX as i64 && 0 <= h && virt.top as i64 + h
        <= i32::MAX as i64
}

/// A rectangle dragged from one point to another: it keeps its size and stops
/// at the edges of the screen.
pub open spec fn moved(b: Rect, from: Point, to: Point, virt: Rect) -> Rect {
    let left = clamped(
        b.left + (to.x - from.x),
        virt.left as int,
        greatest(virt.right - b.width(), virt.left as int),
    );
    let top = clamped(
        b.top + (to.y - from.y),
        virt.top as int,
        greatest(virt.bottom - b.height(), virt.top as int),
    );
    Rect {
        left: left as i32,
        top: top as i32,
        right: (left + b.width()) as i32,
        bottom: (top + b.height()) as i32,
    }
}

fn drag_to(b: &Rect, from: Point, to: Point, virt: &Rect) -> (r: Rect)
    requires
        movable(*b, *virt),
    ensures
        r == moved(*b, from, to, *virt),
{
    let rw: i64 = b.right as i64 - b.left as i64;
    let rh: i64 = b.bottom as i64 - b.top as i64;
    let left: i64 = clamp(
        b.left as i64 + (to.x as i64 - from.x as i64),
        virt.left as i64,
        max_of(virt.right as i64 - rw, virt.left as i64),
    );
    let top: i64 = clamp(
        b.top as i64 + (to.y as i64 - from.y as i64),
        virt.top as i64,
        max_of(virt.bottom as i64 - rh, virt.top as i64),
    );
    Rect { left: left as i32, top: top as i32, right: (left + rw) as i32, bottom: (top + rh) as i32 }
}

/// A rectangle whose held edges follow the cursor: each stops at the edge of
/// the screen and at the least size from the opposite edge.
pub open spec fn resized(b: Rect, e: Edges, to: Point, virt: Rect) -> Rect {
    Rect {
        left: if e.left {
            clamped(
                to.x as int,
                virt.left as int,
                greatest(b.right - MIN_SELECTION, virt.left as int),
            ) as i32
        } else {
            b.left
        },
        top: if e.top {
            clamped(
                to.y as int,
                virt.top as int,
                greatest(b.bottom - MIN_SELECTION, virt.top as int),
            ) as i32
        } else {
            b.top
        },
        right: if e.right {
            clamped(
                to.x as int,
                least(b.left + MIN_SELECTION, virt.right as int),
                virt.right as int,
            ) as i32
        } else {
            b.right
        },
        bottom: if e.bottom {
            clamped(
                to.y as int,
                least(b.top + MIN_SELECTION, virt.bottom as int),
                virt.bottom as int,
            ) as i32
        } else {
            b.bottom
        },
    }
}

fn resize_to(b: &Rect, e: Edges, to: Point, virt: &Rect) -> (r: Rect)
    ensures
        r == resized(*b, e, to, *virt),
{
    let m: i64 = MIN_SELECTION as i64;
    let left: i32 = if e.left {
        clamp(
            to.x as i64,
            virt.left as i64,
            max_of(b.right as i64 - m, virt.left as i64),
        ) as i32
    } else {
        b.left
    };
    let top: i32 = if e.top {
        clamp(
            to.y as i64,
            virt.top as i64,
            max_of(b.bottom as i64 - m, virt.top as i64),
        ) as i32
    } else {
        b.top
    };
    let right: i32 = if e.right {
        clamp(
            to.x as i64,
            min_of(b.left as i64 + m, virt.right as i64),
            virt.right as i64,
        ) as i32
    } else {
        b.right
    };
    let bottom: i32 = if e.bottom {
        clamp(
            to.y as i64,
            min_of(b.top as i64 + m, virt.bottom as i64),
            virt.bottom as i64,
        ) as i32
    } else {
        b.bottom
    };
    Rect { left, top, right, bottom }
}

impl OverlayState {
    /// The state once a rectangle is chosen: with Shift held and a delay
    /// configured the countdown starts, else the overlay is done.
    pub open spec fn chosen(self, rect: Rect, ctrl: bool, shift: bool) -> OverlayState {
        if shift && self.delayed_secs > 0 {
            OverlayState {
                sel_rect: rect,
                sel_ctrl: ctrl,
                start: None,
                counting: true,
                countdown: self.delayed_secs as i64,
                ..self
            }
        } else {
            OverlayState {
                done: true,
                result: Some(Some(Selection { rect, ctrl_held: ctrl, shift_held: shift })),
                ..self
            }
        }
    }

    pub open spec fn chosen_effects(self, shift: bool, e: Effects) -> Effects {
        if shift && self.delayed_secs > 0 {
            Effects { drop_focus: true, start_timer: true, ..e }
        } else {
            Effects { wake: true, ..e }
        }
    }

    /// The state after the mouse button goes down.
    pub open spec fn pressed(self, pos: Point, ctrl: bool, shift: bool) -> OverlayState {
        let st = OverlayState { press_ctrl: ctrl, press_shift: shift, ..self };
        let fresh = OverlayState {
            initial: None,
            mode: OverlayMode::Select,
            start: Some(pos),
            cur: pos,
            ..st
        };
        match self.initial {
            None => fresh,
            Some(rect) => {
                let edge = edges_near(rect, pos, RESIZE_TOL as int);
                let held = OverlayState {
                    press_start: pos,
                    press_rect: rect,
                    sel_rect: rect,
                    ..st
                };
                if edge.any() {
                    OverlayState { mode: OverlayMode::Resize, resize_edge: edge, ..held }
                } else if rect.contains(pos.x as int, pos.y as int) {
                    OverlayState { mode: OverlayMode::Move, ..held }
                } else {
                    fresh
                }
            },
        }
    }

    /// The state after the mouse moves.
    pub open spec fn dragged(
        self,
        pos: Point,
        ctrl: bool,
        shift: bool,
        virt: Rect,
    ) -> OverlayState {
        match self.mode {
            OverlayMode::Idle => self,
            OverlayMode::Move => OverlayState {
                sel_rect: moved(self.press_rect, self.press_start, pos, virt),
                ..self
            },
            OverlayMode::Resize => OverlayState {
                sel_rect: resized(self.press_rect, self.resize_edge, pos, virt),
                ..self
            },
            OverlayMode::Select => if self.start is Some {
                OverlayState {
                    cur: pos,
                    press_ctrl: self.press_ctrl || ctrl,
                    press_shift: self.press_shift || shift,
                    ..self
                }
            } else {
                self
            },
        }
    }

    /// Whether the press has moved far enough to be a drag.
    pub open spec fn is_drag(self, pos: Point) -> bool {
        ||| !near(pos.x as int, self.press_start.x as int, CLICK_MOVE - 1)
        ||| !near(pos.y as int, self.press_start.y as int, CLICK_MOVE - 1)
    }

    /// The rectangle that the current drag spans, if it is large enough.
    pub open spec fn drawn(self) -> Option<Rect> {
        match self.start {
            None => None,
            Some(s) => {
                let r = spanned(s, self.cur);
                if r.width() >= MIN_SELECTION && r.height() >= MIN_SELECTION {
                    Some(r)
                } else {
                    None
                }
            },
        }
    }

    /// The state with the press over and its modifiers forgotten.
    pub open spec fn let_go(self) -> OverlayState {
        OverlayState { press_ctrl: false, press_shift: false, mode: OverlayMode::Idle, ..self }
    }

    /// The state after the mouse button comes up.
    pub open spec fn released(self, pos: Point, ctrl: bool, shift: bool) -> OverlayState {
        let c = ctrl || self.press_ctrl;
        let s = shift || self.press_shift;
        match self.mode {
            OverlayMode::Idle => self,
            OverlayMode::Select => match self.drawn() {
                Some(rect) => self.let_go().chosen(rect, c, s),
                None => OverlayState { done: true, result: Some(None), ..self.let_go() },
            },
            _ => if self.is_drag(pos) {
                OverlayState {
                    initial: Some(self.sel_rect),
                    mode: OverlayMode::Idle,
                    press_start: Point { x: 0, y: 0 },
                    ..self
                }
            } else {
                self.let_go().chosen(self.sel_rect, c, s)
            },
        }
    }

    pub open spec fn released_effects(self, pos: Point, shift: bool) -> Effects {
        let e = Effects { release_mouse: true, redraw: true, ..quiet(Reply::Handled) };
        let s = shift || self.press_shift;
        match self.mode {
            OverlayMode::Idle => e,
            OverlayMode::Select => if self.drawn() is Some {
                self.chosen_effects(s, e)
            } else {
                Effects { wake: true, ..e }
            },
            _ => if self.is_drag(pos) {
                e
            } else {
                self.chosen_effects(s, e)
            },
        }
    }

    /// Whether the running countdown is at its last second.
    pub open spec fn due(self) -> bool {
        self.counting && self.countdown <= 1
    }

    /// The state a second later.
    pub open spec fn ticked(self) -> OverlayState {
        if self.due() {
            OverlayState {
                counting: false,
                countdown: (self.countdown - 1) as i64,
                done: true,
                result: Some(
                    Some(
                        Selection {
                            rect: self.sel_rect,
                            ctrl_held: self.sel_ctrl,
                            shift_held: true,
                        },
                    ),
                ),
                ..self
            }
        } else if self.counting {
            OverlayState { countdown: (self.countdown - 1) as i64, ..self }
        } else {
            self
        }
    }

    /// The state once the user has given up. A finished overlay stays as it
    /// is.
    pub open spec fn cancelled(self) -> OverlayState {
        if self.done {
            self
        } else {
            OverlayState { done: true, result: Some(None), counting: false, ..self }
        }
    }

    pub open spec fn cancelled_effects(self) -> Effects {
        if self.done {
            quiet(Reply::Handled)
        } else {
            Effects { stop_timer: self.counting, wake: true, ..quiet(Reply::Handled) }
        }
    }

    /// Whether Enter confirms the remembered area.
    pub open spec fn confirmable(self) -> bool {
        self.initial is Some && !self.counting && self.mode is Idle
    }

    /// The state after an event.
    pub open spec fn next(self, event: Event, virt: Rect) -> OverlayState {
        match event {
            Event::ButtonDown { pos, ctrl, shift } => self.pressed(pos, ctrl, shift),
            Event::MouseMove { pos, ctrl, shift } => self.dragged(pos, ctrl, shift, virt),
            Event::ButtonUp { pos, ctrl, shift } => self.released(pos, ctrl, shift),
            Event::Tick => self.ticked(),
            Event::Escape => self.cancelled(),
            Event::Enter { ctrl, shift } => if self.confirmable() {
                self.chosen(self.sel_rect, ctrl, shift)
            } else {
                self
            },
            _ => self,
        }
    }

    /// What the window has to do after an event.
    pub open spec fn effects(self, event: Event) -> Effects {
        let handled = quiet(Reply::Handled);
        let redrawn = Effects { redraw: true, ..handled };
        match event {
            Event::ButtonDown { .. } => Effects { capture_mouse: true, ..redrawn },
            Event::MouseMove { .. } => redrawn,
            Event::ButtonUp { pos, shift, .. } => self.released_effects(pos, shift),
            Event::Tick => if self.due() {
                Effects { stop_timer: true, wake: true, ..redrawn }
            } else {
                redrawn
            },
            Event::HitTest => if self.counting {
                quiet(Reply::Transparent)
            } else {
                quiet(Reply::Default)
            },
            Event::Escape => self.cancelled_effects(),
            Event::Enter { shift, .. } => if self.confirmable() {
                self.chosen_effects(shift, redrawn)
            } else {
                redrawn
            },
            Event::ControlKey => redrawn,
            Event::Other => quiet(Reply::Default),
        }
    }

    /// A running countdown has a second left, and the overlay is done exactly
    /// when it has a result.
    pub open spec fn wf(self) -> bool {
        &&& self.counting ==> self.countdown >= 1
        &&& self.done == self.result is Some
    }

    fn start_or_finish(&mut self, rect: Rect, ctrl: bool, shift: bool, e: &mut Effects)
        ensures
            *final(self) == old(self).chosen(rect, ctrl, shift),
            *final(e) == old(self).chosen_effects(shift, *old(e)),
    {
        if shift && self.delayed_secs > 0 {
            self.sel_rect = rect;
            self.sel_ctrl = ctrl;
            self.start = None;
            self.counting = true;
            self.countdown = self.delayed_secs as i64;
            e.drop_focus = true;
            e.start_timer = true;
        } else {
            self.done = true;
            self.result = Some(Some(Selection { rect, ctrl_held: ctrl, shift_held: shift }));
            e.wake = true;
        }
    }

    fn button_down(&mut self, pos: Point, ctrl: bool, shift: bool)
        ensures
            *final(self) == old(self).pressed(pos, ctrl, shift),
    {
        self.press_ctrl = ctrl;
        self.press_shift = shift;
        if let Some(rect) = self.initial {
            let edge = hit_edge(&rect, pos, RESIZE_TOL);
            let on_edge = edge.left || edge.right || edge.top || edge.bottom;
            if on_edge || point_in_rect(&rect, pos) {
                self.press_start = pos;
                self.press_rect = rect;
                self.sel_rect = rect;
                if on_edge {
                    self.mode = OverlayMode::Resize;
                    self.resize_edge = edge;
                } else {
                    self.mode = OverlayMode::Move;
                }
                return ;
            }
        }
        self.initial = None;
        self.mode = OverlayMode::Select;
        self.start = Some(pos);
        self.cur = pos;
    }

    fn mouse_move(&mut self, pos: Point, ctrl: bool, shift: bool, virt: &Rect)
        requires
            old(self).mode is Move ==> movable(old(self).press_rect, *virt),
        ensures
            *final(self) == old(self).dragged(pos, ctrl, shift, *virt),
    {
        match self.mode {
            OverlayMode::Idle => {},
            OverlayMode::Move => {
                self.sel_rect = drag_to(&self.press_rect, self.press_start, pos, virt);
            },
            OverlayMode::Resize => {
                self.sel_rect = resize_to(&self.press_rect, self.resize_edge, pos, virt);
            },
            OverlayMode::Select => {
                if self.start.is_some() {
                    self.cur = pos;
                    self.press_ctrl = self.press_ctrl || ctrl;
                    self.press_shift = self.press_shift || shift;
                }
            },
        }
    }

    /// The rectangle that the current drag spans, if it is large enough.
    fn drawn_rect(&self) -> (r: Option<Rect>)
        ensures
            r == self.drawn(),
    {
        match self.start {
            None => None,
            Some(s) => {
                let rect = make_selection(s, self.cur);
                let rw: i64 = rect.right as i64 - rect.left as i64;
                let rh: i64 = rect.bottom as i64 - rect.top as i64;
                if rw >= MIN_SELECTION as i64 && rh >= MIN_SELECTION as i64 {
                    Some(rect)
                } else {
                    None
                }
            },
        }
    }

    fn drag_ended(&self, pos: Point) -> (r: bool)
        ensures
            r == self.is_drag(pos),
    {
        !is_near(pos.x, self.press_start.x, CLICK_MOVE - 1) || !is_near(
            pos.y,
            self.press_start.y,
            CLICK_MOVE - 1,
        )
    }

    #[verifier::rlimit(30)]
    fn button_up(&mut self, pos: Point, ctrl: bool, shift: bool) -> (e: Effects)
        ensures
            *final(self) == old(self).released(pos, ctrl, shift),
            e == old(self).released_effects(pos, shift),
    {
        let mut e = quiet_effects(Reply::Handled);
        e.release_mouse = true;
        e.redraw = true;
        let ctrl_held = ctrl || self.press_ctrl;
        let shift_held = shift || self.press_shift;
        match self.mode {
            OverlayMode::Idle => {},
            OverlayMode::Select => {
                let drawn = self.drawn_rect();
                self.press_ctrl = false;
                self.press_shift = false;
                self.mode = OverlayMode::Idle;
                match drawn {
                    Some(rect) => {
                        self.start_or_finish(rect, ctrl_held, shift_held, &mut e);
                    },
                    None => {
                        self.done = true;
                        self.result = Some(None);
                        e.wake = true;
                    },
                }
            },
            _ => {
                if self.drag_ended(pos) {
                    // Adjusted: the next press starts from the new rectangle.
                    self.mode = OverlayMode::Idle;
                    self.initial = Some(self.sel_rect);
                    self.press_start = Point { x: 0, y: 0 };
                } else {
                    self.mode = OverlayMode::Idle;
                    self.press_ctrl = false;
                    self.press_shift = false;
                    let rect = self.sel_rect;
                    self.start_or_finish(rect, ctrl_held, shift_held, &mut e);
                }
            },
        }
        e
    }

    /// Gives the overlay up, from the window or from outside it.
    pub fn cancel(&mut self) -> (e: Effects)
        ensures
            *final(self) == old(self).cancelled(),
            e == old(self).cancelled_effects(),
    {
        let mut e = quiet_effects(Reply::Handled);
        if !self.done {
            self.done = true;
            self.result = Some(None);
            e.stop_timer = self.counting;
            self.counting = false;
            e.wake = true;
        }
        e
    }

    /// Takes one event.
    pub fn on_event(&mut self, event: Event, virt: &Rect) -> (e: Effects)
        requires
            old(self).wf(),
            event is MouseMove && old(self).mode is Move ==> movable(
                old(self).press_rect,
                *virt,
            ),
        ensures
            *final(self) == old(self).next(event, *virt),
            e == old(self).effects(event),
            final(self).wf(),
    {
        let mut e = quiet_effects(Reply::Handled);
        match event {
            Event::ButtonDown { pos, ctrl, shift } => {
                self.button_down(pos, ctrl, shift);
                e.capture_mouse = true;
                e.redraw = true;
            },
            Event::MouseMove { pos, ctrl, shift } => {
                self.mouse_move(pos, ctrl, shift, virt);
                e.redraw = true;
            },
            Event::ButtonUp { pos, ctrl, shift } => {
                return self.button_up(pos, ctrl, shift);
            },
            Event::Tick => {
                if self.counting {
                    self.countdown = self.countdown - 1;
                    if self.countdown <= 0 {
                        self.counting = false;
                        self.done = true;
                        self.result = Some(
                            Some(
                                Selection {
                                    rect: self.sel_rect,
                                    ctrl_held: self.sel_ctrl,
                                    shift_held: true,
                                },
                            ),
                        );
                        e.stop_timer = true;
                        e.wake = true;
                    }
                }
                e.redraw = true;
            },
            Event::HitTest => {
                e.reply = if self.counting {
                    Reply::Transparent
                } else {
                    Reply::Default
                };
            },
            Event::Escape => {
                return self.cancel();
            },
            Event::Enter { ctrl, shift } => {
                let idle = match self.mode {
                    OverlayMode::Idle => true,
                    _ => false,
                };
                e.redraw = true;
                if self.initial.is_some() && !self.counting && idle {
                    let rect = self.sel_rect;
                    self.start_or_finish(rect, ctrl, shift, &mut e);
                }
            },
            Event::ControlKey => {
                e.redraw = true;
            },
            Event::Other => {
                e.reply = Reply::Default;
            },
        }
        e
    }
}

/// Opens the overlay over the virtual screen. Without monitors, or with an
/// empty screen, there is nothing to select from.
fn open(
    editor_enabled: bool,
    delay_secs: u32,
    initial: Option<Rect>,
    monitor_count: usize,
    virt: &Rect,
    cursor: Point,
) -> (r: Option<OverlayState>)
    ensures
        r == opened(editor_enabled, delay_secs, initial, monitor_count as int, *virt, cursor),
        r is Some ==> r->0.wf(),
{
    if monitor_count == 0 {
        return None;
    }
    let w: i64 = virt.right as i64 - virt.left as i64;
    let h: i64 = virt.bottom as i64 - virt.top as i64;
    if w <= 0 || h <= 0 || w > i32::MAX as i64 || h > i32::MAX as i64 {
        return None;
    }
    let none = Rect { left: 0, top: 0, right: 0, bottom: 0 };
    let origin = Point { x: 0, y: 0 };
    let initial = clamp_initial(initial, virt);
    Some(
        OverlayState {
            width: w as i32,
            height: h as i32,
            start: None,
            cur: cursor,
            done: false,
            result: None,
            delayed_secs: delay_secs,
            counting: false,
            countdown: delay_secs as i64,
            sel_rect: match initial {
                Some(r) => r,
                None => none,
            },
            sel_ctrl: false,
            initial,
            mode: OverlayMode::Idle,
            press_start: origin,
            press_rect: none,
            resize_edge: Edges { left: false, right: false, top: false, bottom: false },
            press_ctrl: false,
            press_shift: false,
            editor_enabled,
            running: true,
        },
    )
}

/// The state in which the overlay opens, if there is a screen to open it on.
pub open spec fn opened(
    editor_enabled: bool,
    delay_secs: u32,
    initial: Option<Rect>,
    monitor_count: int,
    virt: Rect,
    cursor: Point,
) -> Option<OverlayState> {
    let none = Rect { left: 0, top: 0, right: 0, bottom: 0 };
    let origin = Point { x: 0, y: 0 };
    let area = initial_area(initial, virt);
    if monitor_count == 0 || !(0 < virt.width() <= i32::MAX) || !(0 < virt.height()
        <= i32::MAX) {
        None
    } else {
        Some(
            OverlayState {
                width: virt.width() as i32,
                height: virt.height() as i32,
                start: None,
                cur: cursor,
                done: false,
                result: None,
                delayed_secs: delay_secs,
                counting: false,
                countdown: delay_secs as i64,
                sel_rect: match area {
                    Some(r) => r,
                    None => none,
                },
                sel_ctrl: false,
                initial: area,
                mode: OverlayMode::Idle,
                press_start: origin,
                press_rect: none,
                resize_edge: Edges { left: false, right: false, top: false, bottom: false },
                press_ctrl: false,
                press_shift: false,
                editor_enabled,
                running: true,
            },
        )
    }
}

/// Opens the overlay for a normal capture. `editor_enabled` is the current
/// "annotate before showing thumbnail" setting; `delay_secs` is the
/// configured delay: holding Shift while selecting arms the countdown.
pub fn run(
    editor_enabled: bool,
    delay_secs: u32,
    monitor_count: usize,
    virt: &Rect,
    cursor: Point,
) -> (r: Option<OverlayState>)
    ensures
        r == opened(editor_enabled, delay_secs, None, monitor_count as int, *virt, cursor),
        r is Some ==> r->0.wf(),
{
    open(editor_enabled, delay_secs, None, monitor_count, virt, cursor)
}

/// Opens the overlay with the previous capture region in place. Click the area
/// to re-capture it, drag inside to move it, drag an edge to resize it, or
/// drag elsewhere for a new selection.
pub fn run_last_area(
    editor_enabled: bool,
    delay_secs: u32,
    initial: Rect,
    monitor_count: usize,
    virt: &Rect,
    cursor: Point,
) -> (r: Option<OverlayState>)
    ensures
        r == opened(
            editor_enabled,
            delay_secs,
            Some(initial),
            monitor_count as int,
            *virt,
            cursor,
        ),
        r is Some ==> r->0.wf(),
{
    open(editor_enabled, delay_secs, Some(initial), monitor_count, virt, cursor)
}

/// Whether the overlay's message loop ends, from what fetching the message
/// returned (0 for a quit message, -1 for a failure) and the state after the
/// message was handled.
pub fn loop_ends(fetched: i32, st: &OverlayState) -> (r: bool)
    ensures
        r == (fetched == 0 || fetched == -1 || st.done),
{
    fetched == 0 || fetched == -1 || st.done
}

/// Closes the overlay and hands out the selection, or nothing when it was
/// cancelled or never came to an end.
pub fn close(st: &mut OverlayState) -> (r: Option<Selection>)
    ensures
        r == (match old(st).result {
            Some(sel) => sel,
            None => None,
        }),
        *final(st) == (OverlayState { running: false, result: None, ..*old(st) }),
{
    st.running = false;
    let r = match st.result {
        Some(sel) => sel,
        None => None,
    };
    st.result = None;
    r
}

/// Dismisses the overlay from outside its window, as the global Esc hotkey
/// does. Nothing happens when no overlay is active.
pub fn cancel_if_running(st: &mut OverlayState) -> (e: Effects)
    ensures
        *final(st) == (if old(st).running {
            old(st).cancelled()
        } else {
            *old(st)
        }),
        e == (if old(st).running {
            old(st).cancelled_effects()
        } else {
            quiet(Reply::Handled)
        }),
{
    if st.running {
        st.cancel()
    } else {
        quiet_effects(Reply::Handled)
    }
}

/// Whether a rectangle is large enough to be a selection and lies on the
/// screen.
pub open spec fn good_area(r: Rect, virt: Rect) -> bool {
    &&& r.within(virt)
    &&& r.width() >= MIN_SELECTION
    &&& r.height() >= MIN_SELECTION
}

/// Dragging an area keeps its size and keeps it on the screen.
pub proof fn law_moving_keeps_the_area(b: Rect, from: Point, to: Point, virt: Rect)
    requires
        good_area(b, virt),
    ensures
        good_area(moved(b, from, to, virt), virt),
        moved(b, from, to, virt).width() == b.width(),
        moved(b, from, to, virt).height() == b.height(),
        moved(b, from, from, virt) == b,
{
}

/// Resizing an area by any of its edges, but not by two opposite ones at a
/// time, keeps it on the screen and large enough, and leaves the other edges
/// where they are.
pub proof fn law_resizing_keeps_the_area(b: Rect, e: Edges, to: Point, virt: Rect)
    requires
        good_area(b, virt),
        !(e.left && e.right),
        !(e.top && e.bottom),
    ensures
        good_area(resized(b, e, to, virt), virt),
        !e.left ==> resized(b, e, to, virt).left == b.left,
        !e.right ==> resized(b, e, to, virt).right == b.right,
        !e.top ==> resized(b, e, to, virt).top == b.top,
        !e.bottom ==> resized(b, e, to, virt).bottom == b.bottom,
{
}

/// An area wider and higher than twice the resize tolerance cannot be held by
/// two opposite edges.
pub proof fn law_wide_areas_have_one_near_edge(r: Rect, p: Point)
    requires
        r.width() > 2 * RESIZE_TOL,
        r.height() > 2 * RESIZE_TOL,
    ensures
        !(edges_near(r, p, RESIZE_TOL as int).left && edges_near(r, p, RESIZE_TOL as int).right),
        !(edges_near(r, p, RESIZE_TOL as int).top && edges_near(r, p, RESIZE_TOL as int).bottom),
{
}

/// The remembered area with which the overlay opens lies on the screen and is
/// large enough.
pub proof fn law_the_remembered_area_is_good(rect: Option<Rect>, virt: Rect)
    ensures
        initial_area(rect, virt) matches Some(r) ==> good_area(r, virt),
{
}

/// Whether the remembered area, and what is being made of it, lies on the
/// screen.
pub open spec fn area_on_screen(st: OverlayState, virt: Rect) -> bool {
    &&& (st.mode is Move || st.mode is Resize) ==> st.initial is Some
    &&& st.initial matches Some(r) ==> {
        &&& !(st.mode is Select)
        &&& upright(r) && r.within(virt)
        &&& upright(st.sel_rect) && st.sel_rect.within(virt)
        &&& (st.mode is Move || st.mode is Resize) ==> upright(st.press_rect)
            && st.press_rect.within(virt)
    }
}

/// Whether no edge of a rectangle has passed the opposite one.
pub open spec fn upright(r: Rect) -> bool {
    r.left <= r.right && r.top <= r.bottom
}

/// Esc ends the overlay at once: nothing is captured, and no countdown goes on.
pub proof fn law_escape_cancels(st: OverlayState, virt: Rect)
    requires
        st.wf(),
        !st.done,
    ensures
        st.next(Event::Escape, virt).done,
        st.next(Event::Escape, virt).result == Some(None::<Selection>),
        !st.next(Event::Escape, virt).counting,
{
}

/// An overlay that is done stays done.
pub proof fn law_done_stays_done(st: OverlayState, event: Event, virt: Rect)
    requires
        st.done,
    ensures
        st.next(event, virt).done,
{
}

/// A countdown starts only on Shift, and only where a delay is configured.
pub proof fn law_countdown_needs_shift(st: OverlayState, event: Event, virt: Rect)
    requires
        !st.counting,
        st.next(event, virt).counting,
    ensures
        st.delayed_secs > 0,
        st.next(event, virt).countdown == st.delayed_secs,
        st.press_shift || (event matches Event::ButtonUp { shift, .. } && shift) || (
        event matches Event::Enter { shift, .. } && shift),
{
}

/// The state after a number of ticks.
pub open spec fn after_ticks(st: OverlayState, n: nat) -> OverlayState
    decreases n,
{
    if n == 0 {
        st
    } else {
        after_ticks(st, (n - 1) as nat).ticked()
    }
}

/// A countdown fires after as many ticks as it has seconds, and not before:
/// the overlay is then done with the selection that started it.
pub proof fn law_countdown_fires_when_due(st: OverlayState, n: nat)
    requires
        st.wf(),
        st.counting,
        !st.done,
        n <= st.countdown,
    ensures
        n < st.countdown ==> after_ticks(st, n) == (OverlayState {
            countdown: (st.countdown - n) as i64,
            ..st
        }),
        n == st.countdown ==> {
            &&& after_ticks(st, n).done
            &&& !after_ticks(st, n).counting
            &&& after_ticks(st, n).result == Some(
                Some(Selection { rect: st.sel_rect, ctrl_held: st.sel_ctrl, shift_held: true }),
            )
        },
    decreases n,
{
    if n > 0 {
        law_countdown_fires_when_due(st, (n - 1) as nat);
    }
}

/// A plain drag without modifiers is captured as the rectangle between the two
/// points, if it is large enough, and cancels the overlay if it is not.
pub proof fn law_plain_drag(st: OverlayState, from: Point, to: Point, virt: Rect)
    requires
        st.initial is None,
        !st.done,
    ensures
        ({
            let end = st.next(Event::ButtonDown { pos: from, ctrl: false, shift: false }, virt).next(
                Event::MouseMove { pos: to, ctrl: false, shift: false },
                virt,
            ).next(Event::ButtonUp { pos: to, ctrl: false, shift: false }, virt);
            let r = spanned(from, to);
            &&& end.done
            &&& end.result == Some(
                if r.width() >= MIN_SELECTION && r.height() >= MIN_SELECTION {
                    Some(Selection { rect: r, ctrl_held: false, shift_held: false })
                } else {
                    None
                },
            )
        }),
{
}

/// Whether a press at a point takes hold of the remembered area: by an edge, or
/// from inside.
pub open spec fn takes_hold(r: Rect, p: Point) -> bool {
    edges_near(r, p, RESIZE_TOL as int).any() || r.contains(p.x as int, p.y as int)
}

/// A click on the remembered area captures it as it is; the modifiers turn the
/// editor round and arm the countdown as they do for a drag.
pub proof fn law_click_captures_the_area(
    st: OverlayState,
    r: Rect,
    from: Point,
    to: Point,
    ctrl: bool,
    shift: bool,
    virt: Rect,
)
    requires
        st.initial == Some(r),
        !st.done,
        takes_hold(r, from),
        near(to.x as int, from.x as int, CLICK_MOVE - 1),
        near(to.y as int, from.y as int, CLICK_MOVE - 1),
    ensures
        ({
            let down = st.next(Event::ButtonDown { pos: from, ctrl, shift }, virt);
            let end = down.next(Event::ButtonUp { pos: to, ctrl: false, shift: false }, virt);
            if shift && st.delayed_secs > 0 {
                &&& end.counting && !end.done
                &&& end.countdown == st.delayed_secs
                &&& end.sel_rect == r && end.sel_ctrl == ctrl
            } else {
                &&& end.done
                &&& end.result == Some(
                    Some(Selection { rect: r, ctrl_held: ctrl, shift_held: shift }),
                )
            }
        }),
{
}

/// Dragging the remembered area from inside moves it, dragging an edge resizes
/// it, and either way it waits to be captured.
pub proof fn law_drag_adjusts_the_area(
    st: OverlayState,
    r: Rect,
    from: Point,
    to: Point,
    virt: Rect,
)
    requires
        st.initial == Some(r),
        !st.done,
        takes_hold(r, from),
        !near(to.x as int, from.x as int, CLICK_MOVE - 1) || !near(
            to.y as int,
            from.y as int,
            CLICK_MOVE - 1,
        ),
    ensures
        ({
            let end = st.next(Event::ButtonDown { pos: from, ctrl: false, shift: false }, virt).next(
                Event::MouseMove { pos: to, ctrl: false, shift: false },
                virt,
            ).next(Event::ButtonUp { pos: to, ctrl: false, shift: false }, virt);
            let edges = edges_near(r, from, RESIZE_TOL as int);
            &&& !end.done
            &&& end.mode is Idle
            &&& end.initial == Some(
                if edges.any() {
                    resized(r, edges, to, virt)
                } else {
                    moved(r, from, to, virt)
                },
            )
            &&& end.sel_rect == end.initial->0
        }),
{
}

/// A drag that starts off the remembered area forgets it and selects anew.
pub proof fn law_drag_elsewhere_selects_anew(
    st: OverlayState,
    r: Rect,
    from: Point,
    to: Point,
    virt: Rect,
)
    requires
        st.initial == Some(r),
        !st.done,
        !takes_hold(r, from),
    ensures
        ({
            let down = st.next(Event::ButtonDown { pos: from, ctrl: false, shift: false }, virt);
            let end = down.next(Event::MouseMove { pos: to, ctrl: false, shift: false }, virt).next(
                Event::ButtonUp { pos: to, ctrl: false, shift: false },
                virt,
            );
            let s = spanned(from, to);
            &&& down.initial is None
            &&& end.done
            &&& end.result == Some(
                if s.width() >= MIN_SELECTION && s.height() >= MIN_SELECTION {
                    Some(Selection { rect: s, ctrl_held: false, shift_held: false })
                } else {
                    None
                },
            )
        }),
{
}

/// Enter captures the remembered area, and does nothing where there is none.
pub proof fn law_enter_captures_the_area(st: OverlayState, virt: Rect)
    requires
        !st.done,
        !st.counting,
        st.mode is Idle,
    ensures
        ({
            let end = st.next(Event::Enter { ctrl: false, shift: false }, virt);
            match st.initial {
                Some(_) => end.result == Some(
                    Some(Selection { rect: st.sel_rect, ctrl_held: false, shift_held: false }),
                ) && end.done,
                None => end == st,
            }
        }),
{
}

/// A modifier held at any time of a drag counts, even when it is let go before
/// the mouse button.
pub proof fn law_modifiers_are_latched(
    st: OverlayState,
    mid: Point,
    pos: Point,
    ctrl: bool,
    shift: bool,
    virt: Rect,
)
    requires
        st.mode is Select,
        st.start is Some,
    ensures
        ({
            let moved = st.next(Event::MouseMove { pos: mid, ctrl, shift }, virt);
            let end = moved.next(Event::ButtonUp { pos, ctrl: false, shift: false }, virt);
            moved.drawn() is Some ==> end == moved.let_go().chosen(
                moved.drawn()->0,
                st.press_ctrl || ctrl,
                st.press_shift || shift,
            )
        }),
{
}

/// Every event keeps the remembered area on the screen.
pub proof fn law_area_stays_on_screen(st: OverlayState, event: Event, virt: Rect)
    requires
        area_on_screen(st, virt),
        virt.left <= virt.right,
        virt.top <= virt.bottom,
    ensures
        area_on_screen(st.next(event, virt), virt),
{
}

/// An area that lies on the screen can be moved about on it.
pub proof fn law_areas_on_screen_can_be_moved(b: Rect, virt: Rect)
    requires
        upright(b),
        b.within(virt),
    ensures
        movable(b, virt),
{
}

/// The state after a drag without modifiers.
pub open spec fn after_drag(st: OverlayState, from: Point, to: Point, virt: Rect) -> OverlayState {
    st.next(Event::ButtonDown { pos: from, ctrl: false, shift: false }, virt).next(
        Event::MouseMove { pos: to, ctrl: false, shift: false },
        virt,
    ).next(Event::ButtonUp { pos: to, ctrl: false, shift: false }, virt)
}

/// A drag between two points selects the rectangle that has them as opposite
/// corners, whichever way it goes: its left edge is the smaller of the two
/// horizontal coordinates, its top edge the smaller of the two vertical ones. A
/// drag that is too short either way cancels the overlay.
pub proof fn law_drag_selects_the_box_between_its_ends(
    st: OverlayState,
    from: Point,
    to: Point,
    virt: Rect,
)
    requires
        st.initial is None,
        !st.done,
    ensures
        after_drag(st, from, to, virt).done,
        match after_drag(st, from, to, virt).result {
            Some(Some(sel)) => {
                &&& to.x - from.x >= MIN_SELECTION || from.x - to.x >= MIN_SELECTION
                &&& to.y - from.y >= MIN_SELECTION || from.y - to.y >= MIN_SELECTION
                &&& sel.rect.left < sel.rect.right
                &&& sel.rect.top < sel.rect.bottom
                &&& (sel.rect.left == from.x && sel.rect.right == to.x) || (sel.rect.left == to.x
                    && sel.rect.right == from.x)
                &&& (sel.rect.top == from.y && sel.rect.bottom == to.y) || (sel.rect.top == to.y
                    && sel.rect.bottom == from.y)
                &&& !sel.ctrl_held && !sel.shift_held
            },
            Some(None) => {
                ||| -MIN_SELECTION < to.x - from.x < MIN_SELECTION
                ||| -MIN_SELECTION < to.y - from.y < MIN_SELECTION
            },
            None => false,
        },
        after_drag(st, from, to, virt).result == after_drag(st, to, from, virt).result,
{
}

/// Two points span one rectangle, whichever is named first: its corners are at
/// the smaller and at the greater of their coordinates.
pub proof fn law_two_points_span_one_box(a: Point, b: Point)
    ensures
        spanned(a, b) == spanned(b, a),
        spanned(a, b).left <= a.x <= spanned(a, b).right,
        spanned(a, b).left <= b.x <= spanned(a, b).right,
        spanned(a, b).top <= a.y <= spanned(a, b).bottom,
        spanned(a, b).top <= b.y <= spanned(a, b).bottom,
        spanned(a, b).left + spanned(a, b).right == a.x + b.x,
        spanned(a, b).top + spanned(a, b).bottom == a.y + b.y,
        spanned(a, b).left == a.x || spanned(a, b).left == b.x,
        spanned(a, b).top == a.y || spanned(a, b).top == b.y,
{
}

/// A drag counts the modifiers that were held at any time of it. With Shift and
/// a configured delay the countdown starts with all its seconds; else the
/// overlay is done. Either way the rectangle is the one between the press and
/// the last move.
pub proof fn law_drag_with_modifiers(
    st: OverlayState,
    from: Point,
    to: Point,
    up: Point,
    ctrl: (bool, bool, bool),
    shift: (bool, bool, bool),
    virt: Rect,
)
    requires
        st.initial is None,
        !st.done,
        !st.counting,
        to.x - from.x >= MIN_SELECTION || from.x - to.x >= MIN_SELECTION,
        to.y - from.y >= MIN_SELECTION || from.y - to.y >= MIN_SELECTION,
    ensures
        ({
            let end = st.next(
                Event::ButtonDown { pos: from, ctrl: ctrl.0, shift: shift.0 },
                virt,
            ).next(Event::MouseMove { pos: to, ctrl: ctrl.1, shift: shift.1 }, virt).next(
                Event::ButtonUp { pos: up, ctrl: ctrl.2, shift: shift.2 },
                virt,
            );
            let c = ctrl.0 || ctrl.1 || ctrl.2;
            let s = shift.0 || shift.1 || shift.2;
            let rect = if s && st.delayed_secs > 0 {
                end.sel_rect
            } else {
                end.result->0->0.rect
            };
            &&& if s && st.delayed_secs > 0 {
                &&& end.counting && !end.done && end.result == st.result
                &&& end.countdown == st.delayed_secs
                &&& end.sel_ctrl == c
            } else {
                &&& end.done && !end.counting
                &&& end.result matches Some(Some(sel)) && sel.ctrl_held == c && sel.shift_held == s
            }
            &&& rect.left < rect.right && rect.left + rect.right == from.x + to.x
            &&& rect.left == from.x || rect.right == from.x
            &&& rect.top < rect.bottom && rect.top + rect.bottom == from.y + to.y
            &&& rect.top == from.y || rect.bottom == from.y
        }),
{
}

/// A press within the resize tolerance of an edge of the remembered area holds
/// that edge, and every other one it is near to; a press elsewhere inside it
/// holds the whole area; any other press forgets it and starts a selection.
pub proof fn law_press_holds_what_is_under_it(
    st: OverlayState,
    r: Rect,
    pos: Point,
    ctrl: bool,
    shift: bool,
    virt: Rect,
)
    requires
        st.initial == Some(r),
    ensures
        ({
            let p = st.next(Event::ButtonDown { pos, ctrl, shift }, virt);
            let left = -RESIZE_TOL <= pos.x - r.left <= RESIZE_TOL;
            let right = -RESIZE_TOL <= pos.x - r.right <= RESIZE_TOL;
            let top = -RESIZE_TOL <= pos.y - r.top <= RESIZE_TOL;
            let bottom = -RESIZE_TOL <= pos.y - r.bottom <= RESIZE_TOL;
            &&& p.press_ctrl == ctrl && p.press_shift == shift
            &&& p.done == st.done && p.counting == st.counting && p.result == st.result
            &&& if left || right || top || bottom {
                &&& p.mode is Resize
                &&& p.resize_edge.left == left && p.resize_edge.right == right
                &&& p.resize_edge.top == top && p.resize_edge.bottom == bottom
                &&& p.initial == Some(r) && p.press_rect == r && p.press_start == pos
            } else if r.left <= pos.x < r.right && r.top <= pos.y < r.bottom {
                &&& p.mode is Move
                &&& p.initial == Some(r) && p.press_rect == r && p.press_start == pos
            } else {
                &&& p.mode is Select
                &&& p.initial is None && p.start == Some(pos)
            }
        }),
{
}

/// Dragging the remembered area from inside shifts it by exactly as much as the
/// cursor moves; where that would take it off the screen it stops with the edge
/// that goes first at the screen's. Its size never changes.
pub proof fn law_drag_inside_shifts_the_area(
    st: OverlayState,
    r: Rect,
    from: Point,
    to: Point,
    virt: Rect,
)
    requires
        st.initial == Some(r),
        !st.done,
        virt.left <= r.left,
        r.right <= virt.right,
        virt.top <= r.top,
        r.bottom <= virt.bottom,
        r.left + RESIZE_TOL < from.x < r.right - RESIZE_TOL,
        r.top + RESIZE_TOL < from.y < r.bottom - RESIZE_TOL,
        to.x - from.x >= CLICK_MOVE || from.x - to.x >= CLICK_MOVE || to.y - from.y >= CLICK_MOVE
            || from.y - to.y >= CLICK_MOVE,
    ensures
        ({
            let end = after_drag(st, from, to, virt);
            let q = end.initial->0;
            let dx = to.x - from.x;
            let dy = to.y - from.y;
            &&& !end.done && end.initial is Some && end.sel_rect == q
            &&& q.right - q.left == r.right - r.left
            &&& q.bottom - q.top == r.bottom - r.top
            &&& virt.left <= r.left + dx && r.right + dx <= virt.right ==> q.left == r.left + dx
            &&& r.left + dx < virt.left ==> q.left == virt.left
            &&& r.right + dx > virt.right ==> q.right == virt.right
            &&& virt.top <= r.top + dy && r.bottom + dy <= virt.bottom ==> q.top == r.top + dy
            &&& r.top + dy < virt.top ==> q.top == virt.top
            &&& r.bottom + dy > virt.bottom ==> q.bottom == virt.bottom
        }),
{
}

/// Dragging edges of the remembered area puts each of them exactly at the
/// cursor, as long as that is on the screen and leaves the least size; beyond
/// that the edge is at the screen's edge, or at the least size from the
/// opposite edge. The edges that are not held stay.
pub proof fn law_held_edges_follow_the_cursor(
    st: OverlayState,
    r: Rect,
    from: Point,
    to: Point,
    virt: Rect,
)
    requires
        st.initial == Some(r),
        !st.done,
        virt.left <= r.left,
        r.right <= virt.right,
        virt.top <= r.top,
        r.bottom <= virt.bottom,
        r.right - r.left >= MIN_SELECTION,
        r.bottom - r.top >= MIN_SELECTION,
        -RESIZE_TOL <= from.x - r.left <= RESIZE_TOL || -RESIZE_TOL <= from.x - r.right
            <= RESIZE_TOL || -RESIZE_TOL <= from.y - r.top <= RESIZE_TOL || -RESIZE_TOL <= from.y
            - r.bottom <= RESIZE_TOL,
        to.x - from.x >= CLICK_MOVE || from.x - to.x >= CLICK_MOVE || to.y - from.y >= CLICK_MOVE
            || from.y - to.y >= CLICK_MOVE,
    ensures
        ({
            let end = after_drag(st, from, to, virt);
            let q = end.initial->0;
            &&& !end.done && end.initial is Some && end.sel_rect == q
            &&& if -RESIZE_TOL <= from.x - r.left <= RESIZE_TOL {
                &&& virt.left <= to.x <= r.right - MIN_SELECTION ==> q.left == to.x
                &&& to.x < virt.left ==> q.left == virt.left
                &&& to.x > r.right - MIN_SELECTION ==> q.left == r.right - MIN_SELECTION
            } else {
                q.left == r.left
            }
            &&& if -RESIZE_TOL <= from.x - r.right <= RESIZE_TOL {
                &&& r.left + MIN_SELECTION <= to.x <= virt.right ==> q.right == to.x
                &&& to.x > virt.right ==> q.right == virt.right
                &&& to.x < r.left + MIN_SELECTION ==> q.right == r.left + MIN_SELECTION
            } else {
                q.right == r.right
            }
            &&& if -RESIZE_TOL <= from.y - r.top <= RESIZE_TOL {
                &&& virt.top <= to.y <= r.bottom - MIN_SELECTION ==> q.top == to.y
                &&& to.y < virt.top ==> q.top == virt.top
                &&& to.y > r.bottom - MIN_SELECTION ==> q.top == r.bottom - MIN_SELECTION
            } else {
                q.top == r.top
            }
            &&& if -RESIZE_TOL <= from.y - r.bottom <= RESIZE_TOL {
                &&& r.top + MIN_SELECTION <= to.y <= virt.bottom ==> q.bottom == to.y
                &&& to.y > virt.bottom ==> q.bottom == virt.bottom
                &&& to.y < r.top + MIN_SELECTION ==> q.bottom == r.top + MIN_SELECTION
            } else {
                q.bottom == r.bottom
            }
        }),
{
}

/// Of the positions that a drag passes only the last one matters for the
/// rectangle.
pub proof fn law_only_the_last_position_counts(
    st: OverlayState,
    a: Point,
    b: Point,
    ctrl: bool,
    shift: bool,
    virt: Rect,
)
    ensures
        ({
            let through = st.next(Event::MouseMove { pos: a, ctrl, shift }, virt).next(
                Event::MouseMove { pos: b, ctrl, shift },
                virt,
            );
            through == st.next(Event::MouseMove { pos: b, ctrl, shift }, virt)
        }),
        st.mode is Idle ==> st.next(Event::MouseMove { pos: a, ctrl, shift }, virt) == st,
{
    let first = st.next(Event::MouseMove { pos: a, ctrl, shift }, virt);
    let last = st.next(Event::MouseMove { pos: b, ctrl, shift }, virt);
    assert(first.mode == st.mode);
    match st.mode {
        OverlayMode::Idle => {},
        OverlayMode::Move => {
            assert(first.press_rect == st.press_rect && first.press_start == st.press_start);
        },
        OverlayMode::Resize => {
            assert(first.press_rect == st.press_rect && first.resize_edge == st.resize_edge);
        },
        OverlayMode::Select => {
            assert(first.start == st.start);
        },
    }
}

/// The overlay opens where there is a monitor and a screen that is not empty:
/// over the whole screen, with nothing selected, and with as much of the
/// remembered area as lies on the screen, if that is large enough.
pub proof fn law_the_overlay_opens_on_the_screen(
    editor_enabled: bool,
    delay_secs: u32,
    initial: Option<Rect>,
    monitor_count: int,
    virt: Rect,
    cursor: Point,
)
    requires
        virt.right - virt.left <= i32::MAX,
        virt.bottom - virt.top <= i32::MAX,
    ensures
        ({
            let o = opened(editor_enabled, delay_secs, initial, monitor_count, virt, cursor);
            let st = o->0;
            &&& o is Some == (monitor_count != 0 && virt.left < virt.right && virt.top
                < virt.bottom)
            &&& o is Some ==> {
                &&& st.width == virt.right - virt.left && st.height == virt.bottom - virt.top
                &&& st.running && !st.done && !st.counting && st.result is None && st.mode is Idle
                &&& st.editor_enabled == editor_enabled && st.delayed_secs == delay_secs
                &&& initial is None ==> st.initial is None
                &&& initial matches Some(r) ==> match st.initial {
                    Some(q) => {
                        &&& st.sel_rect == q
                        &&& q.right - q.left >= MIN_SELECTION && q.bottom - q.top >= MIN_SELECTION
                        &&& q.left >= r.left && q.left >= virt.left && (q.left == r.left || q.left
                            == virt.left)
                        &&& q.top >= r.top && q.top >= virt.top && (q.top == r.top || q.top
                            == virt.top)
                        &&& q.right <= r.right && q.right <= virt.right && (q.right == r.right
                            || q.right == virt.right)
                        &&& q.bottom <= r.bottom && q.bottom <= virt.bottom && (q.bottom
                            == r.bottom || q.bottom == virt.bottom)
                    },
                    None => {
                        ||| r.right - r.left < MIN_SELECTION || r.right - virt.left < MIN_SELECTION
                        ||| virt.right - r.left < MIN_SELECTION || virt.right - virt.left
                            < MIN_SELECTION
                        ||| r.bottom - r.top < MIN_SELECTION || r.bottom - virt.top < MIN_SELECTION
                        ||| virt.bottom - r.top < MIN_SELECTION || virt.bottom - virt.top
                            < MIN_SELECTION
                    },
                }
            }
        }),
{
}

/// Re-opening the overlay on an area of the screen and pressing Enter captures
/// exactly that area.
pub proof fn law_enter_recaptures_the_last_area(
    editor_enabled: bool,
    delay_secs: u32,
    r: Rect,
    monitor_count: int,
    virt: Rect,
    cursor: Point,
    ctrl: bool,
)
    requires
        monitor_count != 0,
        virt.right - virt.left <= i32::MAX,
        virt.bottom - virt.top <= i32::MAX,
        virt.left <= r.left,
        r.right <= virt.right,
        virt.top <= r.top,
        r.bottom <= virt.bottom,
        r.right - r.left >= MIN_SELECTION,
        r.bottom - r.top >= MIN_SELECTION,
    ensures
        ({
            let st = opened(
                editor_enabled,
                delay_secs,
                Some(r),
                monitor_count,
                virt,
                cursor,
            )->0.next(Event::Enter { ctrl, shift: false }, virt);
            &&& st.done
            &&& st.result matches Some(Some(sel)) && sel.rect == r && sel.ctrl_held == ctrl
                && !sel.shift_held
        }),
{
}

/// Each second of a running countdown takes one off; the last one ends the
/// overlay with the rectangle and the Ctrl key of the selection that started
/// it. Without a countdown a tick does nothing.
pub proof fn law_ticks_count_down(st: OverlayState, virt: Rect)
    requires
        st.wf(),
    ensures
        ({
            let n = st.next(Event::Tick, virt);
            &&& !st.counting ==> n == st
            &&& st.counting ==> n.countdown == st.countdown - 1 && n.sel_rect == st.sel_rect
            &&& st.counting && st.countdown > 1 ==> n.counting && n.done == st.done && n.result
                == st.result
            &&& st.counting && st.countdown == 1 ==> {
                &&& n.done && !n.counting
                &&& n.result matches Some(Some(sel)) && sel.rect == st.sel_rect && sel.ctrl_held
                    == st.sel_ctrl && sel.shift_held
            }
        }),
{
}

/// Giving up, from the window or from outside it, ends the overlay without a
/// selection and changes nothing once it is done.
pub proof fn law_giving_up_selects_nothing(st: OverlayState, virt: Rect)
    ensures
        st.next(Event::Escape, virt) == st.cancelled(),
        st.done ==> st.cancelled() == st,
        !st.done ==> st.cancelled().done && st.cancelled().result == Some(None::<Selection>)
            && !st.cancelled().counting,
        !st.done ==> st.cancelled_effects().wake && st.cancelled_effects().stop_timer
            == st.counting,
{
}

/// Messages that mean nothing to the overlay leave it as it is.
pub proof fn law_other_messages_change_nothing(st: OverlayState, virt: Rect)
    ensures
        st.next(Event::Other, virt) == st,
        st.next(Event::ControlKey, virt) == st,
        st.next(Event::HitTest, virt) == st,
        st.effects(Event::Other).reply is Default,
        st.effects(Event::ControlKey).redraw,
        st.counting ==> st.effects(Event::HitTest).reply is Transparent,
        !st.counting ==> st.effects(Event::HitTest).reply is Default,
{
}

/// What the window does follows what the overlay does: the message loop wakes
/// when the overlay is done, the timer runs while the countdown does, and the
/// mouse is captured from the press to the release.
pub proof fn law_effects_follow_the_state(st: OverlayState, event: Event, virt: Rect)
    requires
        st.wf(),
        !st.done,
    ensures
        ({
            let n = st.next(event, virt);
            let e = st.effects(event);
            &&& n.done ==> e.wake
            &&& e.wake ==> n.done
            &&& e.start_timer ==> n.counting && !n.done
            &&& !st.counting && n.counting ==> e.start_timer && e.drop_focus
            &&& e.stop_timer == (st.counting && !n.counting && !(event is ButtonUp))
            &&& e.capture_mouse == (event is ButtonDown)
            &&& e.release_mouse == (event is ButtonUp)
            &&& n != st ==> e.redraw || event is Escape
        }),
{
}

/// A release ends the press, whatever came of it.
pub proof fn law_releases_end_the_press(
    st: OverlayState,
    pos: Point,
    ctrl: bool,
    shift: bool,
    virt: Rect,
)
    ensures
        st.next(Event::ButtonUp { pos, ctrl, shift }, virt).mode is Idle,
{
}

} // verus!

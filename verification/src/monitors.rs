//! Monitors and rectangles in physical-pixel (virtual-screen) coordinates.

use vstd::prelude::*;

verus! {

/// The dots per inch at which one logical pixel is one physical pixel.
pub const BASE_DPI: u32 = 96;

#[derive(Clone, Copy, Debug, PartialEq, Eq, Structural)]
pub struct Point {
    pub x: i32,
    pub y: i32,
}

/// A rectangle that holds the points from its left and top edges up to, and
/// without, its right and bottom edges.
#[derive(Clone, Copy, Debug, PartialEq, Eq, Structural)]
pub struct Rect {
    pub left: i32,
    pub top: i32,
    pub right: i32,
    pub bottom: i32,
}

impl Rect {
    pub open spec fn contains(self, x: int, y: int) -> bool {
        self.left <= x < self.right && self.top <= y < self.bottom
    }

    pub open spec fn width(self) -> int {
        self.right - self.left
    }

    pub open spec fn height(self) -> int {
        self.bottom - self.top
    }

    /// Whether no edge of this rectangle lies beyond an edge of `outer`.
    pub open spec fn within(self, outer: Rect) -> bool {
        &&& outer.left <= self.left && self.right <= outer.right
        &&& outer.top <= self.top && self.bottom <= outer.bottom
    }
}

#[derive(Clone, Copy, Debug)]
pub struct MonitorInfo {
    /// The handle by which the window system knows the monitor.
    pub hmonitor: u64,
    /// Monitor rect in virtual-screen (physical pixel) coordinates.
    pub rect: Rect,
    /// Work area (without the taskbar) in the same coordinate space.
    pub work: Rect,
    pub is_primary: bool,
    /// Device name like "\\.\DISPLAY1" (null-terminated wide string).
    pub device: [u16; 32],
    /// Dots per inch; the scale factor is `dpi / BASE_DPI`.
    pub dpi: u32,
}

/// Adds a monitor that the window system reported to the list. A monitor whose
/// details could not be read is skipped, and one without a known density
/// counts as unscaled.
pub fn enumerate(monitors: &mut Vec<MonitorInfo>, found: Option<MonitorInfo>, dpi: Option<u32>)
    ensures
        match found {
            Some(m) => final(monitors)@ == old(monitors)@.push(
                MonitorInfo {
                    dpi: match dpi {
                        Some(d) => d,
                        None => BASE_DPI,
                    },
                    ..m
                },
            ),
            None => final(monitors)@ == old(monitors)@,
        },
{
    if let Some(m) = found {
        let d: u32 = match dpi {
            Some(d) => d,
            None => BASE_DPI,
        };
        monitors.push(MonitorInfo { dpi: d, ..m });
    }
}

/// Bounding rect of the entire virtual screen, from its origin and size.
pub fn virtual_screen(x: i32, y: i32, w: i32, h: i32) -> (r: Rect)
    requires
        i32::MIN <= x + w <= i32::MAX,
        i32::MIN <= y + h <= i32::MAX,
    ensures
        r == (Rect { left: x, top: y, right: (x + w) as i32, bottom: (y + h) as i32 }),
{
    Rect { left: x, top: y, right: x + w, bottom: y + h }
}

/// The first of the monitors with the given handle: the one that the window
/// system names as nearest to a point.
pub fn monitor_at_point(monitors: &Vec<MonitorInfo>, hmonitor: u64) -> (r: Option<MonitorInfo>)
    ensures
        match r {
            Some(m) => exists|i: int|
                #![trigger monitors@[i]]
                0 <= i < monitors@.len() && monitors@[i] == m && m.hmonitor == hmonitor && forall|
                    j: int,
                |
                    0 <= j < i ==> (#[trigger] monitors@[j]).hmonitor != hmonitor,
            None => forall|j: int|
                0 <= j < monitors@.len() ==> (#[trigger] monitors@[j]).hmonitor != hmonitor,
        },
{
    for i in 0..monitors.len()
        invariant
            forall|j: int| 0 <= j < i ==> (#[trigger] monitors@[j]).hmonitor != hmonitor,
    {
        if monitors[i].hmonitor == hmonitor {
            assert(monitors@[i as int].hmonitor == hmonitor);
            return Some(monitors[i]);
        }
    }
    None
}

pub fn rect_width(r: &Rect) -> (w: i32)
    requires
        i32::MIN <= r.width() <= i32::MAX,
    ensures
        w == r.width(),
{
    r.right - r.left
}

pub fn rect_height(r: &Rect) -> (h: i32)
    requires
        i32::MIN <= r.height() <= i32::MAX,
    ensures
        h == r.height(),
{
    r.bottom - r.top
}

/// Intersection of two rects (empty if disjoint).
pub fn intersect(a: &Rect, b: &Rect) -> (r: Rect)
    ensures
        r == intersection(*a, *b),
        forall|x: int, y: int| #[trigger]
            r.contains(x, y) == (a.contains(x, y) && b.contains(x, y)),
{
    Rect {
        left: if a.left >= b.left { a.left } else { b.left },
        top: if a.top >= b.top { a.top } else { b.top },
        right: if a.right <= b.right { a.right } else { b.right },
        bottom: if a.bottom <= b.bottom { a.bottom } else { b.bottom },
    }
}

/// The rectangle whose edges are the inner ones of two rectangles.
pub open spec fn intersection(a: Rect, b: Rect) -> Rect {
    Rect {
        left: if a.left >= b.left { a.left } else { b.left },
        top: if a.top >= b.top { a.top } else { b.top },
        right: if a.right <= b.right { a.right } else { b.right },
        bottom: if a.bottom <= b.bottom { a.bottom } else { b.bottom },
    }
}

pub fn is_empty(r: &Rect) -> (b: bool)
    ensures
        b == (forall|x: int, y: int| !#[trigger] r.contains(x, y)),
{
    let b = r.right <= r.left || r.bottom <= r.top;
    proof {
        if !b {
            assert(r.contains(r.left as int, r.top as int));
        }
    }
    b
}

/// A point is in the intersection of two rectangles exactly if it is in both;
/// each edge of it is an edge of one of them, whichever is named first.
pub proof fn law_intersection_is_what_both_cover(a: Rect, b: Rect, x: int, y: int)
    ensures
        intersection(a, b) == intersection(b, a),
        (intersection(a, b).left <= x < intersection(a, b).right && intersection(a, b).top <= y
            < intersection(a, b).bottom) == (a.left <= x < a.right && a.top <= y < a.bottom
            && b.left <= x < b.right && b.top <= y < b.bottom),
        intersection(a, a) == a,
        a.contains(x, y) == (a.left <= x && x < a.right && a.top <= y && y < a.bottom),
        a.width() + a.left == a.right,
        a.height() + a.top == a.bottom,
{
}

} // verus!

//! What the capture overlay shows: the dimmed desktop with the selection cut
//! out of it, and the labels on top.

use vstd::prelude::*;

use crate::canvas::{
    alpha, argb, blue, clip, clipped, green, in_frame, lemma_place_bound, place, red, stroke_rect,
    Canvas,
};
use crate::monitors::{MonitorInfo, Point, Rect};
use crate::overlay::{clamp, clamped, make_selection, spanned, OverlayMode, OverlayState};
use crate::text::{decimal, decimal_of, signed_decimal, signed_decimal_of};

verus! {

/// Black at the alpha that dims the desktop.
pub const DIM_COLOR: u32 = 0x6000_0000;

/// The border around a selection.
pub const BORDER_COLOR: u32 = 0xFF2F_7BF6;

/// The guides through the cursor: premultiplied white.
pub const GUIDE_COLOR: u32 = 0x8CFF_FFFF;

/// The inside of a remembered area. A layered window takes mouse input only on
/// pixels that are not fully transparent, and the area must stay clickable.
pub const BOX_TINT: u32 = 0x2800_0000;

pub const BORDER_T: usize = 2;

/// Half the side of a corner handle.
pub const HANDLE: i64 = 6;

/// The corner squares of a label that are left out.
pub const PILL_RADIUS: usize = 10;

/// The alpha of a label's background.
pub const PILL_ALPHA: u32 = 200;

/// A label: a dark rounded pill with white text, centred on `anchor_x`, with
/// its top at `y_pos` (virtual-screen coordinates).
pub struct PillText {
    pub anchor_x: i64,
    pub y_pos: i64,
    pub text: String,
    pub font_h: i32,
}

/// The bound on the positions of labels.
pub const PILL_RANGE: i64 = 0x2_0000_0000;

impl PillText {
    pub open spec fn wf(self) -> bool {
        &&& -PILL_RANGE <= self.anchor_x <= PILL_RANGE
        &&& -PILL_RANGE <= self.y_pos <= PILL_RANGE
        &&& 0 <= self.font_h <= 100
    }

    /// Position, text and text height.
    pub open spec fn shown(self) -> (int, int, Seq<char>, int) {
        (self.anchor_x as int, self.y_pos as int, self.text@, self.font_h as int)
    }
}

/// Half a number, rounded towards zero.
pub open spec fn half(n: int) -> int {
    if n >= 0 {
        n / 2
    } else {
        -((-n) / 2)
    }
}

pub fn half_of(n: i64) -> (r: i64)
    requires
        n > i64::MIN,
    ensures
        r == half(n as int),
{
    if n >= 0 {
        n / 2
    } else {
        -((-n) / 2)
    }
}

/// The rectangle that is on show: the counted-down or remembered area, or the
/// one being drawn.
pub open spec fn shown_rect(st: OverlayState) -> Option<Rect> {
    if st.counting || st.initial is Some && !(st.mode is Select) {
        Some(st.sel_rect)
    } else {
        match st.start {
            Some(s) => Some(spanned(s, st.cur)),
            None => None,
        }
    }
}

/// Whether the remembered area is on show.
pub open spec fn shows_area(st: OverlayState) -> bool {
    !st.counting && st.initial is Some && !(st.mode is Select)
}

fn area_shown(st: &OverlayState) -> (r: bool)
    ensures
        r == shows_area(*st),
{
    let selecting = match st.mode {
        OverlayMode::Select => true,
        _ => false,
    };
    !st.counting && st.initial.is_some() && !selecting
}

/// The rectangle whose size is read out next to it.
pub fn readout_rect(st: &OverlayState) -> (r: Option<Rect>)
    ensures
        r == (if st.counting {
            None
        } else {
            shown_rect(*st)
        }),
{
    if st.counting {
        None
    } else if area_shown(st) {
        Some(st.sel_rect)
    } else {
        match st.start {
            Some(s) => Some(make_selection(s, st.cur)),
            None => None,
        }
    }
}

/// The first monitor under the cursor, by whose scale sizes are read out.
pub fn cursor_monitor(cur: Point, monitors: &Vec<MonitorInfo>) -> (r: Option<MonitorInfo>)
    ensures
        match r {
            Some(m) => exists|i: int|
                #![trigger monitors@[i]]
                0 <= i < monitors@.len() && monitors@[i] == m && m.rect.contains(
                    cur.x as int,
                    cur.y as int,
                ) && forall|j: int|
                    0 <= j < i ==> !(#[trigger] monitors@[j]).rect.contains(
                        cur.x as int,
                        cur.y as int,
                    ),
            None => forall|j: int|
                0 <= j < monitors@.len() ==> !(#[trigger] monitors@[j]).rect.contains(
                    cur.x as int,
                    cur.y as int,
                ),
        },
{
    for i in 0..monitors.len()
        invariant
            forall|j: int|
                0 <= j < i ==> !(#[trigger] monitors@[j]).rect.contains(
                    cur.x as int,
                    cur.y as int,
                ),
    {
        let m = monitors[i];
        if crate::overlay::point_in_rect(&m.rect, cur) {
            assert(monitors@[i as int] == m);
            return Some(m);
        }
    }
    None
}

/// Whether a position of the picture shows a point of a rectangle.
pub open spec fn shows(r: Rect, virt: Rect, x: int, y: int) -> bool {
    r.contains(x + virt.left, y + virt.top) && virt.contains(x + virt.left, y + virt.top)
}

/// Whether a position is in the border around the part of a rectangle that is
/// on the picture.
pub open spec fn borders(r: Rect, virt: Rect, w: int, h: int, x: int, y: int) -> bool {
    in_frame(
        clipped(r.left - virt.left, w),
        clipped(r.top - virt.top, h),
        clipped(r.right - virt.left, w),
        clipped(r.bottom - virt.top, h),
        BORDER_T as int,
        x,
        y,
    )
}

/// Whether a position is in the handle at a corner.
pub open spec fn handles(cx: int, cy: int, virt: Rect, x: int, y: int) -> bool {
    &&& cx - virt.left - HANDLE <= x < cx - virt.left + HANDLE
    &&& cy - virt.top - HANDLE <= y < cy - virt.top + HANDLE
}

/// Whether a position is in one of the four corner handles of a rectangle.
pub open spec fn in_handle(r: Rect, virt: Rect, x: int, y: int) -> bool {
    ||| handles(r.left as int, r.top as int, virt, x, y)
    ||| handles(r.right as int, r.top as int, virt, x, y)
    ||| handles(r.left as int, r.bottom as int, virt, x, y)
    ||| handles(r.right as int, r.bottom as int, virt, x, y)
}

/// The colour of the overlay, without its labels, at a position.
pub open spec fn shade(st: OverlayState, virt: Rect, x: int, y: int) -> u32 {
    let w = st.width as int;
    let h = st.height as int;
    if st.counting {
        if borders(st.sel_rect, virt, w, h, x, y) {
            BORDER_COLOR
        } else {
            0
        }
    } else if shows_area(st) {
        if in_handle(st.sel_rect, virt, x, y) || borders(st.sel_rect, virt, w, h, x, y) {
            BORDER_COLOR
        } else if shows(st.sel_rect, virt, x, y) {
            BOX_TINT
        } else {
            DIM_COLOR
        }
    } else {
        match shown_rect(st) {
            None => DIM_COLOR,
            Some(r) => if x == st.cur.x - virt.left || y == st.cur.y - virt.top {
                GUIDE_COLOR
            } else if borders(r, virt, w, h, x, y) {
                BORDER_COLOR
            } else if shows(r, virt, x, y) {
                0
            } else {
                DIM_COLOR
            },
        }
    }
}

fn paint_border(canvas: &mut Canvas, r: &Rect, virt: &Rect)
    requires
        old(canvas).wf(),
    ensures
        final(canvas).same_size(*old(canvas)),
        forall|u: int, v: int|
            old(canvas).has(u, v) ==> #[trigger] final(canvas).at(u, v) == (if borders(
                *r,
                *virt,
                old(canvas).width as int,
                old(canvas).height as int,
                u,
                v,
            ) {
                BORDER_COLOR
            } else {
                old(canvas).at(u, v)
            }),
{
    let x0: usize = clip(r.left as i64 - virt.left as i64, canvas.width);
    let y0: usize = clip(r.top as i64 - virt.top as i64, canvas.height);
    let x1: usize = clip(r.right as i64 - virt.left as i64, canvas.width);
    let y1: usize = clip(r.bottom as i64 - virt.top as i64, canvas.height);
    stroke_rect(canvas, x0, y0, x1, y1, BORDER_COLOR, BORDER_T);
}

fn paint_rect(canvas: &mut Canvas, r: &Rect, virt: &Rect, color: u32)
    requires
        old(canvas).wf(),
    ensures
        final(canvas).same_size(*old(canvas)),
        forall|u: int, v: int|
            old(canvas).has(u, v) ==> #[trigger] final(canvas).at(u, v) == (if shows(
                *r,
                *virt,
                u,
                v,
            ) {
                color
            } else {
                old(canvas).at(u, v)
            }),
{
    let c = crate::monitors::intersect(r, virt);
    canvas.fill_rect(
        c.left as i64 - virt.left as i64,
        c.top as i64 - virt.top as i64,
        c.right as i64 - virt.left as i64,
        c.bottom as i64 - virt.top as i64,
        color,
    );
}

fn paint_handle(canvas: &mut Canvas, cx: i32, cy: i32, virt: &Rect)
    requires
        old(canvas).wf(),
    ensures
        final(canvas).same_size(*old(canvas)),
        forall|u: int, v: int|
            old(canvas).has(u, v) ==> #[trigger] final(canvas).at(u, v) == (if handles(
                cx as int,
                cy as int,
                *virt,
                u,
                v,
            ) {
                BORDER_COLOR
            } else {
                old(canvas).at(u, v)
            }),
{
    let x: i64 = cx as i64 - virt.left as i64;
    let y: i64 = cy as i64 - virt.top as i64;
    canvas.fill_rect(x - HANDLE, y - HANDLE, x + HANDLE, y + HANDLE, BORDER_COLOR);
}

/// Paints small filled squares at the four corners of a rectangle (resize
/// handles).
pub fn draw_handles(canvas: &mut Canvas, virt: &Rect, rect: &Rect)
    requires
        old(canvas).wf(),
    ensures
        final(canvas).same_size(*old(canvas)),
        forall|u: int, v: int|
            old(canvas).has(u, v) ==> #[trigger] final(canvas).at(u, v) == (if in_handle(
                *rect,
                *virt,
                u,
                v,
            ) {
                BORDER_COLOR
            } else {
                old(canvas).at(u, v)
            }),
{
    paint_handle(canvas, rect.left, rect.top, virt);
    paint_handle(canvas, rect.right, rect.top, virt);
    paint_handle(canvas, rect.left, rect.bottom, virt);
    paint_handle(canvas, rect.right, rect.bottom, virt);
}

/// Paints the overlay without its labels.
fn paint(st: &OverlayState, virt: &Rect) -> (canvas: Canvas)
    requires
        0 < st.width,
        0 < st.height,
        st.width * st.height <= usize::MAX,
    ensures
        canvas.wf(),
        canvas.width == st.width,
        canvas.height == st.height,
        forall|x: int, y: int|
            canvas.has(x, y) ==> #[trigger] canvas.at(x, y) == shade(*st, *virt, x, y),
{
    let w: usize = st.width as usize;
    let h: usize = st.height as usize;
    if st.counting {
        let mut canvas = Canvas::filled(w, h, 0);
        paint_border(&mut canvas, &st.sel_rect, virt);
        return canvas;
    }
    let mut canvas = Canvas::filled(w, h, DIM_COLOR);
    if area_shown(st) {
        paint_rect(&mut canvas, &st.sel_rect, virt, BOX_TINT);
        paint_border(&mut canvas, &st.sel_rect, virt);
        draw_handles(&mut canvas, virt, &st.sel_rect);
    } else if let Some(start) = st.start {
        let rect = make_selection(start, st.cur);
        paint_rect(&mut canvas, &rect, virt, 0);
        paint_border(&mut canvas, &rect, virt);
        let cx: i64 = st.cur.x as i64 - virt.left as i64;
        let cy: i64 = st.cur.y as i64 - virt.top as i64;
        canvas.fill_rect(cx, 0, cx + 1, st.height as i64, GUIDE_COLOR);
        canvas.fill_rect(0, cy, st.width as i64, cy + 1, GUIDE_COLOR);
    }
    canvas
}

/// "width × height".
pub open spec fn size_text(logical: (i64, i64)) -> Seq<char> {
    signed_decimal(logical.0 as int) + " × "@ + signed_decimal(logical.1 as int)
}

fn size_label(logical: (i64, i64)) -> (s: String)
    ensures
        s@ == size_text(logical),
{
    let mut s = signed_decimal_of(logical.0);
    s.append(" × ");
    s.append(signed_decimal_of(logical.1).as_str());
    s
}

/// The top of the label next to a rectangle: below it when it is near the top
/// of the screen, else above it.
pub open spec fn beside(r: Rect, virt: Rect) -> int {
    if r.top - virt.top < 60 {
        r.bottom + 10
    } else {
        r.top - 40
    }
}

fn beside_of(r: &Rect, virt: &Rect) -> (y: i64)
    ensures
        y == beside(*r, *virt),
{
    if r.top as i64 - (virt.top as i64) < 60 {
        r.bottom as i64 + 10
    } else {
        r.top as i64 - 40
    }
}

/// What Ctrl does, told while it is held during a drag.
pub open spec fn ctrl_cue(editor_enabled: bool) -> Seq<char> {
    if editor_enabled {
        "   •   Ctrl: skip editor"@
    } else {
        "   •   Ctrl: annotate"@
    }
}

/// What the overlay says before the first press.
pub open spec fn hint_text(editor_enabled: bool, delay_secs: u32) -> Seq<char> {
    "Drag to select   •   Esc to cancel"@ + ctrl_cue(editor_enabled) + (if delay_secs > 0 {
        "   •   Shift: "@ + decimal(delay_secs as nat) + "s delay"@
    } else {
        Seq::empty()
    })
}

fn ctrl_label(editor_enabled: bool) -> (s: &'static str)
    ensures
        s@ == ctrl_cue(editor_enabled),
{
    if editor_enabled {
        "   •   Ctrl: skip editor"
    } else {
        "   •   Ctrl: annotate"
    }
}

fn hint_label(editor_enabled: bool, delay_secs: u32) -> (s: String)
    ensures
        s@ == hint_text(editor_enabled, delay_secs),
{
    let mut s = "Drag to select   •   Esc to cancel".to_owned();
    s.append(ctrl_label(editor_enabled));
    if delay_secs > 0 {
        s.append("   •   Shift: ");
        s.append(decimal_of(delay_secs as u64).as_str());
        s.append("s delay");
    }
    assert(s@ =~= hint_text(editor_enabled, delay_secs));
    s
}

pub open spec fn countdown_text(countdown: int) -> Seq<char> {
    decimal(
        if countdown >= 0 {
            countdown as nat
        } else {
            0
        },
    ) + "  •  Esc to cancel"@
}

fn countdown_label(countdown: i64) -> (s: String)
    ensures
        s@ == countdown_text(countdown as int),
{
    let left: u64 = if countdown >= 0 {
        countdown as u64
    } else {
        0
    };
    let mut s = decimal_of(left);
    s.append("  •  Esc to cancel");
    s
}

/// The labels of the overlay. `logical` is the size that is read out, in
/// logical pixels.
pub open spec fn labels(
    st: OverlayState,
    virt: Rect,
    logical: (i64, i64),
    ctrl_down: bool,
) -> Seq<(int, int, Seq<char>, int)> {
    let r = st.sel_rect;
    let mid = virt.left + half(st.width as int);
    let top = virt.top + 28;
    if st.counting {
        seq![
            (
                half(r.left + r.right),
                half(r.top + r.bottom) - 24,
                countdown_text(st.countdown as int),
                44int,
            ),
            (mid, top, "Capturing selection…"@, 15int),
        ]
    } else if shows_area(st) {
        seq![
            (r.left + half(r.width()), beside(r, virt), size_text(logical), 15int),
            (
                mid,
                top,
                "Click to capture • drag inside = move • drag edge = resize • drag elsewhere = new selection • Esc cancels"@,
                14int,
            ),
        ]
    } else {
        match shown_rect(st) {
            Some(d) => seq![
                (
                    st.cur.x as int,
                    beside(d, virt),
                    size_text(logical) + (if ctrl_down {
                        ctrl_cue(st.editor_enabled)
                    } else {
                        Seq::empty()
                    }),
                    15int,
                ),
            ],
            None => seq![(mid, top, hint_text(st.editor_enabled, st.delayed_secs), 15int)],
        }
    }
}

pub open spec fn all_shown(pills: Seq<PillText>) -> Seq<(int, int, Seq<char>, int)> {
    pills.map_values(|p: PillText| p.shown())
}

fn label_list(st: &OverlayState, virt: &Rect, logical: (i64, i64), ctrl_down: bool) -> (pills: Vec<
    PillText,
>)
    requires
        0 < st.width,
    ensures
        all_shown(pills@) == labels(*st, *virt, logical, ctrl_down),
        forall|i: int| 0 <= i < pills@.len() ==> (#[trigger] pills@[i]).wf(),
{
    let mut pills: Vec<PillText> = Vec::new();
    let r = st.sel_rect;
    let mid: i64 = virt.left as i64 + half_of(st.width as i64);
    let top: i64 = virt.top as i64 + 28;
    if st.counting {
        pills.push(
            PillText {
                anchor_x: half_of(r.left as i64 + r.right as i64),
                y_pos: half_of(r.top as i64 + r.bottom as i64) - 24,
                text: countdown_label(st.countdown),
                font_h: 44,
            },
        );
        pills.push(
            PillText {
                anchor_x: mid,
                y_pos: top,
                text: "Capturing selection…".to_owned(),
                font_h: 15,
            },
        );
    } else if area_shown(st) {
        pills.push(
            PillText {
                anchor_x: r.left as i64 + half_of(r.right as i64 - r.left as i64),
                y_pos: beside_of(&r, virt),
                text: size_label(logical),
                font_h: 15,
            },
        );
        pills.push(
            PillText {
                anchor_x: mid,
                y_pos: top,
                text:
                    "Click to capture • drag inside = move • drag edge = resize • drag elsewhere = new selection • Esc cancels".to_owned(),
                font_h: 14,
            },
        );
    } else if let Some(start) = st.start {
        let rect = make_selection(start, st.cur);
        let mut text = size_label(logical);
        if ctrl_down {
            text.append(ctrl_label(st.editor_enabled));
        }
        assert(text@ =~= size_text(logical) + (if ctrl_down {
            ctrl_cue(st.editor_enabled)
        } else {
            Seq::empty()
        }));
        pills.push(
            PillText {
                anchor_x: st.cur.x as i64,
                y_pos: beside_of(&rect, virt),
                text,
                font_h: 15,
            },
        );
    } else {
        pills.push(
            PillText {
                anchor_x: mid,
                y_pos: top,
                text: hint_label(st.editor_enabled, st.delayed_secs),
                font_h: 15,
            },
        );
    }
    assert(all_shown(pills@) =~= labels(*st, *virt, logical, ctrl_down));
    pills
}

/// Draws the overlay: the picture, and the labels that go on top of it. An
/// overlay without a size has no picture.
pub fn redraw(st: &OverlayState, virt: &Rect, logical: (i64, i64), ctrl_down: bool) -> (r: Option<
    (Canvas, Vec<PillText>),
>)
    requires
        st.width * st.height <= usize::MAX,
    ensures
        r is Some == (st.width > 0 && st.height > 0),
        r matches Some((canvas, pills)) ==> {
            &&& canvas.wf()
            &&& canvas.width == st.width
            &&& canvas.height == st.height
            &&& forall|x: int, y: int|
                canvas.has(x, y) ==> #[trigger] canvas.at(x, y) == shade(*st, *virt, x, y)
            &&& all_shown(pills@) == labels(*st, *virt, logical, ctrl_down)
            &&& forall|i: int| 0 <= i < pills@.len() ==> (#[trigger] pills@[i]).wf()
        },
{
    if st.width <= 0 || st.height <= 0 {
        return None;
    }
    Some((paint(st, virt), label_list(st, virt, logical, ctrl_down)))
}

/// The size of a label around a text of the given width.
pub fn pill_size(text_width: i32, font_h: i32) -> (r: (usize, usize))
    requires
        0 <= text_width,
        0 <= font_h,
    ensures
        r.0 == (if text_width + 28 >= 48 {
            text_width + 28
        } else {
            48
        }),
        r.1 == (if font_h + 12 >= 24 {
            font_h + 12
        } else {
            24
        }),
{
    let tw: usize = text_width as usize + 28;
    let th: usize = font_h as usize + 12;
    (
        if tw >= 48 {
            tw
        } else {
            48
        },
        if th >= 24 {
            th
        } else {
            24
        },
    )
}

/// Whether a position of a label is in one of its corner squares.
pub open spec fn in_corner(dx: int, dy: int, tw: int, th: int) -> bool {
    (dx < PILL_RADIUS || dx >= tw - PILL_RADIUS) && (dy < PILL_RADIUS || dy >= th - PILL_RADIUS)
}

/// The brightest channel of a colour.
pub open spec fn brightness(c: u32) -> int {
    let m = if red(c) >= green(c) {
        red(c)
    } else {
        green(c)
    };
    if m >= blue(c) {
        m
    } else {
        blue(c)
    }
}

/// A channel of what lies below, seen through a cover of the given alpha.
pub open spec fn through(d: int, a: int) -> int {
    d * (255 - a) / 255
}

/// The colour of a label's pixel: white text by its brightness, else the dark
/// background, over what lies below.
pub open spec fn blended(d: u32, t: u32) -> int {
    let l = brightness(t);
    if l > 0 {
        argb(
            l + through(alpha(d), l),
            l + through(red(d), l),
            l + through(green(d), l),
            l + through(blue(d), l),
        )
    } else {
        let a = PILL_ALPHA as int;
        argb(
            a + through(alpha(d), a),
            through(red(d), a),
            through(green(d), a),
            through(blue(d), a),
        )
    }
}

proof fn lemma_through(d: int, a: int)
    requires
        0 <= d <= 255,
        0 <= a <= 255,
    ensures
        0 <= through(d, a) <= 255 - a,
        0 <= d * (255 - a) <= 65025,
{
    assert(0 <= d * (255 - a) <= 255 * (255 - a)) by (nonlinear_arith)
        requires
            0 <= d <= 255,
            0 <= a <= 255,
    ;
}

fn see_through(d: u32, a: u32) -> (r: u32)
    requires
        d <= 255,
        a <= 255,
    ensures
        r == through(d as int, a as int),
        r <= 255 - a,
{
    proof {
        lemma_through(d as int, a as int);
    }
    d * (255 - a) / 255
}

fn blend(d: u32, t: u32) -> (r: u32)
    ensures
        r == blended(d, t),
{
    let tr: u32 = t / 0x1_0000 % 256;
    let tg: u32 = t / 0x100 % 256;
    let tb: u32 = t % 256;
    let m: u32 = if tr >= tg {
        tr
    } else {
        tg
    };
    let l: u32 = if m >= tb {
        m
    } else {
        tb
    };
    let da: u32 = d / 0x100_0000;
    let dr: u32 = d / 0x1_0000 % 256;
    let dg: u32 = d / 0x100 % 256;
    let db: u32 = d % 256;
    let cover: u32 = if l > 0 {
        l
    } else {
        PILL_ALPHA
    };
    let base: u32 = if l > 0 {
        l
    } else {
        0
    };
    let oa: u32 = cover + see_through(da, cover);
    let or: u32 = base + see_through(dr, cover);
    let og: u32 = base + see_through(dg, cover);
    let ob: u32 = base + see_through(db, cover);
    oa * 0x100_0000 + or * 0x1_0000 + og * 0x100 + ob
}

/// The left edge of a label on a picture of width `w`.
pub open spec fn pill_left(anchor_x: int, virt: Rect, tw: int, w: int) -> int {
    clamped(anchor_x - virt.left - tw / 2, 0, w - tw)
}

/// The top edge of a label on a picture of height `h`.
pub open spec fn pill_top(y_pos: int, virt: Rect, th: int, h: int) -> int {
    clamped(y_pos - virt.top, 0, h - th - 2)
}

/// Blends a label into the picture. `px` is the text, drawn in white on black
/// in a picture of `tw` by `th` pixels.
pub fn draw_pill_text(
    canvas: &mut Canvas,
    virt: &Rect,
    pill: &PillText,
    px: &Vec<u32>,
    tw: usize,
    th: usize,
)
    requires
        old(canvas).wf(),
        old(canvas).width <= i32::MAX,
        old(canvas).height <= i32::MAX,
        pill.wf(),
        px@.len() == tw * th,
        PILL_RADIUS <= tw <= old(canvas).width,
        PILL_RADIUS <= th <= old(canvas).height - 2,
    ensures
        final(canvas).same_size(*old(canvas)),
        ({
            let x0 = pill_left(pill.anchor_x as int, *virt, tw as int, old(canvas).width as int);
            let y0 = pill_top(pill.y_pos as int, *virt, th as int, old(canvas).height as int);
            forall|u: int, v: int|
                old(canvas).has(u, v) ==> #[trigger] final(canvas).at(u, v) == (if x0 <= u < x0
                    + tw && y0 <= v < y0 + th && !in_corner(
                    u - x0,
                    v - y0,
                    tw as int,
                    th as int,
                ) {
                    blended(old(canvas).at(u, v), px@[place(tw as int, u - x0, v - y0)])
                } else {
                    old(canvas).at(u, v) as int
                })
        }),
{
    let w: usize = canvas.width;
    let h: usize = canvas.height;
    let x0: usize = clamp(
        pill.anchor_x - virt.left as i64 - (tw / 2) as i64,
        0,
        w as i64 - tw as i64,
    ) as usize;
    let y0: usize = clamp(pill.y_pos - virt.top as i64, 0, h as i64 - th as i64 - 2) as usize;
    let n: usize = px.len();
    let mut dy: usize = 0;
    while dy < th
        invariant
            canvas.same_size(*old(canvas)),
            w == canvas.width,
            h == canvas.height,
            PILL_RADIUS <= tw,
            PILL_RADIUS <= th,
            x0 + tw <= w,
            y0 + th <= h,
            n == px@.len(),
            n == tw * th,
            dy <= th,
            forall|u: int, v: int|
                canvas.has(u, v) ==> #[trigger] canvas.at(u, v) == (if x0 <= u < x0 + tw && y0 <= v
                    < y0 + dy && !in_corner(u - x0, v - y0, tw as int, th as int) {
                    blended(old(canvas).at(u, v), px@[place(tw as int, u - x0, v - y0)])
                } else {
                    old(canvas).at(u, v) as int
                }),
        decreases th - dy,
    {
        let mut dx: usize = 0;
        while dx < tw
            invariant
                canvas.same_size(*old(canvas)),
                w == canvas.width,
                h == canvas.height,
                PILL_RADIUS <= tw,
                PILL_RADIUS <= th,
                x0 + tw <= w,
                y0 + th <= h,
                n == px@.len(),
                n == tw * th,
                dy < th,
                dx <= tw,
                forall|u: int, v: int|
                    canvas.has(u, v) ==> #[trigger] canvas.at(u, v) == (if x0 <= u < x0 + tw && y0
                        <= v && (v < y0 + dy || v == y0 + dy && u < x0 + dx) && !in_corner(
                        u - x0,
                        v - y0,
                        tw as int,
                        th as int,
                    ) {
                        blended(old(canvas).at(u, v), px@[place(tw as int, u - x0, v - y0)])
                    } else {
                        old(canvas).at(u, v) as int
                    }),
            decreases tw - dx,
        {
            let corner = (dx < PILL_RADIUS || dx >= tw - PILL_RADIUS) && (dy < PILL_RADIUS || dy
                >= th - PILL_RADIUS);
            if !corner {
                proof {
                    lemma_place_bound(tw as int, th as int, dx as int, dy as int);
                }
                assert(dy * tw + dx < n);
                let t: u32 = px[dy * tw + dx];
                assert(t == px@[place(tw as int, x0 + dx - x0, y0 + dy - y0)]);
                let d: u32 = canvas.get(x0 + dx, y0 + dy);
                canvas.put(x0 + dx, y0 + dy, blend(d, t));
            }
            dx = dx + 1;
        }
        dy = dy + 1;
    }
}

/// No pixel of a remembered area on show is fully transparent: the area stays
/// clickable.
pub proof fn law_remembered_area_is_clickable(st: OverlayState, virt: Rect, x: int, y: int)
    requires
        shows_area(st),
    ensures
        alpha(shade(st, virt, x, y)) > 0,
{
}

/// During a countdown nothing covers the desktop but the border and the labels.
pub proof fn law_countdown_is_see_through(st: OverlayState, virt: Rect, x: int, y: int)
    requires
        st.counting,
        !borders(st.sel_rect, virt, st.width as int, st.height as int, x, y),
    ensures
        shade(st, virt, x, y) == 0,
{
}

/// A label never reaches beyond the picture it fits on.
pub proof fn law_labels_stay_on_the_picture(
    anchor_x: int,
    y_pos: int,
    virt: Rect,
    tw: int,
    th: int,
    w: int,
    h: int,
)
    requires
        0 <= tw <= w,
        0 <= th <= h - 2,
    ensures
        0 <= pill_left(anchor_x, virt, tw, w),
        pill_left(anchor_x, virt, tw, w) + tw <= w,
        0 <= pill_top(y_pos, virt, th, h),
        pill_top(y_pos, virt, th, h) + th <= h - 2,
{
}

/// While a selection is drawn, what lies in it is shown as it is, between the
/// press and the cursor whichever way the drag goes; what lies well outside is
/// dimmed; the guides go through the cursor.
pub proof fn law_the_selection_is_cut_out(st: OverlayState, s: Point, virt: Rect, x: int, y: int)
    requires
        !st.counting,
        st.initial is None,
        st.start == Some(s),
        0 <= x < st.width,
        0 <= y < st.height,
        st.width == virt.right - virt.left,
        st.height == virt.bottom - virt.top,
    ensures
        ({
            let u = x + virt.left;
            let v = y + virt.top;
            &&& u == st.cur.x || v == st.cur.y ==> shade(st, virt, x, y) == GUIDE_COLOR
            &&& u != st.cur.x && v != st.cur.y && (s.x <= u < st.cur.x || st.cur.x <= u < s.x) && (
            s.y <= v < st.cur.y || st.cur.y <= v < s.y) ==> shade(st, virt, x, y) == 0
            &&& u != st.cur.x && v != st.cur.y && ((u < s.x - 2 && u < st.cur.x - 2) || (u >= s.x + 2
                && u >= st.cur.x + 2) || (v < s.y - 2 && v < st.cur.y - 2) || (v >= s.y + 2 && v
                >= st.cur.y + 2)) ==> shade(st, virt, x, y) == DIM_COLOR
        }),
{
}

/// The border of a drawn selection runs right outside of it.
pub proof fn law_the_selection_has_a_border(st: OverlayState, s: Point, virt: Rect, x: int, y: int)
    requires
        !st.counting,
        st.initial is None,
        st.start == Some(s),
        0 <= x < st.width,
        0 <= y < st.height,
        st.width == virt.right - virt.left,
        st.height == virt.bottom - virt.top,
        x + virt.left != st.cur.x,
        y + virt.top != st.cur.y,
        virt.left <= s.x < virt.right,
        virt.top <= s.y < virt.bottom,
        virt.left <= st.cur.x < virt.right,
        virt.top <= st.cur.y < virt.bottom,
        s.x != st.cur.x,
        s.y != st.cur.y,
    ensures
        ({
            let u = x + virt.left;
            let v = y + virt.top;
            let beside_x = s.x <= u < st.cur.x || st.cur.x <= u < s.x;
            let beside_y = s.y <= v < st.cur.y || st.cur.y <= v < s.y;
            &&& beside_y && (u == s.x - 1 || u == st.cur.x - 1) && u < s.x && u < st.cur.x
                ==> shade(st, virt, x, y) == BORDER_COLOR
            &&& beside_y && u >= s.x && u >= st.cur.x && (u == s.x || u == st.cur.x) ==> shade(
                st,
                virt,
                x,
                y,
            ) == BORDER_COLOR
            &&& beside_x && (v == s.y - 1 || v == st.cur.y - 1) && v < s.y && v < st.cur.y
                ==> shade(st, virt, x, y) == BORDER_COLOR
            &&& beside_x && v >= s.y && v >= st.cur.y && (v == s.y || v == st.cur.y) ==> shade(
                st,
                virt,
                x,
                y,
            ) == BORDER_COLOR
        }),
{
}

/// A remembered area is tinted inside and dimmed around, with a handle at each
/// of its corners; before the first press everything is dimmed.
pub proof fn law_the_area_is_tinted(st: OverlayState, virt: Rect, x: int, y: int)
    requires
        !st.counting,
        !(st.mode is Select),
        0 <= x < st.width,
        0 <= y < st.height,
        st.width == virt.right - virt.left,
        st.height == virt.bottom - virt.top,
        st.sel_rect.left <= st.sel_rect.right,
        st.sel_rect.top <= st.sel_rect.bottom,
    ensures
        ({
            let r = st.sel_rect;
            let u = x + virt.left;
            let v = y + virt.top;
            &&& st.initial is None && st.start is None ==> shade(st, virt, x, y) == DIM_COLOR
            &&& st.initial is Some && r.left + HANDLE <= u < r.right - HANDLE && r.top <= v
                < r.bottom ==> shade(st, virt, x, y) == BOX_TINT
            &&& st.initial is Some && (u < r.left - HANDLE || u >= r.right + HANDLE || v < r.top
                - HANDLE || v >= r.bottom + HANDLE) ==> shade(st, virt, x, y) == DIM_COLOR
            &&& st.initial is Some && ((r.left - HANDLE <= u < r.left + HANDLE) || (r.right - HANDLE
                <= u < r.right + HANDLE)) && ((r.top - HANDLE <= v < r.top + HANDLE) || (r.bottom
                - HANDLE <= v < r.bottom + HANDLE)) ==> shade(st, virt, x, y) == BORDER_COLOR
        }),
{
}

/// The countdown shows a border around the area that it will capture, and lets
/// everything else through.
pub proof fn law_the_countdown_has_a_border(st: OverlayState, virt: Rect, x: int, y: int)
    requires
        st.counting,
        0 <= x < st.width,
        0 <= y < st.height,
        st.width == virt.right - virt.left,
        st.height == virt.bottom - virt.top,
        virt.left <= st.sel_rect.left < st.sel_rect.right <= virt.right,
        virt.top <= st.sel_rect.top < st.sel_rect.bottom <= virt.bottom,
    ensures
        ({
            let r = st.sel_rect;
            let u = x + virt.left;
            let v = y + virt.top;
            &&& r.left <= u < r.right && r.top <= v < r.bottom ==> shade(st, virt, x, y) == 0
            &&& (u == r.left - 1 || u == r.right) && r.top <= v < r.bottom ==> shade(
                st,
                virt,
                x,
                y,
            ) == BORDER_COLOR
            &&& (v == r.top - 1 || v == r.bottom) && r.left <= u < r.right ==> shade(
                st,
                virt,
                x,
                y,
            ) == BORDER_COLOR
            &&& u < r.left - 2 || u >= r.right + 2 || v < r.top - 2 || v >= r.bottom + 2 ==> shade(
                st,
                virt,
                x,
                y,
            ) == 0
        }),
{
}

/// Half of a number doubles to it or to its neighbour towards zero, on either
/// side of zero alike.
pub proof fn law_halves(n: int)
    ensures
        n >= 0 ==> n - 1 <= 2 * half(n) <= n,
        n <= 0 ==> n <= 2 * half(n) <= n + 1,
        half(-n) == -half(n),
{
}

/// The label next to a rectangle stands below it, or as far above it as the
/// label is high and more; above only where there is room.
pub proof fn law_labels_stand_beside(r: Rect, virt: Rect)
    ensures
        beside(r, virt) > r.bottom || beside(r, virt) + 40 <= r.top,
        beside(r, virt) + 40 <= r.top ==> beside(r, virt) >= virt.top + 20 || beside(r, virt)
            > r.bottom,
        r.top - virt.top >= 60 ==> beside(r, virt) + 40 == r.top,
        r.top - virt.top < 60 ==> beside(r, virt) - 10 == r.bottom,
{
}

/// The sizes that are read out are width and height, in this order.
pub proof fn law_sizes_are_read_out(logical: (i64, i64))
    ensures
        crate::text::begins_with(size_text(logical), signed_decimal(logical.0 as int)),
        crate::text::finishes_with(size_text(logical), signed_decimal(logical.1 as int)),
        size_text(logical).len() == signed_decimal(logical.0 as int).len() + " × "@.len()
            + signed_decimal(logical.1 as int).len(),
{
    let a = signed_decimal(logical.0 as int);
    let c = signed_decimal(logical.1 as int);
    let s = size_text(logical);
    assert(s.take(a.len() as int) =~= a);
    assert(s.skip(s.len() - c.len()) =~= c);
}

/// What the overlay says: the countdown its seconds, over the middle of the
/// area; a selection or an area its size; and before the first press how to go
/// on, in the middle of the screen.
pub proof fn law_the_overlay_says_what_it_does(
    st: OverlayState,
    virt: Rect,
    logical: (i64, i64),
    ctrl_down: bool,
)
    requires
        st.width == virt.right - virt.left,
        st.width > 0,
    ensures
        ({
            let l = labels(st, virt, logical, ctrl_down);
            let r = st.sel_rect;
            &&& st.counting && st.countdown >= 0 ==> {
                &&& crate::text::begins_with(l[0].2, decimal(st.countdown as nat))
                &&& -1 <= 2 * l[0].0 - (r.left + r.right) <= 1
            }
            &&& !st.counting && st.initial is Some && !(st.mode is Select) ==> {
                &&& l[0].2 == size_text(logical)
                &&& -1 <= 2 * l[0].0 - (r.left + r.right) <= 1
            }
            &&& !st.counting && st.initial is None && st.start is Some ==> {
                &&& l.len() == 1
                &&& l[0].0 == st.cur.x
                &&& !ctrl_down ==> l[0].2 == size_text(logical)
                &&& crate::text::begins_with(l[0].2, size_text(logical))
            }
            &&& !st.counting && st.initial is None && st.start is None ==> {
                &&& l.len() == 1
                &&& -1 <= 2 * l[0].0 - (virt.left + virt.right) <= 1
                &&& st.delayed_secs > 0 ==> crate::text::contains(
                    l[0].2,
                    "Shift: "@ + decimal(st.delayed_secs as nat) + "s"@,
                )
            }
        }),
{
    let l = labels(st, virt, logical, ctrl_down);
    if st.counting && st.countdown >= 0 {
        let d = decimal(st.countdown as nat);
        assert(l[0].2 == d + "  •  Esc to cancel"@);
        assert(l[0].2.take(d.len() as int) =~= d);
    }
    if !st.counting && st.initial is None && st.start is Some {
        let t = size_text(logical);
        assert(l[0].2.take(t.len() as int) =~= t);
        assert(t + Seq::<char>::empty() =~= t);
    }
    if !st.counting && st.initial is None && st.start is None && st.delayed_secs > 0 {
        reveal_strlit("   •   Shift: ");
        reveal_strlit("Shift: ");
        reveal_strlit("s delay");
        reveal_strlit("s");
        let head = "Drag to select   •   Esc to cancel"@ + ctrl_cue(st.editor_enabled);
        let d = decimal(st.delayed_secs as nat);
        let tail = "   •   Shift: "@ + d + "s delay"@;
        let t = "Shift: "@ + d + "s"@;
        let at = head.len() as int + 7;
        assert(l[0].2 == head + tail);
        let u = l[0].2;
        assert(u.subrange(at, at + t.len()) =~= t) by {
            assert forall|i: int| 0 <= i < t.len() implies u[at + i] == t[i] by {
                assert(u[at + i] == tail[7 + i]);
                if 7 <= i < 7 + d.len() {
                    assert(t[i] == d[i - 7]);
                    assert(tail[7 + i] == d[i - 7]);
                }
            }
        }
        assert(crate::text::stands_at(u, t, at));
    }
}

/// A cover that is not there lets everything through, a full one nothing, and a
/// stronger one never more than a weaker one.
pub proof fn law_covers(d: int, a: int, b: int)
    requires
        0 <= d <= 255,
        0 <= a <= b <= 255,
    ensures
        through(d, 0) == d,
        through(d, 255) == 0,
        0 <= through(d, b) <= through(d, a) <= d,
{
    lemma_through(d, a);
    lemma_through(d, b);
    assert(0 <= d * (255 - b) <= d * (255 - a) <= d * 255) by (nonlinear_arith)
        requires
            0 <= d,
            0 <= a <= b <= 255,
    ;
}

/// White text is white and opaque whatever is below; where there is no text a
/// label is dark: it adds nothing to a colour and makes it more opaque.
pub proof fn law_labels_are_white_on_dark(d: u32, t: u32)
    ensures
        t % 0x100_0000 == 0xFF_FFFF ==> blended(d, t) == 0xFFFF_FFFF,
        t % 0x100_0000 == 0 ==> {
            &&& blended(d, t) / 0x100_0000 >= PILL_ALPHA
            &&& blended(d, t) / 0x1_0000 % 256 <= d as int / 0x1_0000 % 256
            &&& blended(d, t) / 0x100 % 256 <= d as int / 0x100 % 256
            &&& blended(d, t) % 256 <= d as int % 256
        },
        0 <= blended(d, t) <= u32::MAX,
{
    lemma_channels(d);
    lemma_channels(t);
    let l = brightness(t);
    let a = if l > 0 {
        l
    } else {
        PILL_ALPHA as int
    };
    let base = if l > 0 {
        l
    } else {
        0
    };
    lemma_through(alpha(d), a);
    lemma_through(red(d), a);
    lemma_through(green(d), a);
    lemma_through(blue(d), a);
    law_covers(red(d), 0, a);
    law_covers(green(d), 0, a);
    law_covers(blue(d), 0, a);
    crate::canvas::lemma_argb(
        a + through(alpha(d), a),
        base + through(red(d), a),
        base + through(green(d), a),
        base + through(blue(d), a),
    );
    if t % 0x100_0000 == 0 {
        assert(red(t) == 0 && green(t) == 0 && blue(t) == 0);
    }
    if t % 0x100_0000 == 0xFF_FFFF {
        assert(red(t) == 255);
        assert(l == 255);
        law_covers(alpha(d), 0, 255);
        law_covers(red(d), 0, 255);
        law_covers(green(d), 0, 255);
        law_covers(blue(d), 0, 255);
    }
}

proof fn lemma_channels(c: u32)
    ensures
        0 <= alpha(c) < 256,
        0 <= red(c) < 256,
        0 <= green(c) < 256,
        0 <= blue(c) < 256,
{
}

/// A label is centred on its anchor and has its top where it was asked for, as
/// long as that leaves it on the picture.
pub proof fn law_labels_are_centred(
    anchor_x: int,
    y_pos: int,
    virt: Rect,
    tw: int,
    th: int,
    w: int,
    h: int,
)
    requires
        0 <= tw <= w,
        0 <= th <= h - 2,
    ensures
        ({
            let x = pill_left(anchor_x, virt, tw, w);
            let y = pill_top(y_pos, virt, th, h);
            &&& tw + 1 <= 2 * (anchor_x - virt.left) <= 2 * w - tw - 1 ==> 0 <= 2 * x + tw - 2 * (
            anchor_x - virt.left) + 1 <= 2
            &&& virt.top <= y_pos && y_pos + th + 2 <= virt.top + h ==> y + virt.top == y_pos
            &&& y_pos < virt.top ==> y == 0
        }),
{
}

/// The rectangle on show is the counted-down or remembered area, or else the box
/// between the press and the cursor; before the first press there is none.
pub proof fn law_what_is_on_show(st: OverlayState)
    ensures
        st.counting ==> shown_rect(st) == Some(st.sel_rect),
        st.initial is Some && !(st.mode is Select) ==> shown_rect(st) == Some(st.sel_rect),
        !st.counting && st.initial is None && st.start is None ==> shown_rect(st) is None,
        !st.counting && st.initial is None ==> (st.start matches Some(s) ==> {
            let r = shown_rect(st)->0;
            &&& shown_rect(st) is Some
            &&& r.left <= r.right && r.left + r.right == s.x + st.cur.x && (r.left == s.x || r.right
                == s.x)
            &&& r.top <= r.bottom && r.top + r.bottom == s.y + st.cur.y && (r.top == s.y || r.bottom
                == s.y)
        }),
{
}

/// The corners of a label are left out, a square of the radius each; the rest of
/// it is drawn.
pub proof fn law_labels_have_round_corners(dx: int, dy: int, tw: int, th: int)
    requires
        0 <= dx < tw,
        0 <= dy < th,
    ensures
        PILL_RADIUS <= dx < tw - PILL_RADIUS ==> !in_corner(dx, dy, tw, th),
        PILL_RADIUS <= dy < th - PILL_RADIUS ==> !in_corner(dx, dy, tw, th),
        dx < PILL_RADIUS && dy < PILL_RADIUS ==> in_corner(dx, dy, tw, th),
        in_corner(dx, dy, tw, th) == in_corner(tw - 1 - dx, dy, tw, th),
        in_corner(dx, dy, tw, th) == in_corner(dx, th - 1 - dy, tw, th),
{
}

/// Text is laid over what is below by its brightness, its strongest channel: it
/// adds that much white and lets the rest through.
pub proof fn law_text_is_laid_over(d: u32, t: u32)
    ensures
        brightness(t) >= t as int / 0x1_0000 % 256,
        brightness(t) >= t as int / 0x100 % 256,
        brightness(t) >= t as int % 256,
        brightness(t) == t as int / 0x1_0000 % 256 || brightness(t) == t as int / 0x100 % 256
            || brightness(t) == t as int % 256,
        ({
            let l = brightness(t);
            let o = blended(d, t);
            l > 0 ==> {
                &&& o / 0x100_0000 == l + (d as int / 0x100_0000) * (255 - l) / 255
                &&& o / 0x1_0000 % 256 == l + (d as int / 0x1_0000 % 256) * (255 - l) / 255
                &&& o / 0x100 % 256 == l + (d as int / 0x100 % 256) * (255 - l) / 255
                &&& o % 256 == l + (d as int % 256) * (255 - l) / 255
            }
        }),
{
    lemma_channels(d);
    lemma_channels(t);
    let l = brightness(t);
    lemma_through(alpha(d), l);
    lemma_through(red(d), l);
    lemma_through(green(d), l);
    lemma_through(blue(d), l);
    crate::canvas::lemma_argb(
        l + through(alpha(d), l),
        l + through(red(d), l),
        l + through(green(d), l),
        l + through(blue(d), l),
    );
}

} // verus!

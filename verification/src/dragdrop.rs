//! Native file drag-and-drop: when a press becomes a drag, what the drag
//! offers to other applications, and what came of it.

use vstd::prelude::*;

use crate::canvas::argb;
use crate::capture::{get_px, px, Pixel};
use crate::clipboard::CF_HDROP;
use crate::encoding::{fit_rgba, fittable, fitted_picture};
use crate::filename::{fit_size, preview_size};
use crate::monitors::Point;
use crate::text::{utf16, utf16_of};

verus! {

pub const S_OK: u32 = 0;

pub const S_FALSE: u32 = 1;

pub const DRAGDROP_S_DROP: u32 = 0x0004_0100;

pub const DRAGDROP_S_CANCEL: u32 = 0x0004_0101;

pub const DRAGDROP_S_USEDEFAULTCURSORS: u32 = 0x0004_0102;

pub const DV_E_FORMATETC: u32 = 0x8004_0064;

pub const OLE_E_ADVISENOTSUPPORTED: u32 = 0x8004_0003;

pub const E_UNEXPECTED: u32 = 0x8000_FFFF;

/// A global memory block: the bit by which data is asked for in one.
pub const TYMED_HGLOBAL: u32 = 1;

pub const DVASPECT_CONTENT: u32 = 1;

pub const DATADIR_GET: u32 = 1;

/// Pixels of movement, squared, that make a drag.
pub const DRAG_THRESHOLD_SQUARED: i128 = 36;

/// Milliseconds between two looks at the mouse.
pub const POLL_MS: u64 = 8;

/// The longest side of the picture that is dragged along.
pub const DRAG_IMAGE_DIM: u32 = 256;

#[derive(Clone, Copy, Debug, PartialEq, Eq, Structural)]
pub struct DragOutcome {
    pub dropped: bool,
    pub moved: bool,
}

/// Checks the files of a drag: there is one at least, and each exists.
pub fn start_drag(present: &Vec<bool>) -> (r: Result<(), String>)
    ensures
        match r {
            Ok(_) => present@.len() > 0 && forall|i: int|
                0 <= i < present@.len() ==> #[trigger] present@[i],
            Err(e) => e@ == "File not found"@ && (present@.len() == 0 || exists|i: int|
                0 <= i < present@.len() && !#[trigger] present@[i]),
        },
{
    if present.len() == 0 {
        return Err("File not found".to_owned());
    }
    for i in 0..present.len()
        invariant
            forall|j: int| 0 <= j < i ==> #[trigger] present@[j],
    {
        if !present[i] {
            assert(!present@[i as int]);
            return Err("File not found".to_owned());
        }
    }
    Ok(())
}

/// What a press has become.
#[derive(Clone, Copy, Debug, PartialEq, Eq, Structural)]
pub enum Poll {
    /// The button was let go, or Esc was pressed.
    Click,
    Drag,
    Undecided,
}

/// How far the cursor has moved, squared.
pub open spec fn distance_squared(a: Point, b: Point) -> int {
    (b.x - a.x) * (b.x - a.x) + (b.y - a.y) * (b.y - a.y)
}

/// One look at the mouse while it is undecided whether a press is a click or
/// a drag.
pub fn wait_for_drag_movement(
    start: Point,
    escape: bool,
    button_down: bool,
    cur: Option<Point>,
) -> (r: Poll)
    ensures
        r == (if escape || !button_down {
            Poll::Click
        } else {
            match cur {
                Some(c) => if distance_squared(start, c) >= DRAG_THRESHOLD_SQUARED {
                    Poll::Drag
                } else {
                    Poll::Undecided
                },
                None => Poll::Undecided,
            }
        }),
{
    if escape || !button_down {
        return Poll::Click;
    }
    if let Some(c) = cur {
        let dx: i128 = c.x as i128 - start.x as i128;
        let dy: i128 = c.y as i128 - start.y as i128;
        assert(0 <= dx * dx <= 0x1_0000_0000 * 0x1_0000_0000) by (nonlinear_arith)
            requires
                -0x1_0000_0000 <= dx <= 0x1_0000_0000,
        ;
        assert(0 <= dy * dy <= 0x1_0000_0000 * 0x1_0000_0000) by (nonlinear_arith)
            requires
                -0x1_0000_0000 <= dy <= 0x1_0000_0000,
        ;
        if dx * dx + dy * dy >= DRAG_THRESHOLD_SQUARED {
            return Poll::Drag;
        }
    }
    Poll::Undecided
}

/// Whether the shell refused a drag with a picture, and a plain one is tried:
/// failures have their highest bit set.
pub fn needs_plain_drag(hr: u32) -> (r: bool)
    ensures
        r == (hr >= 0x8000_0000),
{
    hr >= 0x8000_0000
}

/// What came of a drag, from its result and the effect that the target chose.
pub fn drag_outcome(hr: u32, effect: u32) -> (r: DragOutcome)
    ensures
        r.dropped == (hr == DRAGDROP_S_DROP),
        r.moved == (r.dropped && effect / 2 % 2 == 1),
{
    let dropped = hr == DRAGDROP_S_DROP;
    DragOutcome { dropped, moved: dropped && effect / 2 % 2 == 1 }
}

/// The name of the drag source's window class, ended by a zero.
pub fn drag_source_class() -> (r: Vec<u16>)
    ensures
        r@ == utf16("SnapDropDragSource"@).push(0),
{
    let mut r = utf16_of("SnapDropDragSource");
    r.push(0);
    r
}

/// The picture that is dragged along: premultiplied ARGB pixels, their size,
/// and where the cursor holds them.
pub struct DragImage {
    pub pixels: Vec<u32>,
    pub width: u32,
    pub height: u32,
    pub offset: Point,
}

/// A pixel with its colours multiplied by its alpha.
pub open spec fn premultiplied(p: Pixel) -> int {
    let a = p.3 as int;
    argb(a, p.0 * a / 255, p.1 * a / 255, p.2 * a / 255)
}

fn scaled_channel(c: u8, a: u8) -> (r: u32)
    ensures
        r == c * a / 255,
        r <= a,
{
    assert(0 <= c * a <= 255 * a) by (nonlinear_arith)
        requires
            0 <= c <= 255,
            0 <= a,
    ;
    c as u32 * a as u32 / 255
}

fn premultiply(p: Pixel) -> (r: u32)
    ensures
        r == premultiplied(p),
{
    let a: u32 = p.3 as u32;
    a * 0x100_0000 + scaled_channel(p.0, p.3) * 0x1_0000 + scaled_channel(p.1, p.3) * 0x100
        + scaled_channel(p.2, p.3)
}

/// The pixels of an RGBA picture, premultiplied.
pub open spec fn drag_pixels(rgba: Seq<u8>) -> Seq<int> {
    Seq::new(rgba.len() / 4, |i: int| premultiplied(px(rgba, i)))
}

/// Makes the picture of a drag from an opened file. `scaled` is its size scaled
/// down to `DRAG_IMAGE_DIM`.
pub fn build_drag_image(rgba: Vec<u8>, width: u32, height: u32, scaled: (u32, u32)) -> (r: Option<
    DragImage,
>)
    requires
        fittable(
            width,
            height,
            preview_size(width, height, DRAG_IMAGE_DIM, scaled).0,
            preview_size(width, height, DRAG_IMAGE_DIM, scaled).1,
        ),
    ensures
        r is Some == (rgba@.len() >= width * height * 4),
        r matches Some(d) ==> {
            let (tw, th) = preview_size(width, height, DRAG_IMAGE_DIM, scaled);
            let p = fitted_picture(rgba@, width, height, tw, th);
            &&& d.width == p.1 && d.height == p.2
            &&& 1 <= d.width <= tw
            &&& 1 <= d.height <= th
            &&& scaled.0 <= DRAG_IMAGE_DIM && scaled.1 <= DRAG_IMAGE_DIM ==> d.width
                <= DRAG_IMAGE_DIM && d.height <= DRAG_IMAGE_DIM
            &&& d.pixels@.len() == d.width * d.height
            &&& d.pixels@.map_values(|c: u32| c as int) == drag_pixels(p.0)
            &&& d.offset.x == -(p.1 / 2)
            &&& d.offset.y == -(p.2 / 2)
        },
{
    let (tw, th) = fit_size(width, height, DRAG_IMAGE_DIM, scaled);
    match fit_rgba(rgba, width, height, tw, th) {
        None => None,
        Some((thumb, w, h)) => {
            let n: usize = thumb.len() / 4;
            let mut pixels: Vec<u32> = Vec::new();
            for i in 0..n
                invariant
                    n == thumb@.len() / 4,
                    pixels@.map_values(|c: u32| c as int) == drag_pixels(thumb@).take(i as int),
            {
                let ghost before = pixels@;
                pixels.push(premultiply(get_px(&thumb, i)));
                assert(pixels@.map_values(|c: u32| c as int) =~= before.map_values(
                    |c: u32| c as int,
                ).push(premultiplied(px(thumb@, i as int))));
                assert(drag_pixels(thumb@).take(i + 1) =~= drag_pixels(thumb@).take(i as int).push(
                    premultiplied(px(thumb@, i as int)),
                ));
            }
            assert(drag_pixels(thumb@).take(n as int) =~= drag_pixels(thumb@));
            assert(pixels@.len() == pixels@.map_values(|c: u32| c as int).len());
            let offset = Point { x: -((w / 2) as i32), y: -((h / 2) as i32) };
            Some(DragImage { pixels, width: w, height: h, offset })
        },
    }
}

/// Whether data in the given form is handed out: the drop list, in a block of
/// global memory.
pub open spec fn offers(format: u32, tymed: u32) -> bool {
    format == CF_HDROP && tymed % 2 == TYMED_HGLOBAL
}

/// The answer to a request for data: the drop list, or that there is none in
/// this form.
pub fn get_data(format: u32, tymed: u32) -> (hr: u32)
    ensures
        hr == (if offers(format, tymed) {
            S_OK
        } else {
            DV_E_FORMATETC
        }),
{
    if format == CF_HDROP && tymed % 2 == TYMED_HGLOBAL {
        S_OK
    } else {
        DV_E_FORMATETC
    }
}

/// The answer to the question whether data can be had in a form.
pub fn query_get_data(format: u32, tymed: u32, aspect: u32) -> (hr: u32)
    ensures
        hr == (if offers(format, tymed) && aspect == DVASPECT_CONTENT {
            S_OK
        } else {
            DV_E_FORMATETC
        }),
{
    if format == CF_HDROP && tymed % 2 == TYMED_HGLOBAL && aspect == DVASPECT_CONTENT {
        S_OK
    } else {
        DV_E_FORMATETC
    }
}

/// Whether the forms of the data can be listed: only those that can be read.
pub fn enum_formats(direction: u32) -> (hr: u32)
    ensures
        hr == (if direction == DATADIR_GET {
            S_OK
        } else {
            E_UNEXPECTED
        }),
{
    if direction == DATADIR_GET {
        S_OK
    } else {
        E_UNEXPECTED
    }
}

/// The list of the one form in which the data can be had.
pub struct FormatEnum {
    pub done: bool,
}

impl FormatEnum {
    pub fn new() -> (e: FormatEnum)
        ensures
            !e.done,
    {
        FormatEnum { done: false }
    }

    /// Hands the form out, once, if any is asked for: how many were handed out,
    /// and the answer.
    pub fn next(&mut self, wanted: u32) -> (r: (u32, u32))
        ensures
            r == (if !old(self).done && wanted >= 1 {
                (1u32, S_OK)
            } else {
                (0u32, S_FALSE)
            }),
            final(self).done == (old(self).done || wanted >= 1),
    {
        if !self.done && wanted >= 1 {
            self.done = true;
            (1, S_OK)
        } else {
            (0, S_FALSE)
        }
    }

    pub fn reset(&mut self)
        ensures
            !final(self).done,
    {
        self.done = false;
    }
}

/// Whether a drag goes on: Esc cancels it, and letting the button go drops.
pub fn query_continue_drag(escape: bool, key_state: u32) -> (hr: u32)
    ensures
        hr == (if escape {
            DRAGDROP_S_CANCEL
        } else if key_state % 2 == 0 {
            DRAGDROP_S_DROP
        } else {
            S_OK
        }),
{
    if escape {
        DRAGDROP_S_CANCEL
    } else if key_state % 2 == 0 {
        DRAGDROP_S_DROP
    } else {
        S_OK
    }
}

/// The cursors of a drag are the system's own.
pub fn give_feedback() -> (hr: u32)
    ensures
        hr == DRAGDROP_S_USEDEFAULTCURSORS,
{
    DRAGDROP_S_USEDEFAULTCURSORS
}

/// A plain click is no drag: a cursor that has not moved never starts one.
pub proof fn law_still_cursors_do_not_drag(p: Point)
    ensures
        distance_squared(p, p) < DRAG_THRESHOLD_SQUARED,
{
}

/// An opaque pixel keeps its colours.
pub proof fn law_opaque_pixels_keep_their_colours(r: u8, g: u8, b: u8)
    ensures
        premultiplied((r, g, b, 255)) == argb(255, r as int, g as int, b as int),
{
}

/// How far the cursor has moved does not depend on the direction: along one axis
/// it takes six pixels to make a drag.
pub proof fn law_drags_start_at_six_pixels(a: Point, b: Point)
    ensures
        distance_squared(a, b) == distance_squared(b, a),
        distance_squared(a, b) >= 0,
        a.y == b.y ==> (distance_squared(a, b) >= DRAG_THRESHOLD_SQUARED) == (b.x - a.x >= 6 || a.x
            - b.x >= 6),
        a.x == b.x ==> (distance_squared(a, b) >= DRAG_THRESHOLD_SQUARED) == (b.y - a.y >= 6 || a.y
            - b.y >= 6),
        b.x - a.x >= 6 || a.x - b.x >= 6 || b.y - a.y >= 6 || a.y - b.y >= 6
            ==> distance_squared(a, b) >= DRAG_THRESHOLD_SQUARED,
        -4 <= b.x - a.x <= 4 && -4 <= b.y - a.y <= 4 ==> distance_squared(a, b)
            < DRAG_THRESHOLD_SQUARED,
{
    let dx = b.x - a.x;
    let dy = b.y - a.y;
    lemma_square(dx);
    lemma_square(dy);
    assert((-dx) * (-dx) == dx * dx) by (nonlinear_arith);
    assert((-dy) * (-dy) == dy * dy) by (nonlinear_arith);
    assert(a.x - b.x == -dx && a.y - b.y == -dy);
}

proof fn lemma_square(d: int)
    ensures
        d * d >= 0,
        d >= 6 || d <= -6 ==> d * d >= 36,
        -6 < d < 6 ==> d * d <= 25,
        -4 <= d <= 4 ==> d * d <= 16,
        d == 0 ==> d * d == 0,
{
    assert(d * d >= 0) by (nonlinear_arith);
    if d >= 6 || d <= -6 {
        assert(d * d >= 36) by (nonlinear_arith)
            requires
                d >= 6 || d <= -6,
        ;
    } else {
        assert(d * d <= 25) by (nonlinear_arith)
            requires
                -5 <= d <= 5,
        ;
        if -4 <= d <= 4 {
            assert(d * d <= 16) by (nonlinear_arith)
                requires
                    -4 <= d <= 4,
            ;
        }
    }
}

/// A pixel of the dragged picture has, from its highest byte to its lowest, the
/// alpha and then red, green and blue, each scaled by the alpha.
pub proof fn law_premultiplied_channels(r: u8, g: u8, b: u8, a: u8)
    ensures
        0 <= premultiplied((r, g, b, a)) < 0x1_0000_0000,
        premultiplied((r, g, b, a)) / 0x100_0000 == a,
        premultiplied((r, g, b, a)) / 0x1_0000 % 256 == r * a / 255,
        premultiplied((r, g, b, a)) / 0x100 % 256 == g * a / 255,
        premultiplied((r, g, b, a)) % 256 == b * a / 255,
        a == 0 ==> premultiplied((r, g, b, a)) == 0,
        a == 255 ==> premultiplied((r, g, b, a)) / 0x1_0000 % 256 == r,
        a == 255 ==> premultiplied((r, g, b, a)) / 0x100 % 256 == g,
        a == 255 ==> premultiplied((r, g, b, a)) % 256 == b,
{
    lemma_scaled(r, a);
    lemma_scaled(g, a);
    lemma_scaled(b, a);
    crate::canvas::lemma_argb(a as int, r * a / 255, g * a / 255, b * a / 255);
}

proof fn lemma_scaled(c: u8, a: u8)
    ensures
        0 <= c * a / 255 <= a,
        a == 0 ==> c * a / 255 == 0,
        a == 255 ==> c * a / 255 == c,
{
    assert(0 <= c * a <= 255 * a) by (nonlinear_arith)
        requires
            0 <= c <= 255,
            0 <= a,
    ;
    if a == 255 {
        assert(c * a == 255 * c) by (nonlinear_arith)
            requires
                a == 255,
        ;
    }
}

/// The dragged picture has one pixel for each four bytes, in their order.
pub proof fn law_drag_pixels_in_order(rgba: Seq<u8>, i: int)
    requires
        0 <= i,
        4 * i + 4 <= rgba.len(),
    ensures
        drag_pixels(rgba).len() == rgba.len() / 4,
        drag_pixels(rgba)[i] / 0x100_0000 == rgba[4 * i + 3],
        drag_pixels(rgba)[i] / 0x1_0000 % 256 == rgba[4 * i] * rgba[4 * i + 3] / 255,
        drag_pixels(rgba)[i] / 0x100 % 256 == rgba[4 * i + 1] * rgba[4 * i + 3] / 255,
        drag_pixels(rgba)[i] % 256 == rgba[4 * i + 2] * rgba[4 * i + 3] / 255,
{
    law_premultiplied_channels(rgba[4 * i], rgba[4 * i + 1], rgba[4 * i + 2], rgba[4 * i + 3]);
}

/// A drag hands out a drop list in global memory, and nothing else.
pub proof fn law_only_drop_lists_are_offered(format: u32, tymed: u32)
    ensures
        offers(format, tymed) ==> format == 15 && tymed % 2 == 1,
        format == 15 && tymed % 2 == 1 ==> offers(format, tymed),
{
}

} // verus!

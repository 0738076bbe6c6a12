//! A picture of 32-bit ARGB pixels, row by row from the top, and the shapes
//! that are painted on it.

use vstd::prelude::*;

verus! {

pub struct Canvas {
    pub width: usize,
    pub height: usize,
    pub pixels: Vec<u32>,
}

/// The place of a pixel in a picture that is `w` pixels wide.
pub open spec fn place(w: int, x: int, y: int) -> int {
    y * w + x
}

pub proof fn lemma_place_bound(w: int, h: int, x: int, y: int)
    requires
        0 <= x < w,
        0 <= y < h,
    ensures
        0 <= place(w, x, y) < w * h,
        place(w, x, y) >= y * w,
{
    assert(0 <= y * w && y * w + w <= w * h) by (nonlinear_arith)
        requires
            0 <= x < w,
            0 <= y < h,
    ;
}

pub proof fn lemma_place_injective(w: int, x: int, y: int, x2: int, y2: int)
    requires
        0 <= x < w,
        0 <= x2 < w,
        place(w, x, y) == place(w, x2, y2),
    ensures
        x == x2,
        y == y2,
{
    assert(y == y2) by (nonlinear_arith)
        requires
            0 <= x < w,
            0 <= x2 < w,
            y * w + x == y2 * w + x2,
    ;
}

impl Canvas {
    pub open spec fn wf(self) -> bool {
        self.pixels@.len() == self.width * self.height
    }

    /// Whether a position lies on the picture.
    pub open spec fn has(self, x: int, y: int) -> bool {
        0 <= x < self.width && 0 <= y < self.height
    }

    /// The pixel at a position.
    pub open spec fn at(self, x: int, y: int) -> u32 {
        self.pixels@[place(self.width as int, x, y)]
    }

    pub open spec fn same_size(self, other: Canvas) -> bool {
        &&& self.wf()
        &&& self.width == other.width
        &&& self.height == other.height
    }

    /// A picture of one colour.
    pub fn filled(width: usize, height: usize, color: u32) -> (c: Canvas)
        requires
            width * height <= usize::MAX,
        ensures
            c.wf(),
            c.width == width,
            c.height == height,
            forall|x: int, y: int| c.has(x, y) ==> #[trigger] c.at(x, y) == color,
    {
        let n: usize = width * height;
        let mut pixels: Vec<u32> = Vec::new();
        for i in 0..n
            invariant
                pixels@.len() == i,
                forall|j: int| 0 <= j < i ==> pixels@[j] == color,
        {
            pixels.push(color);
        }
        let c = Canvas { width, height, pixels };
        assert forall|x: int, y: int| c.has(x, y) implies #[trigger] c.at(x, y) == color by {
            lemma_place_bound(width as int, height as int, x, y);
        }
        c
    }

    pub fn put(&mut self, x: usize, y: usize, color: u32)
        requires
            old(self).wf(),
            old(self).has(x as int, y as int),
        ensures
            final(self).same_size(*old(self)),
            forall|u: int, v: int|
                old(self).has(u, v) ==> #[trigger] final(self).at(u, v) == (if u == x && v == y {
                    color
                } else {
                    old(self).at(u, v)
                }),
    {
        proof {
            lemma_place_bound(self.width as int, self.height as int, x as int, y as int);
        }
        let n: usize = self.pixels.len();
        assert(y * self.width + x < n);
        let i: usize = y * self.width + x;
        self.pixels.set(i, color);
        assert forall|u: int, v: int| old(self).has(u, v) implies #[trigger] self.at(u, v) == (if u
            == x && v == y {
            color
        } else {
            old(self).at(u, v)
        }) by {
            lemma_place_bound(self.width as int, self.height as int, u, v);
            if place(self.width as int, u, v) == i {
                lemma_place_injective(self.width as int, x as int, y as int, u, v);
            }
        }
    }

    pub fn get(&self, x: usize, y: usize) -> (color: u32)
        requires
            self.wf(),
            self.has(x as int, y as int),
        ensures
            color == self.at(x as int, y as int),
    {
        proof {
            lemma_place_bound(self.width as int, self.height as int, x as int, y as int);
        }
        let n: usize = self.pixels.len();
        assert(y * self.width + x < n);
        self.pixels[y * self.width + x]
    }

    /// Paints the pixels of one row from `xa` up to, and without, `xb`.
    pub fn paint_row(&mut self, y: usize, xa: usize, xb: usize, color: u32)
        requires
            old(self).wf(),
            y < old(self).height,
            xb <= old(self).width,
        ensures
            final(self).same_size(*old(self)),
            forall|u: int, v: int|
                old(self).has(u, v) ==> #[trigger] final(self).at(u, v) == (if v == y && xa <= u
                    < xb {
                    color
                } else {
                    old(self).at(u, v)
                }),
    {
        let mut x: usize = xa;
        while x < xb
            invariant
                self.same_size(*old(self)),
                y < self.height,
                xb <= self.width,
                xa <= x,
                if xa < xb { x <= xb } else { x == xa },
                forall|u: int, v: int|
                    self.has(u, v) ==> #[trigger] self.at(u, v) == (if v == y && xa <= u < x {
                        color
                    } else {
                        old(self).at(u, v)
                    }),
            decreases xb - x,
        {
            self.put(x, y, color);
            x = x + 1;
        }
    }

    /// Paints the part of a rectangle that lies on the picture.
    pub fn fill_rect(&mut self, x0: i64, y0: i64, x1: i64, y1: i64, color: u32)
        requires
            old(self).wf(),
        ensures
            final(self).same_size(*old(self)),
            forall|u: int, v: int|
                old(self).has(u, v) ==> #[trigger] final(self).at(u, v) == (if x0 <= u < x1 && y0
                    <= v < y1 {
                    color
                } else {
                    old(self).at(u, v)
                }),
    {
        let xa: usize = clip(x0, self.width);
        let xb: usize = clip(x1, self.width);
        let ya: usize = clip(y0, self.height);
        let yb: usize = clip(y1, self.height);
        let mut y: usize = ya;
        while y < yb
            invariant
                self.same_size(*old(self)),
                yb <= self.height,
                xb <= self.width,
                ya <= y,
                if ya < yb { y <= yb } else { y == ya },
                xa == clipped(x0 as int, self.width as int),
                xb == clipped(x1 as int, self.width as int),
                ya == clipped(y0 as int, self.height as int),
                yb == clipped(y1 as int, self.height as int),
                forall|u: int, v: int|
                    self.has(u, v) ==> #[trigger] self.at(u, v) == (if ya <= v < y && x0 <= u
                        < x1 {
                        color
                    } else {
                        old(self).at(u, v)
                    }),
            decreases yb - y,
        {
            self.paint_row(y, xa, xb, color);
            y = y + 1;
        }
    }
}

/// A coordinate moved to the nearest one from 0 to `limit`.
pub open spec fn clipped(v: int, limit: int) -> int {
    if v <= 0 {
        0
    } else if v >= limit {
        limit
    } else {
        v
    }
}

pub fn clip(v: i64, limit: usize) -> (r: usize)
    ensures
        r == clipped(v as int, limit as int),
{
    if v <= 0 {
        0
    } else if v as u64 >= limit as u64 {
        limit
    } else {
        v as usize
    }
}

/// Whether a position is in the frame of thickness `t` around a rectangle. An
/// empty rectangle has no frame.
pub open spec fn in_frame(x0: int, y0: int, x1: int, y1: int, t: int, x: int, y: int) -> bool {
    &&& x0 < x1 && y0 < y1
    &&& x0 - t <= x < x1 + t && y0 - t <= y < y1 + t
    &&& !(x0 <= x < x1 && y0 <= y < y1)
}

/// Paints a frame of thickness `t` around a rectangle, where it lies on the
/// picture.
pub fn stroke_rect(
    canvas: &mut Canvas,
    x0: usize,
    y0: usize,
    x1: usize,
    y1: usize,
    color: u32,
    t: usize,
)
    requires
        old(canvas).wf(),
    ensures
        final(canvas).same_size(*old(canvas)),
        forall|u: int, v: int|
            old(canvas).has(u, v) ==> #[trigger] final(canvas).at(u, v) == (if in_frame(
                x0 as int,
                y0 as int,
                x1 as int,
                y1 as int,
                t as int,
                u,
                v,
            ) {
                color
            } else {
                old(canvas).at(u, v)
            }),
{
    if x0 >= x1 || y0 >= y1 {
        return ;
    }
    let w: usize = canvas.width;
    let h: usize = canvas.height;
    let xa: usize = least(x0.saturating_sub(t), w);
    let xb: usize = least(x1.saturating_add(t), w);
    let ya: usize = least(y0.saturating_sub(t), h);
    let yb: usize = least(y1.saturating_add(t), h);
    let mx: usize = least(x0, w);
    let nx: usize = least(x1, w);
    let mut y: usize = ya;
    while y < yb
        invariant
            canvas.same_size(*old(canvas)),
            w == canvas.width,
            h == canvas.height,
            x0 < x1,
            y0 < y1,
            xa == clipped(x0 - t, w as int),
            xb == clipped(x1 + t, w as int),
            ya == clipped(y0 - t, h as int),
            yb == clipped(y1 + t, h as int),
            mx == clipped(x0 as int, w as int),
            nx == clipped(x1 as int, w as int),
            ya <= y <= yb,
            forall|u: int, v: int|
                canvas.has(u, v) ==> #[trigger] canvas.at(u, v) == (if v < y && in_frame(
                    x0 as int,
                    y0 as int,
                    x1 as int,
                    y1 as int,
                    t as int,
                    u,
                    v,
                ) {
                    color
                } else {
                    old(canvas).at(u, v)
                }),
        decreases yb - y,
    {
        if y >= y0 && y < y1 {
            canvas.paint_row(y, xa, mx, color);
            canvas.paint_row(y, nx, xb, color);
        } else {
            canvas.paint_row(y, xa, xb, color);
        }
        y = y + 1;
    }
}

fn least(a: usize, b: usize) -> (r: usize)
    ensures
        r == if a <= b {
            a
        } else {
            b
        },
{
    if a <= b {
        a
    } else {
        b
    }
}

/// A colour from its four channels.
pub open spec fn argb(a: int, r: int, g: int, b: int) -> int {
    a * 0x100_0000 + r * 0x1_0000 + g * 0x100 + b
}

pub open spec fn alpha(c: u32) -> int {
    c as int / 0x100_0000
}

pub open spec fn red(c: u32) -> int {
    c as int / 0x1_0000 % 256
}

pub open spec fn green(c: u32) -> int {
    c as int / 0x100 % 256
}

pub open spec fn blue(c: u32) -> int {
    c as int % 256
}

/// A colour made of four channels has those channels.
pub proof fn law_colours_keep_their_channels(a: u8, r: u8, g: u8, b: u8)
    ensures
        0 <= argb(a as int, r as int, g as int, b as int) <= u32::MAX,
        ({
            let c = argb(a as int, r as int, g as int, b as int) as u32;
            alpha(c) == a && red(c) == r && green(c) == g && blue(c) == b
        }),
        argb(255, 0, 0, 0) == 0xFF00_0000,
        argb(0, 255, 0, 0) == 0x00FF_0000,
        argb(0, 0, 255, 0) == 0x0000_FF00,
        argb(0, 0, 0, 255) == 0x0000_00FF,
{
    lemma_argb(a as int, r as int, g as int, b as int);
}

pub proof fn lemma_argb(a: int, r: int, g: int, b: int)
    requires
        0 <= a < 256,
        0 <= r < 256,
        0 <= g < 256,
        0 <= b < 256,
    ensures
        0 <= argb(a, r, g, b) < 0x1_0000_0000,
        argb(a, r, g, b) / 0x100_0000 == a,
        argb(a, r, g, b) / 0x1_0000 % 256 == r,
        argb(a, r, g, b) / 0x100 % 256 == g,
        argb(a, r, g, b) % 256 == b,
{
    let c = argb(a, r, g, b);
    let ar = 0x100 * a + r;
    let arg = 0x1_0000 * a + 0x100 * r + g;
    vstd::arithmetic::div_mod::lemma_fundamental_div_mod_converse(
        c,
        0x100_0000,
        a,
        0x1_0000 * r + 0x100 * g + b,
    );
    vstd::arithmetic::div_mod::lemma_fundamental_div_mod_converse(c, 0x1_0000, ar, 0x100 * g + b);
    vstd::arithmetic::div_mod::lemma_fundamental_div_mod_converse(ar, 0x100, a, r);
    vstd::arithmetic::div_mod::lemma_fundamental_div_mod_converse(c, 0x100, arg, b);
    vstd::arithmetic::div_mod::lemma_fundamental_div_mod_converse(arg, 0x100, ar, g);
}

/// A frame lies around its rectangle: it covers no pixel of it, touches each of
/// its sides, and reaches as far out as it is thick.
pub proof fn law_frames_lie_around(x0: int, y0: int, x1: int, y1: int, t: int, x: int, y: int)
    requires
        x0 < x1,
        y0 < y1,
        t >= 1,
    ensures
        x0 <= x < x1 && y0 <= y < y1 ==> !in_frame(x0, y0, x1, y1, t, x, y),
        x0 <= x < x1 ==> in_frame(x0, y0, x1, y1, t, x, y0 - 1) && in_frame(x0, y0, x1, y1, t, x, y1),
        y0 <= y < y1 ==> in_frame(x0, y0, x1, y1, t, x0 - 1, y) && in_frame(x0, y0, x1, y1, t, x1, y),
        in_frame(x0, y0, x1, y1, t, x0 - t, y0 - t),
        in_frame(x0, y0, x1, y1, t, x1 + t - 1, y1 + t - 1),
        x < x0 - t || x >= x1 + t || y < y0 - t || y >= y1 + t ==> !in_frame(
            x0,
            y0,
            x1,
            y1,
            t,
            x,
            y,
        ),
{
}

/// A pixel right of another is its neighbour in memory, and one below it lies a
/// row further on.
pub proof fn law_pixels_are_row_by_row(w: int, x: int, y: int)
    ensures
        place(w, 0, 0) == 0,
        place(w, x + 1, y) == place(w, x, y) + 1,
        place(w, x, y + 1) == place(w, x, y) + w,
{
    assert((y + 1) * w == y * w + w) by (nonlinear_arith);
}

/// A picture holds the positions from its corner up to its width and height,
/// each in its place row by row; an empty rectangle has no frame on it.
pub proof fn law_positions_of_a_picture(c: Canvas, x: int, y: int)
    ensures
        c.has(x, y) == (0 <= x && x < c.width && 0 <= y && y < c.height),
        c.at(x, y) == c.pixels@[y * c.width + x],
        c.wf() == (c.pixels@.len() == c.width * c.height),
        forall|x0: int, y0: int, x1: int, y1: int, t: int|
            x0 >= x1 || y0 >= y1 ==> !#[trigger] in_frame(x0, y0, x1, y1, t, x, y),
{
}

} // verus!

//! What goes on the Windows clipboard: a picture as a device-independent
//! bitmap (CF_DIBV5), and files as a drop list (CF_HDROP).

use vstd::prelude::*;

use crate::capture::{get_px, px, Pixel};
use crate::text::{utf16, utf16_of, utf16_units};

verus! {

pub const CF_DIBV5: u32 = 17;

pub const CF_HDROP: u32 = 15;

/// The length of the bitmap header.
pub const DIBV5_HEADER: usize = 124;

/// The length of the header of a drop list.
pub const DROPFILES_HEADER: usize = 20;

/// The four bytes of a number, lowest first.
pub open spec fn le32(n: int) -> Seq<u8> {
    seq![
        (n % 256) as u8,
        (n / 256 % 256) as u8,
        (n / 0x1_0000 % 256) as u8,
        (n / 0x100_0000 % 256) as u8,
    ]
}

/// The two bytes of a number, lowest first.
pub open spec fn le16(n: int) -> Seq<u8> {
    seq![(n % 256) as u8, (n / 256 % 256) as u8]
}

fn put32(v: &mut Vec<u8>, n: u32)
    ensures
        final(v)@ == old(v)@ + le32(n as int),
{
    v.push((n % 256) as u8);
    v.push((n / 256 % 256) as u8);
    v.push((n / 0x1_0000 % 256) as u8);
    v.push((n / 0x100_0000 % 256) as u8);
    assert(v@ =~= old(v)@ + le32(n as int));
}

fn put16(v: &mut Vec<u8>, n: u16)
    ensures
        final(v)@ == old(v)@ + le16(n as int),
{
    v.push((n % 256) as u8);
    v.push((n / 256 % 256) as u8);
    assert(v@ =~= old(v)@ + le16(n as int));
}

fn put_zeros(v: &mut Vec<u8>, n: usize)
    ensures
        final(v)@ == old(v)@ + zeros(n as nat),
{
    for i in 0..n
        invariant
            v@ == old(v)@ + zeros(i as nat),
    {
        v.push(0);
        assert(v@ =~= old(v)@ + zeros((i + 1) as nat));
    }
}

pub open spec fn zeros(n: nat) -> Seq<u8> {
    Seq::new(n, |i: int| 0u8)
}

/// A bitmap header for a picture with 32 bits a pixel, rows from the top (a
/// negative height), channel masks for BGRA and the Windows colour space.
pub open spec fn dibv5_header(width: int, height: int) -> Seq<u8> {
    le32(DIBV5_HEADER as int) + le32(width) + le32(-height) + le16(1) + le16(32) + le32(3) + le32(
        width * height * 4,
    ) + zeros(16) + le32(0x00FF_0000) + le32(0x0000_FF00) + le32(0x0000_00FF) + le32(0xFF00_0000)
        + le32(2) + zeros(64)
}

/// The bytes of a picture with every pixel opaque, and zeros in place of what
/// is no whole pixel.
pub open spec fn opaque_bgra(bgra: Seq<u8>) -> Seq<u8> {
    Seq::new(
        bgra.len(),
        |i: int|
            if i >= bgra.len() / 4 * 4 {
                0u8
            } else if i % 4 == 3 {
                255u8
            } else {
                bgra[i]
            },
    )
}

/// The bitmap of a BGRA picture, opaque.
pub fn build_dibv5(bgra: &Vec<u8>, width: u32, height: u32) -> (r: Vec<u8>)
    requires
        width * height * 4 <= u32::MAX,
        height != 0x8000_0000,
    ensures
        r@ == dibv5_header(width as int, height as int) + opaque_bgra(bgra@),
        dibv5_header(width as int, height as int).len() == DIBV5_HEADER,
        r@.len() == 124 + bgra@.len(),
        word_at(r@, 4) == width,
        width <= i32::MAX ==> signed_word_at(r@, 4) == width,
        height < 0x8000_0000 ==> signed_word_at(r@, 8) == -height,
        word_at(r@, 20) == width * height * 4,
{
    assert(width * height <= width * height * 4);
    let mut v: Vec<u8> = Vec::new();
    put32(&mut v, 124);
    assert(v@ =~= le32(DIBV5_HEADER as int));
    put32(&mut v, width);
    let negative: u32 = if height == 0 {
        0
    } else {
        u32::MAX - height + 1
    };
    assert(le32(negative as int) =~= le32(-height)) by {
        assert(-(height as int) / 256 % 256 == negative as int / 256 % 256);
        assert(-(height as int) / 0x1_0000 % 256 == negative as int / 0x1_0000 % 256);
        assert(-(height as int) / 0x100_0000 % 256 == negative as int / 0x100_0000 % 256);
    }
    put32(&mut v, negative);
    put16(&mut v, 1);
    put16(&mut v, 32);
    put32(&mut v, 3);
    put32(&mut v, width * height * 4);
    put_zeros(&mut v, 16);
    put32(&mut v, 0x00FF_0000);
    put32(&mut v, 0x0000_FF00);
    put32(&mut v, 0x0000_00FF);
    put32(&mut v, 0xFF00_0000);
    put32(&mut v, 2);
    put_zeros(&mut v, 64);
    let ghost head = v@;
    assert(head =~= dibv5_header(width as int, height as int));
    let whole: usize = bgra.len() / 4;
    for p in 0..whole
        invariant
            whole == bgra@.len() / 4,
            v@ == head + opaque_bgra(bgra@).take(4 * p),
    {
        let q: Pixel = get_px(bgra, p);
        v.push(q.0);
        v.push(q.1);
        v.push(q.2);
        v.push(255);
        assert(v@ =~= head + opaque_bgra(bgra@).take(4 * (p + 1)));
    }
    put_zeros(&mut v, bgra.len() - 4 * whole);
    assert(v@ =~= head + opaque_bgra(bgra@));
    proof {
        law_bitmap_header_is_read_back(width, height, opaque_bgra(bgra@));
    }
    v
}

/// The file names of a drop list: each ends with a zero, and a further zero
/// ends the list.
pub open spec fn name_list(paths: Seq<Seq<char>>) -> Seq<u16>
    decreases paths.len(),
{
    if paths.len() == 0 {
        seq![0u16]
    } else {
        utf16(paths.first()) + seq![0u16] + name_list(paths.skip(1))
    }
}

pub open spec fn bytes_of(units: Seq<u16>) -> Seq<u8> {
    Seq::new(
        units.len() * 2,
        |i: int|
            if i % 2 == 0 {
                (units[i / 2] % 256) as u8
            } else {
                (units[i / 2] / 256) as u8
            },
    )
}

pub open spec fn path_views(paths: Seq<String>) -> Seq<Seq<char>> {
    paths.map_values(|p: String| p@)
}

/// The header of a drop list: where the names start, no drop point, and wide
/// characters.
pub open spec fn dropfiles_header() -> Seq<u8> {
    le32(DROPFILES_HEADER as int) + zeros(12) + le32(1)
}

fn name_units(paths: &Vec<String>) -> (r: Vec<u16>)
    ensures
        r@ == name_list(path_views(paths@)),
{
    let mut r: Vec<u16> = Vec::new();
    let ghost all = path_views(paths@);
    assert(all.skip(0) =~= all);
    for i in 0..paths.len()
        invariant
            all == path_views(paths@),
            r@ + name_list(all.skip(i as int)) == name_list(all),
    {
        let ghost before = r@;
        let mut units = utf16_of(paths[i].as_str());
        let ghost u = units@;
        r.append(&mut units);
        r.push(0);
        proof {
            let rest = all.skip(i as int);
            assert(rest.first() == paths@[i as int]@);
            assert(rest.skip(1) =~= all.skip(i + 1));
            assert(r@ =~= before + u + seq![0u16]);
            assert(r@ + name_list(all.skip(i + 1)) =~= before + name_list(rest));
        }
    }
    r.push(0);
    proof {
        assert(all.skip(all.len() as int) =~= Seq::<Seq<char>>::empty());
        assert(r@ =~= name_list(all));
    }
    r
}

/// The drop list of some files, as dragging and pasting use it.
pub fn build_hdrop(paths: &Vec<String>) -> (r: Vec<u8>)
    ensures
        r@ == dropfiles_header() + bytes_of(name_list(path_views(paths@))),
        dropfiles_header().len() == DROPFILES_HEADER,
{
    let units = name_units(paths);
    let mut v: Vec<u8> = Vec::new();
    put32(&mut v, 20);
    put_zeros(&mut v, 12);
    put32(&mut v, 1);
    let ghost head = v@;
    assert(head =~= dropfiles_header());
    for i in 0..units.len()
        invariant
            v@ == head + bytes_of(units@).take(2 * i),
    {
        put16(&mut v, units[i]);
        assert(v@ =~= head + bytes_of(units@).take(2 * (i + 1)));
    }
    assert(v@ =~= head + bytes_of(units@));
    v
}

/// Something to put on the clipboard.
pub struct ClipboardItem {
    pub format: u32,
    pub bytes: Vec<u8>,
}

/// What a capture puts on the clipboard: the picture and the file itself.
pub fn set_image_and_file(bgra: &Vec<u8>, width: u32, height: u32, path: &str) -> (r: Vec<
    ClipboardItem,
>)
    requires
        width * height * 4 <= u32::MAX,
        height != 0x8000_0000,
    ensures
        r@.len() == 2,
        r@[0].format == CF_DIBV5,
        r@[0].bytes@ == dibv5_header(width as int, height as int) + opaque_bgra(bgra@),
        r@[1].format == CF_HDROP,
        r@[1].bytes@ == dropfiles_header() + bytes_of(name_list(seq![path@])),
{
    let mut r: Vec<ClipboardItem> = Vec::new();
    r.push(ClipboardItem { format: CF_DIBV5, bytes: build_dibv5(bgra, width, height) });
    r.push(file_item(path));
    r
}

fn file_item(path: &str) -> (r: ClipboardItem)
    ensures
        r.format == CF_HDROP,
        r.bytes@ == dropfiles_header() + bytes_of(name_list(seq![path@])),
{
    let mut paths: Vec<String> = Vec::new();
    paths.push(path.to_owned());
    assert(path_views(paths@) =~= seq![path@]);
    ClipboardItem { format: CF_HDROP, bytes: build_hdrop(&paths) }
}

/// What copying a file alone puts on the clipboard.
pub fn set_file(path: &str) -> (r: Vec<ClipboardItem>)
    ensures
        r@.len() == 1,
        r@[0].format == CF_HDROP,
        r@[0].bytes@ == dropfiles_header() + bytes_of(name_list(seq![path@])),
{
    let mut r: Vec<ClipboardItem> = Vec::new();
    r.push(file_item(path));
    r
}

/// What is reported of a clipboard session: it must open and be emptied; that
/// an item was not taken is no failure.
pub fn session_result(opened: bool, emptied: Result<(), String>) -> (r: Result<(), String>)
    ensures
        if !opened {
            r matches Err(e) && e@ == "Could not open clipboard"@
        } else {
            r == emptied
        },
{
    if !opened {
        Err("Could not open clipboard".to_owned())
    } else {
        emptied
    }
}

/// How many units of a list come before its next zero.
pub open spec fn name_length(units: Seq<u16>) -> int
    decreases units.len(),
{
    if units.len() == 0 || units.first() == 0 {
        0
    } else {
        1 + name_length(units.skip(1))
    }
}

/// The names in a drop list, as whoever takes the drop reads them.
pub open spec fn names_in(units: Seq<u16>) -> Seq<Seq<u16>>
    decreases units.len(),
{
    let n = name_length(units);
    if n <= 0 || n >= units.len() {
        Seq::empty()
    } else {
        seq![units.take(n)] + names_in(units.skip(n + 1))
    }
}

proof fn lemma_name_length(name: Seq<u16>, rest: Seq<u16>)
    requires
        forall|i: int| 0 <= i < name.len() ==> name[i] != 0,
    ensures
        name_length(name + seq![0u16] + rest) == name.len(),
    decreases name.len(),
{
    let s = name + seq![0u16] + rest;
    if name.len() == 0 {
        assert(s.first() == 0);
    } else {
        assert(s.first() == name[0]);
        assert(s.skip(1) =~= name.skip(1) + seq![0u16] + rest);
        lemma_name_length(name.skip(1), rest);
    }
}

proof fn lemma_units_no_zero(c: char)
    requires
        c != '\0',
    ensures
        utf16_units(c).len() >= 1,
        forall|i: int| 0 <= i < utf16_units(c).len() ==> #[trigger] utf16_units(c)[i] != 0,
{
}

proof fn lemma_utf16_no_zero(s: Seq<char>)
    requires
        forall|i: int| 0 <= i < s.len() ==> s[i] != '\0',
    ensures
        forall|i: int| 0 <= i < utf16(s).len() ==> #[trigger] utf16(s)[i] != 0,
        utf16(s).len() >= s.len(),
    decreases s.len(),
{
    if s.len() > 0 {
        lemma_utf16_no_zero(s.drop_last());
        let c = s.last();
        assert(s[s.len() - 1] != '\0');
        lemma_units_no_zero(c);
        let a = utf16(s.drop_last());
        assert forall|i: int| 0 <= i < utf16(s).len() implies #[trigger] utf16(s)[i] != 0 by {
            if i < a.len() {
                assert(utf16(s)[i] == a[i]);
            } else {
                assert(utf16(s)[i] == utf16_units(c)[i - a.len()]);
            }
        }
    }
}

/// A drop list gives back its files: no name is empty or holds a NUL, and what
/// is read from the list is each name in turn.
pub proof fn law_drop_list_round_trip(paths: Seq<Seq<char>>)
    requires
        forall|k: int| 0 <= k < paths.len() ==> (#[trigger] paths[k]).len() > 0,
        forall|k: int, i: int|
            0 <= k < paths.len() && 0 <= i < paths[k].len() ==> #[trigger] paths[k][i] != '\0',
    ensures
        names_in(name_list(paths)) == paths.map_values(|p: Seq<char>| utf16(p)),
    decreases paths.len(),
{
    let out = paths.map_values(|p: Seq<char>| utf16(p));
    if paths.len() == 0 {
        assert(names_in(name_list(paths)) =~= out);
    } else {
        let p = paths[0];
        let rest = paths.skip(1);
        assert forall|i: int| 0 <= i < p.len() implies p[i] != '\0' by {
            assert(paths[0][i] != '\0');
        }
        lemma_utf16_no_zero(p);
        lemma_name_length(utf16(p), name_list(rest));
        let all = name_list(paths);
        assert(all.take(utf16(p).len() as int) =~= utf16(p));
        assert(all.skip((utf16(p).len() + 1) as int) =~= name_list(rest));
        assert forall|k: int| 0 <= k < rest.len() implies (#[trigger] rest[k]).len() > 0 by {
            assert(paths[k + 1].len() > 0);
        }
        assert forall|k: int, i: int|
            0 <= k < rest.len() && 0 <= i < rest[k].len() implies #[trigger] rest[k][i] != '\0' by {
            assert(paths[k + 1][i] != '\0');
        }
        law_drop_list_round_trip(rest);
        assert(names_in(all) =~= out);
    }
}

/// A pixel of the bitmap shows the picture's colour and is opaque.
pub proof fn law_bitmap_pixels(bgra: Seq<u8>, p: int)
    requires
        0 <= p < bgra.len() / 4,
    ensures
        px(opaque_bgra(bgra), p) == (px(bgra, p).0, px(bgra, p).1, px(bgra, p).2, 255u8),
{
}

/// The number in four bytes, lowest first.
pub open spec fn word_at(b: Seq<u8>, at: int) -> int {
    b[at] + 0x100 * b[at + 1] + 0x1_0000 * b[at + 2] + 0x100_0000 * b[at + 3]
}

/// The number in two bytes, lowest first.
pub open spec fn half_word_at(b: Seq<u8>, at: int) -> int {
    b[at] + 0x100 * b[at + 1]
}

/// The signed number in four bytes, lowest first.
pub open spec fn signed_word_at(b: Seq<u8>, at: int) -> int {
    if b[at + 3] >= 0x80 {
        word_at(b, at) - 0x1_0000_0000
    } else {
        word_at(b, at)
    }
}

/// Four bytes written for a number are read as that number.
pub proof fn law_words_are_read_back(n: int)
    ensures
        le32(n).len() == 4,
        le16(n).len() == 2,
        0 <= n < 0x1_0000_0000 ==> word_at(le32(n), 0) == n,
        -0x8000_0000 <= n < 0x8000_0000 ==> signed_word_at(le32(n), 0) == n,
        -0x1_0000_0000 <= n < 0 ==> word_at(le32(n), 0) == n + 0x1_0000_0000,
        0 <= n < 0x1_0000 ==> half_word_at(le16(n), 0) == n,
{
}

/// What is read in a file that starts with a piece, some further bytes in, is
/// what is read in the rest.
proof fn lemma_word_after(a: Seq<u8>, b: Seq<u8>, at: int)
    requires
        0 <= at,
        at + 4 <= b.len(),
    ensures
        word_at(a + b, a.len() + at) == word_at(b, at),
        signed_word_at(a + b, a.len() + at) == signed_word_at(b, at),
        half_word_at(a + b, a.len() + at) == half_word_at(b, at),
{
}

proof fn lemma_word_before(a: Seq<u8>, b: Seq<u8>, at: int)
    requires
        0 <= at,
        at + 4 <= a.len(),
    ensures
        word_at(a + b, at) == word_at(a, at),
        signed_word_at(a + b, at) == signed_word_at(a, at),
        half_word_at(a + b, at) == half_word_at(a, at),
{
}

/// Whoever reads a bitmap finds the picture's width, and its height as a
/// negative number (rows from the top), with 32 bits a pixel, its length in
/// bytes and the masks of its channels; the pixels follow after the header.
pub proof fn law_bitmap_header_is_read_back(width: u32, height: u32, rest: Seq<u8>)
    requires
        width * height * 4 <= u32::MAX,
    ensures
        ({
            let b = dibv5_header(width as int, height as int) + rest;
            &&& dibv5_header(width as int, height as int).len() == 124
            &&& word_at(b, 0) == 124
            &&& word_at(b, 4) == width
            &&& width <= i32::MAX ==> signed_word_at(b, 4) == width
            &&& height <= 0x8000_0000 ==> signed_word_at(b, 8) == -height
            &&& height > 0 ==> word_at(b, 8) + height == 0x1_0000_0000
            &&& half_word_at(b, 12) == 1
            &&& half_word_at(b, 14) == 32
            &&& word_at(b, 16) == 3
            &&& word_at(b, 20) == width * height * 4
            &&& word_at(b, 40) == 0x00FF_0000
            &&& word_at(b, 44) == 0x0000_FF00
            &&& word_at(b, 48) == 0x0000_00FF
            &&& word_at(b, 52) == 0xFF00_0000
            &&& word_at(b, 56) == 2
            &&& forall|i: int| 24 <= i < 40 || 60 <= i < 124 ==> b[i] == 0
            &&& forall|i: int| 0 <= i < rest.len() ==> #[trigger] b[124 + i] == rest[i]
        }),
{
    let w = width as int;
    let h = height as int;
    let head = dibv5_header(w, h);
    let b = head + rest;
    assert(0 <= w * h) by (nonlinear_arith)
        requires
            0 <= w,
            0 <= h,
    ;
    law_words_are_read_back(124);
    law_words_are_read_back(w);
    law_words_are_read_back(-h);
    law_words_are_read_back(1);
    law_words_are_read_back(32);
    law_words_are_read_back(3);
    law_words_are_read_back(w * h * 4);
    law_words_are_read_back(0x00FF_0000);
    law_words_are_read_back(0x0000_FF00);
    law_words_are_read_back(0x0000_00FF);
    law_words_are_read_back(0xFF00_0000);
    law_words_are_read_back(2);
    assert(forall|k: int| 0 <= k < 4 ==> b[k] == le32(DIBV5_HEADER as int)[k]);
    assert(forall|k: int| 0 <= k < 4 ==> b[4 + k] == #[trigger] le32(w)[k]);
    assert(forall|k: int| 0 <= k < 4 ==> b[8 + k] == #[trigger] le32(-h)[k]);
    assert(forall|k: int| 0 <= k < 4 ==> b[20 + k] == #[trigger] le32(w * h * 4)[k]);
    assert(b[4] == le32(w)[0] && b[5] == le32(w)[1] && b[6] == le32(w)[2] && b[7] == le32(w)[3]);
    assert(b[8] == le32(-h)[0] && b[9] == le32(-h)[1] && b[10] == le32(-h)[2] && b[11] == le32(
        -h,
    )[3]);
    assert(b[20] == le32(w * h * 4)[0] && b[21] == le32(w * h * 4)[1] && b[22] == le32(
        w * h * 4,
    )[2] && b[23] == le32(w * h * 4)[3]);
}

/// Whoever takes a drop finds where the names start, that they are wide, and
/// each of their units in two bytes, lowest first; a zero ends the list.
pub proof fn law_drop_list_is_read_back(paths: Seq<Seq<char>>)
    ensures
        ({
            let units = name_list(paths);
            let b = dropfiles_header() + bytes_of(units);
            &&& word_at(b, 0) == 20
            &&& word_at(b, 16) == 1
            &&& b.len() == 20 + 2 * units.len()
            &&& forall|i: int|
                0 <= i < units.len() ==> half_word_at(b, 20 + 2 * i) == #[trigger] units[i]
            &&& units.len() > 0 && units.last() == 0
        }),
{
    let units = name_list(paths);
    let head = dropfiles_header();
    let b = head + bytes_of(units);
    assert(head =~= le32(20) + zeros(12) + le32(1));
    law_words_are_read_back(20);
    law_words_are_read_back(1);
    lemma_word_before(le32(20), zeros(12) + le32(1) + bytes_of(units), 0);
    assert(b =~= le32(20) + (zeros(12) + le32(1) + bytes_of(units)));
    let front = le32(20) + zeros(12);
    lemma_word_before(le32(1), bytes_of(units), 0);
    lemma_word_after(front, le32(1) + bytes_of(units), 0);
    assert(b =~= front + (le32(1) + bytes_of(units)));
    assert forall|i: int| 0 <= i < units.len() implies half_word_at(b, 20 + 2 * i)
        == #[trigger] units[i] by {
        lemma_units_in_bytes(units, i);
        assert(b[20 + 2 * i] == bytes_of(units)[2 * i]);
        assert(b[20 + 2 * i + 1] == bytes_of(units)[2 * i + 1]);
    }
    lemma_lists_end_with_zero(paths);
}

proof fn lemma_units_in_bytes(units: Seq<u16>, i: int)
    requires
        0 <= i < units.len(),
    ensures
        half_word_at(bytes_of(units), 2 * i) == units[i],
{
    let u = units[i];
    assert((2 * i) / 2 == i && (2 * i + 1) / 2 == i);
    assert(bytes_of(units)[2 * i] == (u % 256) as u8);
    assert(bytes_of(units)[2 * i + 1] == (u / 256) as u8);
}

proof fn lemma_lists_end_with_zero(paths: Seq<Seq<char>>)
    ensures
        name_list(paths).len() > 0,
        name_list(paths).last() == 0,
    decreases paths.len(),
{
    if paths.len() > 0 {
        lemma_lists_end_with_zero(paths.skip(1));
    }
}

/// The bytes of a bitmap's pixels are the picture's, with every fourth one, the
/// alpha, at its greatest.
pub proof fn law_bitmap_bytes(bgra: Seq<u8>, p: int, k: int)
    requires
        0 <= p,
        4 * p + 4 <= bgra.len(),
        0 <= k < 3,
    ensures
        opaque_bgra(bgra).len() == bgra.len(),
        opaque_bgra(bgra)[4 * p + k] == bgra[4 * p + k],
        opaque_bgra(bgra)[4 * p + 3] == 255,
{
}

} // verus!

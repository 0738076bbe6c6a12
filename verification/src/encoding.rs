//! Pictures as PNG files and data URLs: what the `image` and `base64` crates
//! do for the library, and what is built on it.

use base64::Engine;
use image::ImageEncoder;
use vstd::prelude::*;

use crate::capture::{get_px, px, Pixel};
use crate::text::{chars_of, string_of};

verus! {

/// The most bytes of pixels that a decoder allows itself to hold.
pub const DECODE_LIMIT: usize = 0x2000_0000;

/// The most pixels that `image` can add up for one pixel of a scaled picture:
/// each channel's sum, and half the number of pixels for rounding, stay within
/// 32 bits.
pub const MAX_BLOCK: u64 = 16_810_048;

/// The `image` crate's error.
#[verifier::external_type_specification]
#[verifier::external_body]
pub struct ExImageError(image::ImageError);

/// The bytes of a PNG file with an RGBA picture.
pub uninterp spec fn png_bytes(rgba: Seq<u8>, width: u32, height: u32) -> Seq<u8>;

/// The RGBA pixels and size of the picture in a PNG file, if there is one.
pub uninterp spec fn decoded_png(bytes: Seq<u8>) -> Option<(Seq<u8>, u32, u32)>;

/// The pixels of an RGBA picture scaled to another size.
pub uninterp spec fn scaled_pixels(
    rgba: Seq<u8>,
    width: u32,
    height: u32,
    new_width: u32,
    new_height: u32,
) -> Seq<u8>;

/// The pixels and size of an RGBA picture scaled down to fit within a size,
/// with its proportions kept.
pub uninterp spec fn fitted_picture(
    rgba: Seq<u8>,
    width: u32,
    height: u32,
    new_width: u32,
    new_height: u32,
) -> (Seq<u8>, u32, u32);

/// The standard Base64 text of some bytes.
pub uninterp spec fn base64_text(bytes: Seq<u8>) -> Seq<char>;

/// The bytes that a standard Base64 text stands for, if it is one.
pub uninterp spec fn base64_bytes(text: Seq<char>) -> Option<Seq<u8>>;

/// The first bytes of every PNG file.
pub open spec fn is_png(bytes: Seq<u8>) -> bool {
    &&& bytes.len() >= 8
    &&& bytes[0] == 0x89 && bytes[1] == 0x50 && bytes[2] == 0x4E && bytes[3] == 0x47
    &&& bytes[4] == 0x0D && bytes[5] == 0x0A && bytes[6] == 0x1A && bytes[7] == 0x0A
}

/// What reading the PNG file of a picture gives: the picture, unless it is
/// larger than a decoder takes.
pub open spec fn read_back(rgba: Seq<u8>, width: u32, height: u32) -> Option<(Seq<u8>, u32, u32)> {
    if rgba.len() <= DECODE_LIMIT {
        Some((rgba, width, height))
    } else {
        None
    }
}

/// Whether some bytes stand at a place of a file.
pub open spec fn marked(bytes: Seq<u8>, at: int, mark: Seq<u8>) -> bool {
    &&& at + mark.len() <= bytes.len()
    &&& forall|i: int| at <= i < at + mark.len() ==> #[trigger] bytes[i] == mark[i - at]
}

/// Whether a file starts as one of the kinds of pictures that are told apart by
/// their first bytes.
pub open spec fn known_kind(b: Seq<u8>) -> bool {
    ||| is_png(b)
    ||| marked(b, 0, seq![0xFFu8, 0xD8, 0xFF])  // JPEG
    ||| marked(b, 0, seq![0x47u8, 0x49, 0x46, 0x38, 0x39, 0x61])  // "GIF89a"
    ||| marked(b, 0, seq![0x47u8, 0x49, 0x46, 0x38, 0x37, 0x61])  // "GIF87a"
    // "RIFF" and, after a length, "WEBP"
    ||| marked(b, 0, seq![0x52u8, 0x49, 0x46, 0x46]) && marked(
        b,
        8,
        seq![0x57u8, 0x45, 0x42, 0x50],
    )
    ||| marked(b, 0, seq![0x4Du8, 0x4D, 0x00, 0x2A])  // TIFF
    ||| marked(b, 0, seq![0x49u8, 0x49, 0x2A, 0x00])  // TIFF
    ||| marked(b, 0, seq![0x44u8, 0x44, 0x53, 0x20])  // "DDS "
    ||| marked(b, 0, seq![0x42u8, 0x4D])  // "BM"
    ||| marked(b, 0, seq![0x00u8, 0x00, 0x01, 0x00])  // ICO
    // "#?RADIANCE"
    ||| marked(b, 0, seq![0x23u8, 0x3F, 0x52, 0x41, 0x44, 0x49, 0x41, 0x4E, 0x43, 0x45])
    // a short length and "ftypavif"
    ||| marked(b, 0, seq![0x00u8, 0x00]) && marked(
        b,
        4,
        seq![0x66u8, 0x74, 0x79, 0x70, 0x61, 0x76, 0x69, 0x66],
    )
    ||| marked(b, 0, seq![0x76u8, 0x2F, 0x31, 0x01])  // OpenEXR
    ||| marked(b, 0, seq![0x71u8, 0x6F, 0x69, 0x66])  // "qoif"
    ||| b.len() >= 2 && b[0] == 0x50 && 0x31 <= b[1] <= 0x37  // "P1" to "P7"
    ||| marked(b, 0, seq![0x66u8, 0x61, 0x72, 0x62, 0x66, 0x65, 0x6C, 0x64])  // "farbfeld"
}

/// `PngEncoder::write_image` of the `image` crate, writing 8-bit RGBA into a
/// vector. It panics unless there are four bytes for each pixel; it fails
/// exactly on a picture without width or height; the file starts with the PNG
/// signature; and decoding it gives the picture back, or nothing where the
/// picture is larger than the 512 MiB that a decoder allows itself.
#[verifier::external_body]
fn write_png(rgba: &Vec<u8>, width: u32, height: u32) -> (r: Result<Vec<u8>, image::ImageError>)
    requires
        rgba@.len() == width * height * 4,
    ensures
        r is Ok == (width > 0 && height > 0),
        r matches Ok(png) ==> png@ == png_bytes(rgba@, width, height) && is_png(png@),
        r matches Ok(png) ==> decoded_png(png@) == read_back(rgba@, width, height),
{
    let mut out = Vec::new();
    image::codecs::png::PngEncoder::new(&mut out).write_image(
        rgba,
        width,
        height,
        image::ExtendedColorType::Rgba8,
    )?;
    Ok(out)
}

/// `load_from_memory` of the `image` crate, then `DynamicImage::to_rgba8`: the
/// pixels, width and height of the picture in a file, or nothing where it
/// cannot be decoded. Of a PNG file the result depends on its bytes alone. A
/// file that starts as no kind of picture is not decoded: the kind is told by
/// the first bytes alone, as long as nobody registers hooks for further kinds
/// with `image`. Of other kinds of files nothing is said but that there are
/// four bytes for each pixel.
#[verifier::external_body]
fn read_picture(bytes: &Vec<u8>) -> (r: Option<(Vec<u8>, u32, u32)>)
    ensures
        r matches Some(p) ==> p.0@.len() == p.1 * p.2 * 4,
        is_png(bytes@) ==> match r {
            Some(p) => decoded_png(bytes@) == Some((p.0@, p.1, p.2)),
            None => decoded_png(bytes@) is None,
        },
        !known_kind(bytes@) ==> r is None,
{
    let rgba = image::load_from_memory(bytes).ok()?.to_rgba8();
    let (w, h) = rgba.dimensions();
    Some((rgba.into_raw(), w, h))
}

/// The most pixels of a side that fall into one pixel of its scaled side: their
/// ratio, with what single precision adds to it.
pub open spec fn block(side: u32, new_side: int) -> int {
    let n = side as int / new_side + side as int / 0x40_0000 + 2;
    if n < side {
        n
    } else {
        side as int
    }
}

fn block_of(side: u32, new_side: u32) -> (r: u64)
    requires
        new_side > 0,
    ensures
        r == block(side, new_side as int),
        r <= side,
{
    let n: u64 = (side / new_side) as u64 + (side / 0x40_0000) as u64 + 2;
    if n < side as u64 {
        n
    } else {
        side as u64
    }
}

/// Whether what falls into one pixel of a scaled picture can be added up.
pub open spec fn summable(width: u32, height: u32, new_width: int, new_height: int) -> bool {
    block(width, new_width) * block(height, new_height) <= MAX_BLOCK
}

fn is_summable(width: u32, height: u32, new_width: u32, new_height: u32) -> (r: bool)
    requires
        new_width > 0,
        new_height > 0,
    ensures
        r == summable(width, height, new_width as int, new_height as int),
{
    let across: u64 = block_of(width, new_width);
    let down: u64 = block_of(height, new_height);
    mul_wide(across as u32, down as u32) <= MAX_BLOCK
}

/// Whether a picture can be scaled: the new picture can be held, and pixels can
/// be added up.
pub open spec fn scalable(width: u32, height: u32, new_width: u32, new_height: u32) -> bool {
    &&& new_width * new_height * 4 <= isize::MAX
    &&& width > 0 && height > 0 && new_width > 0 && new_height > 0 ==> summable(
        width,
        height,
        new_width as int,
        new_height as int,
    )
}

pub fn is_scalable(width: u32, height: u32, new_width: u32, new_height: u32) -> (r: bool)
    ensures
        r == scalable(width, height, new_width, new_height),
{
    if mul_wide(new_width, new_height) > isize::MAX as u64 / 4 {
        return false;
    }
    if width == 0 || height == 0 || new_width == 0 || new_height == 0 {
        return true;
    }
    is_summable(width, height, new_width, new_height)
}

fn mul_wide(a: u32, b: u32) -> (r: u64)
    ensures
        r == a * b,
{
    assert(a * b <= u32::MAX * u32::MAX) by (nonlinear_arith)
        requires
            a <= u32::MAX,
            b <= u32::MAX,
    ;
    a as u64 * b as u64
}

/// `imageops::thumbnail` of the `image` crate on an `ImageBuffer` made by
/// `from_raw`, which refuses a buffer with too few bytes. The scaled picture
/// has exactly the size that was asked for.
#[verifier::external_body]
fn scale(rgba: Vec<u8>, width: u32, height: u32, new_width: u32, new_height: u32) -> (r: Option<
    Vec<u8>,
>)
    requires
        scalable(width, height, new_width, new_height),
    ensures
        r is Some == (rgba@.len() >= width * height * 4),
        r matches Some(p) ==> {
            &&& p@ == scaled_pixels(rgba@, width, height, new_width, new_height)
            &&& p@.len() == new_width * new_height * 4
        },
{
    let img = image::ImageBuffer::<image::Rgba<u8>, Vec<u8>>::from_raw(width, height, rgba)?;
    Some(image::imageops::thumbnail(&img, new_width, new_height).into_raw())
}

/// The least that a side of a picture becomes when the picture is scaled to fit
/// within a size: the ratio of the side that fits more tightly, rounded down,
/// and no less than one.
pub open spec fn fitted_side(side: u32, other: u32, new_side: u32, new_other: u32) -> int {
    let n = side * new_other / other as int;
    if n < 1 {
        1
    } else if n < new_side {
        n
    } else {
        new_side as int
    }
}

fn fitted_side_of(side: u32, other: u32, new_side: u32, new_other: u32) -> (r: u32)
    requires
        other > 0,
        new_side > 0,
    ensures
        r == fitted_side(side, other, new_side, new_other),
        r > 0,
{
    let n: u64 = mul_wide(side, new_other) / other as u64;
    if n < 1 {
        1
    } else if n < new_side as u64 {
        n as u32
    } else {
        new_side
    }
}

/// Whether a picture can be scaled to fit within a size: the new picture can be
/// held, and pixels can be added up.
pub open spec fn fittable(width: u32, height: u32, new_width: u32, new_height: u32) -> bool {
    &&& new_width > 0 && new_height > 0
    &&& new_width * new_height * 4 <= isize::MAX
    &&& width > 0 && height > 0 ==> summable(
        width,
        height,
        fitted_side(width, height, new_width, new_height),
        fitted_side(height, width, new_height, new_width),
    )
}

pub fn is_fittable(width: u32, height: u32, new_width: u32, new_height: u32) -> (r: bool)
    ensures
        r == fittable(width, height, new_width, new_height),
{
    if new_width == 0 || new_height == 0 {
        return false;
    }
    if mul_wide(new_width, new_height) > isize::MAX as u64 / 4 {
        return false;
    }
    if width == 0 || height == 0 {
        return true;
    }
    let w: u32 = fitted_side_of(width, height, new_width, new_height);
    let h: u32 = fitted_side_of(height, width, new_height, new_width);
    is_summable(width, height, w, h)
}

/// `DynamicImage::thumbnail` of the `image` crate on an RGBA picture: the
/// scaled picture fits within the size that was asked for.
#[verifier::external_body]
fn fit(rgba: Vec<u8>, width: u32, height: u32, new_width: u32, new_height: u32) -> (r: Option<
    (Vec<u8>, u32, u32),
>)
    requires
        fittable(width, height, new_width, new_height),
    ensures
        r is Some == (rgba@.len() >= width * height * 4),
        r matches Some(p) ==> {
            &&& (p.0@, p.1, p.2) == fitted_picture(rgba@, width, height, new_width, new_height)
            &&& p.0@.len() == p.1 * p.2 * 4
            &&& 1 <= p.1 <= new_width
            &&& 1 <= p.2 <= new_height
        },
{
    let img = image::ImageBuffer::<image::Rgba<u8>, Vec<u8>>::from_raw(width, height, rgba)?;
    let thumb = image::DynamicImage::ImageRgba8(img).thumbnail(new_width, new_height).to_rgba8();
    let (w, h) = thumb.dimensions();
    Some((thumb.into_raw(), w, h))
}

/// The characters of the standard Base64 alphabet, with its padding.
pub open spec fn base64_char(c: char) -> bool {
    'A' <= c <= 'Z' || 'a' <= c <= 'z' || '0' <= c <= '9' || c == '+' || c == '/' || c == '='
}

/// The most bytes whose Base64 text can be held.
pub open spec fn base64_fits(n: nat) -> bool {
    n <= isize::MAX as nat / 4 * 3
}

pub fn fits_base64(n: usize) -> (r: bool)
    ensures
        r == base64_fits(n as nat),
{
    n <= isize::MAX as usize / 4 * 3
}

/// `Engine::encode` of the `base64` crate with the `STANDARD` engine: a text
/// of the standard alphabet, from which decoding gives the bytes back.
#[verifier::external_body]
pub(crate) fn encode_base64(bytes: &Vec<u8>) -> (s: String)
    requires
        base64_fits(bytes@.len()),
    ensures
        s@ == base64_text(bytes@),
        base64_bytes(s@) == Some(bytes@),
        forall|i: int| 0 <= i < s@.len() ==> base64_char(#[trigger] s@[i]),
{
    base64::engine::general_purpose::STANDARD.encode(bytes)
}

/// `Engine::decode` of the `base64` crate with the `STANDARD` engine.
#[verifier::external_body]
pub(crate) fn decode_base64(text: &str) -> (r: Option<Vec<u8>>)
    ensures
        match r {
            Some(bytes) => base64_bytes(text@) == Some(bytes@),
            None => base64_bytes(text@) is None,
        },
{
    base64::engine::general_purpose::STANDARD.decode(text).ok()
}

/// Why a picture has no PNG file.
#[derive(Clone, Copy, Debug, PartialEq, Eq, Structural)]
pub enum PngError {
    ZeroWidth,
    ZeroHeight,
}

/// Writes an RGBA picture as a PNG file.
pub fn encode_rgba(rgba: &Vec<u8>, width: u32, height: u32) -> (r: Result<Vec<u8>, PngError>)
    requires
        rgba@.len() == width * height * 4,
    ensures
        r is Ok == (width > 0 && height > 0),
        r matches Ok(png) ==> {
            &&& png@ == png_bytes(rgba@, width, height)
            &&& is_png(png@)
            &&& decoded_png(png@) == read_back(rgba@, width, height)
        },
        r matches Err(e) ==> e == (if width == 0 {
            PngError::ZeroWidth
        } else {
            PngError::ZeroHeight
        }),
{
    match write_png(rgba, width, height) {
        Ok(png) => Ok(png),
        Err(_) => if width == 0 {
            Err(PngError::ZeroWidth)
        } else {
            Err(PngError::ZeroHeight)
        },
    }
}

/// Reads the picture in a file, as RGBA pixels with their width and height.
pub fn decode_rgba(bytes: &Vec<u8>) -> (r: Option<(Vec<u8>, u32, u32)>)
    ensures
        r matches Some(p) ==> p.0@.len() == p.1 * p.2 * 4,
        is_png(bytes@) ==> match r {
            Some(p) => decoded_png(bytes@) == Some((p.0@, p.1, p.2)),
            None => decoded_png(bytes@) is None,
        },
        !known_kind(bytes@) ==> r is None,
{
    read_picture(bytes)
}

/// Scales an RGBA picture to exactly the given size.
pub fn scale_rgba(
    rgba: Vec<u8>,
    width: u32,
    height: u32,
    new_width: u32,
    new_height: u32,
) -> (r: Option<Vec<u8>>)
    requires
        scalable(width, height, new_width, new_height),
    ensures
        r is Some == (rgba@.len() >= width * height * 4),
        r matches Some(p) ==> {
            &&& p@ == scaled_pixels(rgba@, width, height, new_width, new_height)
            &&& p@.len() == new_width * new_height * 4
        },
{
    scale(rgba, width, height, new_width, new_height)
}

/// Scales an RGBA picture down to fit within the given size.
pub fn fit_rgba(
    rgba: Vec<u8>,
    width: u32,
    height: u32,
    new_width: u32,
    new_height: u32,
) -> (r: Option<(Vec<u8>, u32, u32)>)
    requires
        fittable(width, height, new_width, new_height),
    ensures
        r is Some == (rgba@.len() >= width * height * 4),
        r matches Some(p) ==> {
            &&& (p.0@, p.1, p.2) == fitted_picture(rgba@, width, height, new_width, new_height)
            &&& p.0@.len() == p.1 * p.2 * 4
            &&& 1 <= p.1 <= new_width
            &&& 1 <= p.2 <= new_height
        },
{
    fit(rgba, width, height, new_width, new_height)
}

/// The bytes of a picture with red and blue exchanged in each pixel, without
/// the bytes after the last whole pixel.
pub open spec fn swapped(bytes: Seq<u8>) -> Seq<u8> {
    Seq::new(
        (bytes.len() / 4 * 4) as nat,
        |i: int|
            if i % 4 == 0 {
                bytes[i + 2]
            } else if i % 4 == 2 {
                bytes[i - 2]
            } else {
                bytes[i]
            },
    )
}

/// The bytes of a picture with every pixel made opaque.
pub open spec fn solid(bytes: Seq<u8>) -> Seq<u8> {
    bytes.map(
        |i: int, b: u8|
            if i % 4 == 3 {
                255u8
            } else {
                b
            },
    )
}

/// A BGRA picture as opaque RGBA, and the other way round.
pub open spec fn opaque(bytes: Seq<u8>) -> Seq<u8> {
    solid(swapped(bytes))
}

/// Exchanges red and blue in each pixel.
pub fn swap_red_blue(bytes: &Vec<u8>) -> (r: Vec<u8>)
    ensures
        r@ == swapped(bytes@),
{
    let n: usize = bytes.len() / 4;
    let mut r: Vec<u8> = Vec::new();
    for p in 0..n
        invariant
            n == bytes@.len() / 4,
            r@.len() == 4 * p,
            forall|i: int| 0 <= i < 4 * p ==> r@[i] == swapped(bytes@)[i],
    {
        let v: Pixel = get_px(bytes, p);
        r.push(v.2);
        r.push(v.1);
        r.push(v.0);
        r.push(v.3);
    }
    assert(r@ =~= swapped(bytes@));
    r
}

/// Exchanges red and blue in each pixel and makes it opaque.
pub fn to_opaque(bytes: &Vec<u8>) -> (r: Vec<u8>)
    ensures
        r@ == opaque(bytes@),
{
    let n: usize = bytes.len() / 4;
    let mut r: Vec<u8> = Vec::new();
    for p in 0..n
        invariant
            n == bytes@.len() / 4,
            r@.len() == 4 * p,
            forall|i: int| 0 <= i < 4 * p ==> r@[i] == opaque(bytes@)[i],
    {
        let v: Pixel = get_px(bytes, p);
        r.push(v.2);
        r.push(v.1);
        r.push(v.0);
        r.push(255);
    }
    assert(r@ =~= opaque(bytes@));
    r
}

/// Exchanging red and blue twice changes nothing.
pub proof fn law_swapping_twice_changes_nothing(bytes: Seq<u8>)
    requires
        bytes.len() % 4 == 0,
    ensures
        swapped(swapped(bytes)) == bytes,
{
    assert(swapped(swapped(bytes)) =~= bytes);
}

/// A pixel keeps its place: each of its channels is found where it belongs.
pub proof fn law_opaque_pixels(bytes: Seq<u8>, p: int)
    requires
        0 <= p < bytes.len() / 4,
    ensures
        px(opaque(bytes), p) == (
            px(bytes, p).2,
            px(bytes, p).1,
            px(bytes, p).0,
            255u8,
        ),
{
}

/// The alpha of a picture does not matter once it is made opaque.
pub proof fn law_alpha_is_ignored(a: Seq<u8>, b: Seq<u8>)
    requires
        a.len() == b.len(),
        forall|i: int| 0 <= i < a.len() && i % 4 != 3 ==> a[i] == b[i],
    ensures
        opaque(a) == opaque(b),
{
    assert(opaque(a) =~= opaque(b));
}

/// What comes before the Base64 text in a PNG data URL.
pub open spec fn url_prefix() -> Seq<char> {
    "data:image/png;base64,"@
}

/// A PNG data URL with the given Base64 text.
pub open spec fn data_url(b64: Seq<char>) -> Seq<char> {
    url_prefix() + b64
}

pub fn make_data_url(b64: &str) -> (s: String)
    ensures
        s@ == data_url(b64@),
{
    let mut s = "data:image/png;base64,".to_owned();
    s.append(b64);
    s
}

/// What comes after the first comma of a text, or all of it where there is
/// none.
pub open spec fn after_comma(s: Seq<char>) -> Seq<char>
    decreases s.len(),
{
    if !s.contains(',') {
        s
    } else if s.first() == ',' {
        s.skip(1)
    } else {
        after_comma(s.skip(1))
    }
}

/// The Base64 text of a data URL.
pub fn url_payload(url: &str) -> (r: String)
    ensures
        r@ == after_comma(url@),
{
    let v = chars_of(url);
    let n: usize = v.len();
    let mut i: usize = 0;
    assert(v@.skip(0) =~= v@);
    while i < n && v[i] != ','
        invariant
            i <= n,
            n == v@.len(),
            forall|j: int| 0 <= j < i ==> v@[j] != ',',
            v@.contains(',') ==> after_comma(v@) == after_comma(v@.skip(i as int)),
            v@.contains(',') == v@.skip(i as int).contains(','),
        decreases n - i,
    {
        proof {
            let s = v@.skip(i as int);
            let t = v@.skip(i + 1);
            assert(s.skip(1) =~= t);
            assert(s.first() != ',');
            if s.contains(',') {
                let k = choose|k: int| 0 <= k < s.len() && s[k] == ',';
                assert(t[k - 1] == ',');
            }
            if t.contains(',') {
                let k = choose|k: int| 0 <= k < t.len() && t[k] == ',';
                assert(s[k + 1] == ',');
            }
        }
        i = i + 1;
    }
    if i == n {
        proof {
            assert(!v@.contains(','));
        }
        return string_of(&v);
    }
    let mut rest: Vec<char> = Vec::new();
    let start: usize = i + 1;
    for j in start..n
        invariant
            n == v@.len(),
            start <= n,
            rest@ == v@.subrange(start as int, j as int),
    {
        rest.push(v[j]);
    }
    proof {
        let s = v@.skip(i as int);
        assert(s[0] == ',');
        assert(s.contains(','));
        assert(s.first() == ',');
        assert(rest@ =~= s.skip(1));
    }
    string_of(&rest)
}

/// The bytes of a data URL.
pub fn decode_url(url: &str) -> (r: Option<Vec<u8>>)
    ensures
        match r {
            Some(bytes) => base64_bytes(after_comma(url@)) == Some(bytes@),
            None => base64_bytes(after_comma(url@)) is None,
        },
{
    let text = url_payload(url);
    decode_base64(text.as_str())
}

proof fn lemma_after_comma(head: Seq<char>, tail: Seq<char>)
    requires
        forall|i: int| 0 <= i < head.len() ==> head[i] != ',',
    ensures
        after_comma(head + seq![','] + tail) == tail,
    decreases head.len(),
{
    let s = head + seq![','] + tail;
    assert(s[head.len() as int] == ',');
    assert(s.contains(','));
    if head.len() == 0 {
        assert(s.skip(1) =~= tail);
    } else {
        assert(s.first() == head[0]);
        assert(s.skip(1) =~= head.skip(1) + seq![','] + tail);
        lemma_after_comma(head.skip(1), tail);
    }
}

/// Reading the payload of a data URL gives back the text it was made with.
pub proof fn law_data_url_round_trip(b64: Seq<char>)
    ensures
        after_comma(data_url(b64)) == b64,
{
    reveal_strlit("data:image/png;base64,");
    let head = url_prefix().drop_last();
    assert(url_prefix() =~= head + seq![',']);
    assert(data_url(b64) =~= head + seq![','] + b64);
    lemma_after_comma(head, b64);
}

/// Exchanging red and blue puts the third byte of a pixel first and the first
/// one third; green and alpha stay, and so does the pixel's place.
pub proof fn law_swapped_bytes(bytes: Seq<u8>, p: int)
    requires
        0 <= p,
        4 * p + 4 <= bytes.len(),
    ensures
        swapped(bytes).len() == bytes.len() / 4 * 4,
        swapped(bytes)[4 * p] == bytes[4 * p + 2],
        swapped(bytes)[4 * p + 1] == bytes[4 * p + 1],
        swapped(bytes)[4 * p + 2] == bytes[4 * p],
        swapped(bytes)[4 * p + 3] == bytes[4 * p + 3],
{
}

/// A picture made opaque has its colours in the other order and the greatest
/// alpha in each pixel.
pub proof fn law_opaque_bytes(bytes: Seq<u8>, p: int)
    requires
        0 <= p,
        4 * p + 4 <= bytes.len(),
    ensures
        opaque(bytes).len() == bytes.len() / 4 * 4,
        opaque(bytes)[4 * p] == bytes[4 * p + 2],
        opaque(bytes)[4 * p + 1] == bytes[4 * p + 1],
        opaque(bytes)[4 * p + 2] == bytes[4 * p],
        opaque(bytes)[4 * p + 3] == 255,
{
}

/// The payload of a text is what follows its first comma; a text without one is
/// its own payload.
pub proof fn law_payloads_follow_the_first_comma(head: Seq<char>, tail: Seq<char>)
    requires
        forall|i: int| 0 <= i < head.len() ==> head[i] != ',',
    ensures
        after_comma(head + seq![','] + tail) == tail,
        after_comma(head) == head,
{
    lemma_after_comma(head, tail);
}

/// A data URL says what it holds and how, and then holds it.
pub proof fn law_data_urls_hold_their_text(b64: Seq<char>)
    ensures
        data_url(b64).len() == "data:image/png;base64,"@.len() + b64.len(),
        data_url(b64).take("data:image/png;base64,"@.len() as int) == "data:image/png;base64,"@,
        data_url(b64).skip("data:image/png;base64,"@.len() as int) == b64,
{
    let head = "data:image/png;base64,"@;
    assert(data_url(b64).take(head.len() as int) =~= head);
    assert(data_url(b64).skip(head.len() as int) =~= b64);
}

/// A picture of up to 512 MiB is read back as it was written.
pub proof fn law_written_pictures_are_read_back(rgba: Seq<u8>, width: u32, height: u32)
    ensures
        rgba.len() <= 512 * 1024 * 1024 ==> read_back(rgba, width, height) == Some(
            (rgba, width, height),
        ),
{
}

} // verus!

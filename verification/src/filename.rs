//! Screenshot file naming, PNG encoding, and directory helpers.

use vstd::prelude::*;

use crate::encoding::{
    decoded_png, encode_rgba, is_png, opaque, png_bytes, read_back, scalable, scale_rgba,
    scaled_pixels, to_opaque, PngError,
};
use crate::text::{
    chars_of, contains, decimal, decimal_of, find_from, is_digit, lemma_decimal_injective,
    replace_all, replaced, string_of, trim, trimmed,
};

verus! {

/// Whether a path ends where a name can be put right behind it: at a
/// separator, or as a bare drive.
pub open spec fn takes_name(dir: Seq<char>) -> bool {
    ||| dir.last() == '\\'
    ||| dir.last() == '/'
    ||| dir.len() == 2 && dir[1] == ':' && ('A' <= dir[0] <= 'Z' || 'a' <= dir[0] <= 'z')
}

/// The path of a name in a directory.
pub open spec fn in_dir(dir: Seq<char>, name: Seq<char>) -> Seq<char> {
    if dir.len() == 0 {
        name
    } else if takes_name(dir) {
        dir + name
    } else {
        dir + seq!['\\'] + name
    }
}

pub fn join_path(dir: &str, name: &str) -> (r: String)
    ensures
        r@ == in_dir(dir@, name@),
{
    let d = chars_of(dir);
    let n: usize = d.len();
    if n == 0 {
        return name.to_owned();
    }
    let last = d[n - 1];
    let drive = n == 2 && d[1] == ':' && (('A' <= d[0] && d[0] <= 'Z') || ('a' <= d[0] && d[0]
        <= 'z'));
    let mut r = dir.to_owned();
    if !(last == '\\' || last == '/' || drive) {
        r.push('\\');
    }
    r.append(name);
    assert(r@ =~= in_dir(dir@, name@));
    r
}

/// The default capture directory: `Pictures\SnapDrop` in the user's profile,
/// or in the current directory where there is no profile.
pub open spec fn default_dir(profile: Option<Seq<char>>) -> Seq<char> {
    match profile {
        Some(p) => in_dir(in_dir(p, "Pictures"@), "SnapDrop"@),
        None => in_dir("Pictures"@, "SnapDrop"@),
    }
}

pub open spec fn text_of(s: Option<&str>) -> Option<Seq<char>> {
    match s {
        Some(t) => Some(t@),
        None => None,
    }
}

/// `profile` is the value of `%USERPROFILE%`, where it is set.
pub fn default_screenshot_dir(profile: Option<&str>) -> (r: String)
    ensures
        r@ == default_dir(text_of(profile)),
{
    match profile {
        Some(p) => {
            let pictures = join_path(p, "Pictures");
            join_path(pictures.as_str(), "SnapDrop")
        },
        None => join_path("Pictures", "SnapDrop"),
    }
}

/// The place-holder for the user's profile in a configured path.
pub open spec fn profile_mark() -> Seq<char> {
    "%USERPROFILE%"@
}

/// A configured path without blanks around it and with `%USERPROFILE%`
/// expanded; a blank one stands for the default directory.
pub open spec fn expanded(raw: Seq<char>, profile: Option<Seq<char>>) -> Seq<char> {
    let t = trim(raw);
    if t.len() == 0 {
        default_dir(profile)
    } else {
        match profile {
            Some(p) => replace_all(t, profile_mark(), p),
            None => t,
        }
    }
}

proof fn lemma_nothing_to_replace(s: Seq<char>, pat: Seq<char>, with: Seq<char>)
    requires
        !contains(s, pat),
    ensures
        replace_all(s, pat, with) == s,
    decreases s.len(),
{
    if pat.len() > 0 && s.len() > 0 {
        if crate::text::begins_with(s, pat) {
            assert(crate::text::stands_at(s, pat, 0)) by {
                assert(s.subrange(0, pat.len() as int) =~= pat);
            }
        }
        let t = s.skip(1);
        assert(!contains(t, pat)) by {
            if contains(t, pat) {
                let at = choose|at: int| crate::text::stands_at(t, pat, at);
                assert(s.subrange(at + 1, at + 1 + pat.len()) =~= t.subrange(at, at + pat.len()));
                assert(crate::text::stands_at(s, pat, at + 1));
            }
        }
        lemma_nothing_to_replace(t, pat, with);
        assert(seq![s.first()] + t =~= s);
    }
}

/// Expand `%USERPROFILE%` in a configured path.
pub fn expand_dir(raw: &str, profile: Option<&str>) -> (r: String)
    ensures
        r@ == expanded(raw@, text_of(profile)),
{
    let t = trimmed(&chars_of(raw));
    if t.len() == 0 {
        return default_screenshot_dir(profile);
    }
    let mark = chars_of("%USERPROFILE%");
    if let Some(p) = profile {
        match find_from(&t, &mark, 0) {
            Some(_) => {
                return string_of(&replaced(&t, &mark, &chars_of(p)));
            },
            None => {
                proof {
                    assert(!contains(t@, mark@)) by {
                        if contains(t@, mark@) {
                            let at = choose|at: int| crate::text::stands_at(t@, mark@, at);
                            assert(0 <= at);
                        }
                    }
                    lemma_nothing_to_replace(t@, mark@, p@);
                }
            },
        }
    }
    string_of(&t)
}

/// The file that is written to find out whether a directory takes files.
pub fn probe_path(dir: &str, process_id: u32) -> (r: String)
    ensures
        r@ == in_dir(dir@, ".snapdrop_write_test_"@ + decimal(process_id as nat)),
{
    let mut name = ".snapdrop_write_test_".to_owned();
    name.append(decimal_of(process_id as u64).as_str());
    join_path(dir, name.as_str())
}

/// Whether a directory can be used, from what came of creating it and of
/// writing a file into it.
pub fn ensure_dir_writable(
    dir: &str,
    created: Result<(), String>,
    written: Result<(), String>,
) -> (r: Result<(), String>)
    ensures
        match (created, written) {
            (Err(e), _) => r matches Err(m) && m@ == "Cannot create folder "@ + dir@ + ": "@ + e@,
            (Ok(_), Err(e)) => r matches Err(m) && m@ == "Folder "@ + dir@ + " is not writable: "@
                + e@,
            (Ok(_), Ok(_)) => r is Ok,
        },
{
    match created {
        Err(e) => {
            let mut m = "Cannot create folder ".to_owned();
            m.append(dir);
            m.append(": ");
            m.append(e.as_str());
            Err(m)
        },
        Ok(_) => match written {
            Err(e) => {
                let mut m = "Folder ".to_owned();
                m.append(dir);
                m.append(" is not writable: ");
                m.append(e.as_str());
                Err(m)
            },
            Ok(_) => Ok(()),
        },
    }
}

/// The `n`th name that is tried for a screenshot taken at the given time:
/// `SnapDrop_<stamp>.png`, then with `_1`, `_2` and so on behind the stamp.
pub open spec fn candidate_name(stamp: Seq<char>, n: nat) -> Seq<char> {
    if n == 0 {
        "SnapDrop_"@ + stamp + ".png"@
    } else {
        "SnapDrop_"@ + stamp + "_"@ + decimal(n) + ".png"@
    }
}

/// The search for a file name that is not taken yet.
pub struct NameSearch {
    pub dir: String,
    pub stamp: String,
    pub n: u32,
}

impl NameSearch {
    /// The path to try next.
    pub open spec fn path(self) -> Seq<char> {
        in_dir(self.dir@, candidate_name(self.stamp@, self.n as nat))
    }

    pub fn candidate(&self) -> (r: String)
        ensures
            r@ == self.path(),
    {
        let mut name = "SnapDrop_".to_owned();
        name.append(self.stamp.as_str());
        if self.n > 0 {
            name.append("_");
            name.append(decimal_of(self.n as u64).as_str());
        }
        name.append(".png");
        assert(name@ =~= candidate_name(self.stamp@, self.n as nat));
        join_path(self.dir.as_str(), name.as_str())
    }

    /// Takes the answer whether the current path is taken: one that is not is
    /// the result, else the search goes on to the next.
    pub fn step(&mut self, taken: bool) -> (r: Option<String>)
        requires
            taken ==> old(self).n < u32::MAX,
        ensures
            final(self).dir@ == old(self).dir@,
            final(self).stamp@ == old(self).stamp@,
            final(self).n == (if taken {
                old(self).n + 1
            } else {
                old(self).n as int
            }),
            match r {
                Some(path) => !taken && path@ == old(self).path(),
                None => taken,
            },
    {
        if taken {
            self.n = self.n + 1;
            None
        } else {
            Some(self.candidate())
        }
    }
}

/// Whether a text ends in six digits.
pub open spec fn ends_in_time(s: Seq<char>) -> bool {
    &&& s.len() >= 6
    &&& forall|i: int| s.len() - 6 <= i < s.len() ==> is_digit(#[trigger] s[i])
}

/// Whether a text is a year: four digits, or more with a sign.
pub open spec fn is_year(s: Seq<char>) -> bool {
    &&& s.len() >= 4
    &&& is_digit(s[0]) || s[0] == '+' || s[0] == '-'
    &&& forall|i: int| 1 <= i < s.len() ==> is_digit(#[trigger] s[i])
}

/// Whether a text is the time in a screenshot's name, such as
/// `2026-01-31_235959`.
pub open spec fn is_shot_stamp(s: Seq<char>) -> bool {
    let n = s.len() as int;
    &&& n >= 17 && is_year(s.take(n - 13)) && ends_in_time(s)
    &&& s[n - 13] == '-' && is_digit(s[n - 12]) && is_digit(s[n - 11])
    &&& s[n - 10] == '-' && is_digit(s[n - 9]) && is_digit(s[n - 8])
    &&& s[n - 7] == '_'
}

/// Whether a text is the time in a recording's name, such as
/// `20260131-235959`.
pub open spec fn is_video_stamp(s: Seq<char>) -> bool {
    let n = s.len() as int;
    &&& n >= 15 && is_year(s.take(n - 11)) && ends_in_time(s)
    &&& is_digit(s[n - 11]) && is_digit(s[n - 10]) && is_digit(s[n - 9]) && is_digit(s[n - 8])
    &&& s[n - 7] == '-'
}

/// The pattern of the time in a screenshot's name.
pub const SHOT_PATTERN: &'static str = "%Y-%m-%d_%H%M%S";

/// The pattern of the time in a recording's name.
pub const VIDEO_PATTERN: &'static str = "%Y%m%d-%H%M%S";

/// `Local::now` of the `chrono` crate, with `DateTime::format` and either of
/// the two patterns of digits. The time is whatever the clock says: of the
/// text only its shape is known.
#[verifier::external_body]
fn local_stamp(pattern: &str) -> (s: String)
    requires
        pattern@ == SHOT_PATTERN@ || pattern@ == VIDEO_PATTERN@,
    ensures
        pattern@ == SHOT_PATTERN@ ==> is_shot_stamp(s@),
        pattern@ == VIDEO_PATTERN@ ==> is_video_stamp(s@),
{
    chrono::Local::now().format(pattern).to_string()
}

/// Whether a text is a date, a `T`, a time of day, perhaps a fraction of a
/// second, and an offset from UTC, where the year takes `y` characters.
pub open spec fn is_time_from(s: Seq<char>, y: int) -> bool {
    let n = s.len() as int;
    &&& y >= 4 && n >= y + 21 && is_year(s.take(y))
    &&& s[y] == '-' && is_digit(s[y + 1]) && is_digit(s[y + 2])
    &&& s[y + 3] == '-' && is_digit(s[y + 4]) && is_digit(s[y + 5])
    &&& s[y + 6] == 'T' && is_digit(s[y + 7]) && is_digit(s[y + 8])
    &&& s[y + 9] == ':' && is_digit(s[y + 10]) && is_digit(s[y + 11])
    &&& s[y + 12] == ':' && is_digit(s[y + 13]) && is_digit(s[y + 14])
    &&& n > y + 21 ==> s[y + 15] == '.'
    &&& forall|i: int| y + 16 <= i < n - 6 ==> is_digit(#[trigger] s[i])
    &&& s[n - 6] == '+' || s[n - 6] == '-'
    &&& is_digit(s[n - 5]) && is_digit(s[n - 4]) && s[n - 3] == ':'
    &&& is_digit(s[n - 2]) && is_digit(s[n - 1])
}

/// Whether a text is a point in time, such as
/// `2026-01-31T23:59:59.123456+01:00`.
pub open spec fn is_time(s: Seq<char>) -> bool {
    exists|y: int| is_time_from(s, y)
}

/// `DateTime::to_rfc3339` of the `chrono` crate on `Local::now`: the current
/// time, whatever it is. Of the text only its shape is known.
#[verifier::external_body]
pub(crate) fn timestamp() -> (s: String)
    ensures
        is_time(s@),
{
    chrono::Local::now().to_rfc3339()
}

/// The name search for a screenshot with the given time stamp.
pub fn search_at(dir: &str, stamp: &str) -> (s: NameSearch)
    ensures
        s.dir@ == dir@,
        s.stamp@ == stamp@,
        s.n == 0,
{
    NameSearch { dir: dir.to_owned(), stamp: stamp.to_owned(), n: 0 }
}

/// Starts the search for the next unique file name in a directory, at the
/// current time.
pub fn next_filename(dir: &str) -> (s: NameSearch)
    ensures
        s.dir@ == dir@,
        s.n == 0,
        is_shot_stamp(s.stamp@),
{
    let stamp = local_stamp(SHOT_PATTERN);
    search_at(dir, stamp.as_str())
}

/// The path of a recording made at the given time.
pub open spec fn video_path_at(dir: Seq<char>, stamp: Seq<char>) -> Seq<char> {
    in_dir(dir, "SnapDrop_video_"@ + stamp + ".mp4"@)
}

pub fn video_path_for(dir: &str, stamp: &str) -> (r: String)
    ensures
        r@ == video_path_at(dir@, stamp@),
{
    let mut name = "SnapDrop_video_".to_owned();
    name.append(stamp);
    name.append(".mp4");
    join_path(dir, name.as_str())
}

/// The path of a recording made now.
pub fn video_path(dir: &str) -> (r: String)
    ensures
        exists|stamp: Seq<char>|
            is_video_stamp(stamp) && r@ == #[trigger] video_path_at(dir@, stamp),
{
    let stamp = local_stamp(VIDEO_PATTERN);
    let r = video_path_for(dir, stamp.as_str());
    assert(r@ == video_path_at(dir@, stamp@));
    r
}

/// Encode a BGRA buffer (alpha ignored) into PNG bytes. Only a picture without
/// width or height has no PNG file.
pub fn encode_png(bgra: &Vec<u8>, width: u32, height: u32) -> (r: Result<Vec<u8>, PngError>)
    requires
        bgra@.len() / 4 == width * height,
    ensures
        r is Ok == (width > 0 && height > 0),
        r matches Ok(png) ==> {
            &&& png@ == png_bytes(opaque(bgra@), width, height)
            &&& is_png(png@)
            &&& decoded_png(png@) == read_back(opaque(bgra@), width, height)
        },
        r matches Err(e) ==> e == (if width == 0 {
            PngError::ZeroWidth
        } else {
            PngError::ZeroHeight
        }),
{
    let rgba = to_opaque(bgra);
    assert(rgba@.len() == width * height * 4);
    encode_rgba(&rgba, width, height)
}

/// The size of a preview: the picture's own where it fits within `max_dim`,
/// else the scaled one, at least one pixel each way.
pub open spec fn preview_size(width: u32, height: u32, max_dim: u32, scaled: (u32, u32)) -> (
    u32,
    u32,
) {
    if width <= max_dim && height <= max_dim {
        (width, height)
    } else {
        (
            if scaled.0 >= 1 {
                scaled.0
            } else {
                1
            },
            if scaled.1 >= 1 {
                scaled.1
            } else {
                1
            },
        )
    }
}

pub fn fit_size(width: u32, height: u32, max_dim: u32, scaled: (u32, u32)) -> (r: (u32, u32))
    ensures
        r == preview_size(width, height, max_dim, scaled),
{
    if width <= max_dim && height <= max_dim {
        (width, height)
    } else {
        (
            if scaled.0 >= 1 {
                scaled.0
            } else {
                1
            },
            if scaled.1 >= 1 {
                scaled.1
            } else {
                1
            },
        )
    }
}

/// Downscale a BGRA buffer to fit within `max_dim` and encode as a small PNG
/// (for previews). `scaled` is the picture's size scaled down to `max_dim`, for
/// a picture that is larger. A buffer with too few bytes, or a preview without
/// pixels, has none.
pub fn preview_png(
    bgra: &Vec<u8>,
    width: u32,
    height: u32,
    max_dim: u32,
    scaled: (u32, u32),
) -> (r: Option<Vec<u8>>)
    requires
        scalable(
            width,
            height,
            preview_size(width, height, max_dim, scaled).0,
            preview_size(width, height, max_dim, scaled).1,
        ),
    ensures
        ({
            let (tw, th) = preview_size(width, height, max_dim, scaled);
            &&& r is Some == (bgra@.len() / 4 >= width * height && tw > 0 && th > 0)
            &&& r matches Some(png) ==> {
                &&& png@ == png_bytes(
                    scaled_pixels(opaque(bgra@), width, height, tw, th),
                    tw,
                    th,
                )
                &&& is_png(png@)
                &&& decoded_png(png@) == read_back(
                    scaled_pixels(opaque(bgra@), width, height, tw, th),
                    tw,
                    th,
                )
                &&& scaled_pixels(opaque(bgra@), width, height, tw, th).len() == tw * th * 4
            }
        }),
{
    let rgba = to_opaque(bgra);
    let (tw, th) = fit_size(width, height, max_dim, scaled);
    match scale_rgba(rgba, width, height, tw, th) {
        None => None,
        Some(thumb) => match encode_rgba(&thumb, tw, th) {
            Ok(png) => Some(png),
            Err(_) => None,
        },
    }
}

proof fn lemma_cancel_left(a: Seq<char>, b: Seq<char>, c: Seq<char>)
    requires
        a + b == a + c,
    ensures
        b == c,
{
    assert(b =~= (a + b).skip(a.len() as int));
    assert(c =~= (a + c).skip(a.len() as int));
}

proof fn lemma_cancel_right(a: Seq<char>, b: Seq<char>, c: Seq<char>)
    requires
        a + c == b + c,
    ensures
        a == b,
{
    assert((a + c).len() == (b + c).len());
    assert((a + c).len() == a.len() + c.len());
    assert((b + c).len() == b.len() + c.len());
    assert(a =~= (a + c).take(a.len() as int));
    assert(b =~= (b + c).take(a.len() as int));
}

/// No name is tried twice.
pub proof fn law_candidates_differ(stamp: Seq<char>, m: nat, n: nat)
    requires
        candidate_name(stamp, m) == candidate_name(stamp, n),
    ensures
        m == n,
{
    let head = "SnapDrop_"@ + stamp;
    let tail = ".png"@;
    let a = if m == 0 {
        Seq::empty()
    } else {
        "_"@ + decimal(m)
    };
    let b = if n == 0 {
        Seq::empty()
    } else {
        "_"@ + decimal(n)
    };
    assert(candidate_name(stamp, m) =~= head + a + tail);
    assert(candidate_name(stamp, n) =~= head + b + tail);
    lemma_cancel_right(head + a, head + b, tail);
    lemma_cancel_left(head, a, b);
    reveal_strlit("_");
    if m == 0 || n == 0 {
        assert(m == n);
    } else {
        lemma_cancel_left("_"@, decimal(m), decimal(n));
        lemma_decimal_injective(m, n);
    }
}

/// A configured path without the place-holder is used as it stands.
pub proof fn law_plain_paths_are_kept(raw: Seq<char>, profile: Option<Seq<char>>)
    requires
        trim(raw).len() > 0,
        !contains(trim(raw), profile_mark()),
    ensures
        expanded(raw, profile) == trim(raw),
{
    match profile {
        Some(p) => {
            lemma_nothing_to_replace(trim(raw), profile_mark(), p);
        },
        None => {},
    }
}

/// A path that starts with the place-holder expands to one that starts with
/// the profile.
pub proof fn law_profile_is_put_in_front(raw: Seq<char>, profile: Seq<char>)
    requires
        crate::text::begins_with(trim(raw), profile_mark()),
    ensures
        crate::text::begins_with(expanded(raw, Some(profile)), profile),
{
    reveal_strlit("%USERPROFILE%");
    let t = trim(raw);
    let rest = replace_all(t.skip(profile_mark().len() as int), profile_mark(), profile);
    assert(expanded(raw, Some(profile)) == profile + rest);
    assert((profile + rest).take(profile.len() as int) =~= profile);
}

/// The path of a name in a directory starts with the directory, ends with the
/// name, and has nothing but one separator between them, and that only where
/// the directory does not end with one already.
pub proof fn law_paths_end_with_their_name(dir: Seq<char>, name: Seq<char>)
    ensures
        ({
            let p = in_dir(dir, name);
            let gap = p.len() - dir.len() - name.len();
            &&& 0 <= gap <= 1
            &&& crate::text::begins_with(p, dir)
            &&& crate::text::finishes_with(p, name)
            &&& gap == 1 ==> p[dir.len() as int] == '\\'
            &&& dir.len() == 0 ==> p == name
            &&& dir.len() > 0 && (dir.last() == '\\' || dir.last() == '/') ==> gap == 0
            &&& dir.len() > 2 && dir.last() != '\\' && dir.last() != '/' ==> gap == 1
        }),
{
    let p = in_dir(dir, name);
    assert(p.take(dir.len() as int) =~= dir);
    assert(p.skip(p.len() - name.len()) =~= name);
}

/// The names of screenshots start with the app's name and the time, and end as
/// PNG files; the first that is tried has nothing in between, and the others
/// their number.
pub proof fn law_candidates_hold_the_time(stamp: Seq<char>, n: nat)
    ensures
        crate::text::begins_with(candidate_name(stamp, n), "SnapDrop_"@ + stamp),
        crate::text::finishes_with(candidate_name(stamp, n), ".png"@),
        n == 0 ==> candidate_name(stamp, n).len() == "SnapDrop_"@.len() + stamp.len()
            + ".png"@.len(),
        n > 0 ==> crate::text::finishes_with(
            candidate_name(stamp, n),
            "_"@ + decimal(n) + ".png"@,
        ),
{
    let c = candidate_name(stamp, n);
    let head = "SnapDrop_"@ + stamp;
    assert(c.take(head.len() as int) =~= head);
    assert(c.skip(c.len() - ".png"@.len()) =~= ".png"@);
    if n > 0 {
        let tail = "_"@ + decimal(n) + ".png"@;
        assert(c.skip(c.len() - tail.len()) =~= tail);
    }
}

/// Recordings are kept in their directory as MP4 files that hold the time.
pub proof fn law_recordings_hold_the_time(dir: Seq<char>, stamp: Seq<char>)
    ensures
        crate::text::begins_with(video_path_at(dir, stamp), dir),
        crate::text::finishes_with(
            video_path_at(dir, stamp),
            "SnapDrop_video_"@ + stamp + ".mp4"@,
        ),
        crate::text::finishes_with(video_path_at(dir, stamp), ".mp4"@),
{
    let name = "SnapDrop_video_"@ + stamp + ".mp4"@;
    let p = video_path_at(dir, stamp);
    law_paths_end_with_their_name(dir, name);
    assert(name.skip(name.len() - ".mp4"@.len()) =~= ".mp4"@);
    assert(p.skip(p.len() - ".mp4"@.len()) =~= p.skip(p.len() - name.len()).skip(
        name.len() - ".mp4"@.len(),
    ));
}

/// The default directory is in the user's profile, and a blank path stands for
/// it; without a profile a path is taken as it is, but for the blanks around
/// it.
pub proof fn law_default_directory(raw: Seq<char>, profile: Seq<char>)
    ensures
        crate::text::begins_with(default_dir(Some(profile)), profile),
        crate::text::finishes_with(default_dir(Some(profile)), "SnapDrop"@),
        trim(raw).len() == 0 ==> expanded(raw, Some(profile)) == default_dir(Some(profile)),
        trim(raw).len() == 0 ==> expanded(raw, None) == default_dir(None),
        trim(raw).len() > 0 ==> expanded(raw, None) == trim(raw),
{
    let a = in_dir(profile, "Pictures"@);
    let p = in_dir(a, "SnapDrop"@);
    law_paths_end_with_their_name(profile, "Pictures"@);
    law_paths_end_with_their_name(a, "SnapDrop"@);
    assert(p.take(profile.len() as int) =~= p.take(a.len() as int).take(profile.len() as int));
}

/// A picture that fits keeps its size; any other gets the size that it was
/// scaled to, and is never without pixels.
pub proof fn law_preview_sizes(width: u32, height: u32, max_dim: u32, scaled: (u32, u32))
    ensures
        ({
            let p = preview_size(width, height, max_dim, scaled);
            &&& width <= max_dim && height <= max_dim ==> p.0 == width && p.1 == height
            &&& width > max_dim || height > max_dim ==> {
                &&& p.0 >= 1 && p.1 >= 1
                &&& scaled.0 >= 1 ==> p.0 == scaled.0
                &&& scaled.1 >= 1 ==> p.1 == scaled.1
            }
        }),
{
}

/// A name comes right behind a bare drive, which is a letter and a colon; any
/// other short path gets a separator.
pub proof fn law_names_follow_drives(c: char, name: Seq<char>)
    ensures
        ({
            let drive = seq![c, ':'];
            let letter = 'A' <= c <= 'Z' || 'a' <= c <= 'z';
            &&& letter ==> in_dir(drive, name) == drive + name
            &&& !letter ==> in_dir(drive, name) == drive + seq!['\\'] + name
        }),
{
    let drive = seq![c, ':'];
    assert(drive.last() == ':' && drive[1] == ':' && drive[0] == c);
}

} // verus!

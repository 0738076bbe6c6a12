//! Text recognition: what is handed to the recognizer, and what becomes of the
//! text that it finds.

use vstd::prelude::*;

use crate::text::{
    chars_of, join, joined, lacks, lemma_split_join, lemma_split_lacks, lemma_trim,
    split, split_on, trim, trim_free, trimmed, views,
};

verus! {

/// Whether a picture can be handed to the recognizer: it has pixels, and bytes
/// for each of them.
pub fn check_picture(bgra_len: usize, width: u32, height: u32) -> (r: Result<(), String>)
    ensures
        match r {
            Ok(_) => width > 0 && height > 0 && bgra_len >= width * height * 4,
            Err(e) => (width == 0 || height == 0 || bgra_len < width * height * 4) && e@
                == "Empty capture region"@,
        },
{
    assert(width * height <= 0xffff_ffff * 0xffff_ffff) by (nonlinear_arith)
        requires
            width <= 0xffff_ffff,
            height <= 0xffff_ffff,
    ;
    if width == 0 || height == 0 || (bgra_len as u128) < width as u128 * height as u128 * 4 {
        Err("Empty capture region".to_owned())
    } else {
        Ok(())
    }
}

/// The step at which recognition failed.
#[derive(Clone, Copy, Debug, PartialEq, Eq, Structural)]
pub enum OcrStep {
    Buffer,
    Bitmap,
    Engine,
    Recognition,
    Text,
}

pub open spec fn step_label(step: OcrStep) -> Seq<char> {
    match step {
        OcrStep::Buffer => "OCR buffer: "@,
        OcrStep::Bitmap => "OCR bitmap: "@,
        OcrStep::Engine => "OCR engine: "@,
        OcrStep::Recognition => "OCR recognition failed: "@,
        OcrStep::Text => "OCR text: "@,
    }
}

/// What is said of a failure at a step.
pub fn step_error(step: OcrStep, reason: &str) -> (r: String)
    ensures
        r@ == step_label(step) + reason@,
{
    let mut m = match step {
        OcrStep::Buffer => "OCR buffer: ",
        OcrStep::Bitmap => "OCR bitmap: ",
        OcrStep::Engine => "OCR engine: ",
        OcrStep::Recognition => "OCR recognition failed: ",
        OcrStep::Text => "OCR text: ",
    }.to_owned();
    m.append(reason);
    m
}

/// What is said where no language can be recognized.
pub fn no_engine_error() -> (r: String)
    ensures
        r@
            == "No OCR language installed. Add one in Windows Settings > Time & Language > Language & region."@,
{
    "No OCR language installed. Add one in Windows Settings > Time & Language > Language & region.".to_owned()
}

/// The outcome of recognizing a picture: a picture that is none fails before
/// anything is tried, a missing engine or a failed step is reported, and a
/// text that was found is tidied up.
pub fn recognize(
    bgra_len: usize,
    width: u32,
    height: u32,
    has_engine: bool,
    found: Result<String, (OcrStep, String)>,
) -> (r: Result<String, String>)
    ensures
        if width == 0 || height == 0 || bgra_len < width * height * 4 {
            r matches Err(e) && e@ == "Empty capture region"@
        } else if !has_engine {
            r matches Err(e) && e@
                == "No OCR language installed. Add one in Windows Settings > Time & Language > Language & region."@
        } else {
            match found {
                Ok(t) => r matches Ok(s) && s@ == normalized(t@),
                Err(f) => r matches Err(e) && e@ == step_label(f.0) + f.1@,
            }
        },
{
    match check_picture(bgra_len, width, height) {
        Err(e) => {
            return Err(e);
        },
        Ok(_) => {},
    }
    if !has_engine {
        return Err(no_engine_error());
    }
    match found {
        Ok(t) => Ok(normalize(t.as_str())),
        Err(f) => Err(step_error(f.0, f.1.as_str())),
    }
}

/// Lines without the empty ones at the start.
pub open spec fn drop_blank_front(lines: Seq<Seq<char>>) -> Seq<Seq<char>>
    decreases lines.len(),
{
    if lines.len() > 0 && lines.first().len() == 0 {
        drop_blank_front(lines.skip(1))
    } else {
        lines
    }
}

/// Lines without the empty ones at the end.
pub open spec fn drop_blank_back(lines: Seq<Seq<char>>) -> Seq<Seq<char>>
    decreases lines.len(),
{
    if lines.len() > 0 && lines.last().len() == 0 {
        drop_blank_back(lines.drop_last())
    } else {
        lines
    }
}

/// The lines of a text, each without white space at its ends, without the
/// empty lines at the start and at the end.
pub open spec fn tidy_lines(s: Seq<char>) -> Seq<Seq<char>> {
    drop_blank_back(drop_blank_front(split(s, '\n').map_values(|l: Seq<char>| trim(l))))
}

pub open spec fn normalized(s: Seq<char>) -> Seq<char> {
    join(tidy_lines(s), "\n"@)
}

/// Tidies a recognized text without reflowing it: line breaks become plain
/// ones, padding goes, and paragraph breaks stay.
pub fn normalize(s: &str) -> (r: String)
    ensures
        r@ == normalized(s@),
{
    let pieces = split_on(&chars_of(s), '\n');
    let mut lines: Vec<Vec<char>> = Vec::new();
    let ghost all = split(s@, '\n').map_values(|l: Seq<char>| trim(l));
    for i in 0..pieces.len()
        invariant
            views(pieces@) == split(s@, '\n'),
            all == split(s@, '\n').map_values(|l: Seq<char>| trim(l)),
            views(lines@) == all.take(i as int),
    {
        let ghost before = lines@;
        assert(views(pieces@)[i as int] == pieces@[i as int]@);
        lines.push(trimmed(&pieces[i]));
        assert(views(lines@) =~= views(before).push(lines@.last()@));
        assert(views(lines@) =~= all.take(i + 1));
    }
    assert(all.take(all.len() as int) =~= all);
    while lines.len() > 0 && lines[0].len() == 0
        invariant
            drop_blank_front(all) == drop_blank_front(views(lines@)),
        decreases lines@.len(),
    {
        let ghost before = lines@;
        assert(views(before).first() == before[0]@);
        lines.remove(0);
        assert(views(lines@) =~= views(before).skip(1));
    }
    proof {
        if lines@.len() > 0 {
            assert(views(lines@).first() == lines@[0]@);
        }
        assert(drop_blank_front(views(lines@)) == views(lines@));
    }
    let ghost front = views(lines@);
    while lines.len() > 0 && lines[lines.len() - 1].len() == 0
        invariant
            drop_blank_back(front) == drop_blank_back(views(lines@)),
        decreases lines@.len(),
    {
        let ghost before = lines@;
        assert(views(before).last() == before.last()@);
        lines.pop();
        assert(views(lines@) =~= views(before).drop_last());
    }
    proof {
        if lines@.len() > 0 {
            assert(views(lines@).last() == lines@.last()@);
        }
    }
    joined(&lines, "\n")
}

proof fn lemma_front(lines: Seq<Seq<char>>)
    ensures
        drop_blank_front(lines).len() <= lines.len(),
        drop_blank_front(lines) == lines.skip(lines.len() - drop_blank_front(lines).len()),
        drop_blank_front(lines).len() > 0 ==> drop_blank_front(lines).first().len() > 0,
    decreases lines.len(),
{
    if lines.len() > 0 && lines.first().len() == 0 {
        let d = lines.skip(1);
        lemma_front(d);
        assert(lines.skip(lines.len() - drop_blank_front(lines).len()) =~= d.skip(
            d.len() - drop_blank_front(d).len(),
        ));
    } else {
        assert(lines.skip(0) =~= lines);
    }
}

proof fn lemma_back(lines: Seq<Seq<char>>)
    ensures
        drop_blank_back(lines).len() <= lines.len(),
        drop_blank_back(lines) == lines.take(drop_blank_back(lines).len() as int),
        drop_blank_back(lines).len() > 0 ==> drop_blank_back(lines).last().len() > 0,
    decreases lines.len(),
{
    if lines.len() > 0 && lines.last().len() == 0 {
        let d = lines.drop_last();
        lemma_back(d);
        assert(lines.take(drop_blank_back(lines).len() as int) =~= d.take(
            drop_blank_back(d).len() as int,
        ));
    } else {
        assert(lines.take(lines.len() as int) =~= lines);
    }
}

/// The lines that are left have no white space at their ends, no line break in
/// them, and neither the first nor the last is empty.
pub proof fn law_tidy_lines(s: Seq<char>)
    ensures
        forall|k: int| 0 <= k < tidy_lines(s).len() ==> trim_free(#[trigger] tidy_lines(s)[k]),
        forall|k: int| 0 <= k < tidy_lines(s).len() ==> lacks(#[trigger] tidy_lines(s)[k], '\n'),
        tidy_lines(s).len() > 0 ==> tidy_lines(s).first().len() > 0 && tidy_lines(s).last().len()
            > 0,
{
    let pieces = split(s, '\n');
    let all = pieces.map_values(|l: Seq<char>| trim(l));
    let front = drop_blank_front(all);
    let t = tidy_lines(s);
    lemma_split_lacks(s, '\n');
    lemma_front(all);
    lemma_back(front);
    assert forall|k: int| 0 <= k < t.len() implies trim_free(#[trigger] t[k]) && lacks(
        t[k],
        '\n',
    ) by {
        let i = all.len() - front.len() + k;
        assert(t[k] == front[k]);
        assert(front[k] == all[i]);
        assert(all[i] == trim(pieces[i]));
        lemma_trim(pieces[i]);
        assert(lacks(pieces[i], '\n'));
    }
    if t.len() > 0 {
        assert(t.first() == front.first());
    }
}

/// Tidying a text twice is the same as tidying it once.
pub proof fn law_normalizing_twice_changes_nothing(s: Seq<char>)
    ensures
        normalized(normalized(s)) == normalized(s),
{
    let t = tidy_lines(s);
    law_tidy_lines(s);
    reveal_strlit("\n");
    assert("\n"@ =~= seq!['\n']);
    if t.len() == 0 {
        let none = Seq::<char>::empty();
        assert(normalized(s) =~= none);
        assert(split(none, '\n') =~= seq![none]);
        let all = split(none, '\n').map_values(|l: Seq<char>| trim(l));
        lemma_trim(none);
        assert(trim(none) =~= none);
        assert(all =~= seq![none]);
        assert(all.skip(1) =~= Seq::<Seq<char>>::empty());
        assert(drop_blank_front(all.skip(1)) =~= Seq::<Seq<char>>::empty());
        assert(drop_blank_front(all) =~= Seq::<Seq<char>>::empty());
        assert(normalized(none) =~= none);
    } else {
        lemma_split_join(t, '\n');
        let again = split(normalized(s), '\n').map_values(|l: Seq<char>| trim(l));
        assert forall|k: int| 0 <= k < t.len() implies #[trigger] again[k] == t[k] by {
            lemma_trim(t[k]);
            assert(trim_free(t[k]));
        }
        assert(again =~= t);
        assert(drop_blank_front(t) == t);
        assert(drop_blank_back(t) == t);
    }
}

/// Tidying loses nothing but white space: the lines that are left are the
/// text's own from some line to another, each without white space at its ends,
/// and all lines before and after them are blank.
pub proof fn law_tidying_keeps_every_line(s: Seq<char>)
    ensures
        exists|a: int, b: int|
            #![trigger split(s, '\n').subrange(a, b)]
            {
                let lines = split(s, '\n');
                &&& 0 <= a <= b <= lines.len()
                &&& tidy_lines(s).len() == b - a
                &&& forall|k: int|
                    0 <= k < b - a ==> #[trigger] tidy_lines(s)[k] == trim(lines[a + k])
                &&& forall|i: int| 0 <= i < a ==> trim(#[trigger] lines[i]).len() == 0
                &&& forall|i: int| b <= i < lines.len() ==> trim(#[trigger] lines[i]).len() == 0
            },
{
    let lines = split(s, '\n');
    let all = lines.map_values(|l: Seq<char>| trim(l));
    let front = drop_blank_front(all);
    let t = tidy_lines(s);
    let a = all.len() - front.len();
    let b = a + t.len();
    lemma_front(all);
    lemma_back(front);
    lemma_blank_front(all);
    lemma_blank_back(front);
    assert forall|k: int| 0 <= k < b - a implies #[trigger] t[k] == trim(lines[a + k]) by {
        assert(t[k] == front[k]);
        assert(front[k] == all[a + k]);
    }
    assert forall|i: int| 0 <= i < a implies trim(#[trigger] lines[i]).len() == 0 by {
        assert(all[i].len() == 0);
    }
    assert forall|i: int| b <= i < lines.len() implies trim(#[trigger] lines[i]).len() == 0 by {
        assert(front[i - a] == all[i]);
        assert(front[i - a].len() == 0);
    }
    assert(lines.subrange(a, b).len() == b - a);
}

proof fn lemma_blank_front(lines: Seq<Seq<char>>)
    ensures
        forall|i: int|
            0 <= i < lines.len() - drop_blank_front(lines).len() ==> (#[trigger] lines[i]).len()
                == 0,
    decreases lines.len(),
{
    if lines.len() > 0 && lines.first().len() == 0 {
        let d = lines.skip(1);
        lemma_blank_front(d);
        assert forall|i: int|
            0 <= i < lines.len() - drop_blank_front(lines).len() implies (#[trigger] lines[i]).len()
            == 0 by {
            if i > 0 {
                assert(d[i - 1] == lines[i]);
            }
        }
    }
}

proof fn lemma_blank_back(lines: Seq<Seq<char>>)
    ensures
        forall|i: int|
            drop_blank_back(lines).len() <= i < lines.len() ==> (#[trigger] lines[i]).len() == 0,
    decreases lines.len(),
{
    if lines.len() > 0 && lines.last().len() == 0 {
        let d = lines.drop_last();
        lemma_blank_back(d);
        assert forall|i: int|
            drop_blank_back(lines).len() <= i < lines.len() implies (#[trigger] lines[i]).len()
            == 0 by {
            if i < d.len() {
                assert(d[i] == lines[i]);
            }
        }
    }
}

} // verus!

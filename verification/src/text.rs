//! Text as sequences of characters: the small set of string operations that
//! the rest of the library is built on, each with an exact meaning.

use vstd::prelude::*;

verus! {

/// `String::push` of the standard library appends one character.
pub assume_specification[ String::push ](s: &mut String, c: char)
    ensures
        final(s)@ == old(s)@.push(c),
;

/// The characters of a string, one by one.
pub fn chars_of(s: &str) -> (v: Vec<char>)
    ensures
        v@ == s@,
{
    let mut v: Vec<char> = Vec::new();
    for c in it: s.chars()
        invariant
            v@ == it.seq().take(it.index()),
            it.seq() == s@,
    {
        v.push(c);
    }
    v
}

/// A string made of the given characters.
pub fn string_of(v: &Vec<char>) -> (s: String)
    ensures
        s@ == v@,
{
    let mut s = String::new();
    for i in 0..v.len()
        invariant
            s@ == v@.take(i as int),
    {
        s.push(v[i]);
    }
    s
}

/// Whether two strings hold the same characters.
pub fn same(a: &str, b: &str) -> (r: bool)
    ensures
        r == (a@ == b@),
{
    a.to_owned() == b.to_owned()
}

/// The characters of Unicode's `White_Space` property.
pub open spec fn white_space(c: char) -> bool {
    ||| '\u{9}' <= c <= '\u{d}'
    ||| c == ' '
    ||| c == '\u{85}'
    ||| c == '\u{a0}'
    ||| c == '\u{1680}'
    ||| '\u{2000}' <= c <= '\u{200a}'
    ||| c == '\u{2028}'
    ||| c == '\u{2029}'
    ||| c == '\u{202f}'
    ||| c == '\u{205f}'
    ||| c == '\u{3000}'
}

pub fn is_white_space(c: char) -> (r: bool)
    ensures
        r == white_space(c),
{
    ('\u{9}' <= c && c <= '\u{d}') || c == ' ' || c == '\u{85}' || c == '\u{a0}' || c == '\u{1680}'
        || ('\u{2000}' <= c && c <= '\u{200a}') || c == '\u{2028}' || c == '\u{2029}' || c
        == '\u{202f}' || c == '\u{205f}' || c == '\u{3000}'
}

/// `s` without its leading white space.
pub open spec fn trim_start(s: Seq<char>) -> Seq<char>
    decreases s.len(),
{
    if s.len() > 0 && white_space(s.first()) {
        trim_start(s.drop_first())
    } else {
        s
    }
}

/// `s` without its trailing white space.
pub open spec fn trim_end(s: Seq<char>) -> Seq<char>
    decreases s.len(),
{
    if s.len() > 0 && white_space(s.last()) {
        trim_end(s.drop_last())
    } else {
        s
    }
}

/// `s` without white space at either end.
pub open spec fn trim(s: Seq<char>) -> Seq<char> {
    trim_end(trim_start(s))
}

/// The characters between the white space at either end.
pub fn trimmed(v: &Vec<char>) -> (r: Vec<char>)
    ensures
        r@ == trim(v@),
{
    let n: usize = v.len();
    let mut a: usize = 0;
    assert(v@.skip(0) =~= v@);
    while a < n && is_white_space(v[a])
        invariant
            a <= n,
            n == v@.len(),
            trim_start(v@) == trim_start(v@.skip(a as int)),
        decreases n - a,
    {
        assert(v@.skip(a as int).drop_first() =~= v@.skip(a + 1));
        a = a + 1;
    }
    let mut b: usize = n;
    assert(v@.subrange(a as int, n as int) =~= v@.skip(a as int));
    while a < b && is_white_space(v[b - 1])
        invariant
            a <= b <= n,
            n == v@.len(),
            trim(v@) == trim_end(v@.subrange(a as int, b as int)),
        decreases b,
    {
        assert(v@.subrange(a as int, b as int).drop_last() =~= v@.subrange(a as int, b - 1));
        b = b - 1;
    }
    let mut r: Vec<char> = Vec::new();
    for i in a..b
        invariant
            a <= b <= v@.len(),
            r@ == v@.subrange(a as int, i as int),
    {
        r.push(v[i]);
        assert(v@.subrange(a as int, i + 1) =~= v@.subrange(a as int, i as int).push(v@[i as int]));
    }
    r
}

/// `c` with an ASCII capital made small; every other character as it is.
pub open spec fn ascii_lower(c: char) -> char {
    if 'A' <= c <= 'Z' {
        ((c as u8) + 32u8) as char
    } else {
        c
    }
}

/// `s` with its ASCII capitals made small.
pub open spec fn lowercase(s: Seq<char>) -> Seq<char> {
    s.map_values(|c: char| ascii_lower(c))
}

pub fn lower_char(c: char) -> (r: char)
    ensures
        r == ascii_lower(c),
{
    if 'A' <= c && c <= 'Z' {
        let b: u8 = c as u8;
        (b + 32) as char
    } else {
        c
    }
}

pub fn lowered(v: &Vec<char>) -> (r: Vec<char>)
    ensures
        r@ == lowercase(v@),
{
    let mut r: Vec<char> = Vec::new();
    for i in 0..v.len()
        invariant
            r@ == lowercase(v@.take(i as int)),
    {
        r.push(lower_char(v[i]));
        assert(lowercase(v@.take(i + 1)) =~= lowercase(v@.take(i as int)).push(
            ascii_lower(v@[i as int]),
        ));
    }
    assert(v@.take(v@.len() as int) =~= v@);
    r
}

/// The pieces of `s` between the separators: one more than there are
/// separators, empty ones kept.
pub open spec fn split(s: Seq<char>, sep: char) -> Seq<Seq<char>>
    decreases s.len(),
{
    if s.len() == 0 {
        seq![Seq::<char>::empty()]
    } else {
        let before = split(s.drop_last(), sep);
        if s.last() == sep {
            before.push(Seq::<char>::empty())
        } else {
            before.drop_last().push(before.last().push(s.last()))
        }
    }
}

pub proof fn lemma_split_not_empty(s: Seq<char>, sep: char)
    ensures
        split(s, sep).len() >= 1,
    decreases s.len(),
{
    if s.len() > 0 {
        lemma_split_not_empty(s.drop_last(), sep);
    }
}

/// The views of a list of character vectors.
pub open spec fn views(parts: Seq<Vec<char>>) -> Seq<Seq<char>> {
    parts.map_values(|p: Vec<char>| p@)
}

pub fn split_on(v: &Vec<char>, sep: char) -> (r: Vec<Vec<char>>)
    ensures
        views(r@) == split(v@, sep),
{
    let mut done: Vec<Vec<char>> = Vec::new();
    let mut cur: Vec<char> = Vec::new();
    assert(views(done@).push(cur@) =~= split(v@.take(0), sep));
    for i in 0..v.len()
        invariant
            views(done@).push(cur@) == split(v@.take(i as int), sep),
    {
        let ghost before = views(done@).push(cur@);
        proof {
            assert(v@.take(i + 1).drop_last() =~= v@.take(i as int));
            assert(before.drop_last() =~= views(done@));
        }
        if v[i] == sep {
            let ghost done0 = done@;
            let ghost cur0 = cur@;
            done.push(cur);
            cur = Vec::new();
            assert(views(done@) =~= views(done0).push(cur0));
            assert(cur@ =~= Seq::<char>::empty());
        } else {
            cur.push(v[i]);
        }
    }
    assert(v@.take(v@.len() as int) =~= v@);
    let ghost done0 = done@;
    let ghost cur0 = cur@;
    done.push(cur);
    assert(views(done@) =~= views(done0).push(cur0));
    done
}

/// The pieces with `sep` between each two.
pub open spec fn join(parts: Seq<Seq<char>>, sep: Seq<char>) -> Seq<char>
    decreases parts.len(),
{
    if parts.len() == 0 {
        Seq::<char>::empty()
    } else if parts.len() == 1 {
        parts[0]
    } else {
        join(parts.drop_last(), sep) + sep + parts.last()
    }
}

pub fn joined(parts: &Vec<Vec<char>>, sep: &str) -> (r: String)
    ensures
        r@ == join(views(parts@), sep@),
{
    let mut r = String::new();
    for i in 0..parts.len()
        invariant
            r@ == join(views(parts@).take(i as int), sep@),
    {
        if i > 0 {
            r.append(sep);
        }
        r.append(string_of(&parts[i]).as_str());
        proof {
            let t = views(parts@).take(i + 1);
            assert(t.drop_last() =~= views(parts@).take(i as int));
            assert(t.last() == parts@[i as int]@);
            if i == 0 {
                assert(r@ =~= t[0]);
            }
        }
    }
    assert(views(parts@).take(parts@.len() as int) =~= views(parts@));
    r
}

pub open spec fn lacks(s: Seq<char>, c: char) -> bool {
    forall|i: int| 0 <= i < s.len() ==> #[trigger] s[i] != c
}

proof fn lemma_split_append(a: Seq<char>, p: Seq<char>, sep: char)
    requires
        lacks(p, sep),
    ensures
        split(a + p, sep) == split(a, sep).drop_last().push(split(a, sep).last() + p),
    decreases p.len(),
{
    let before = split(a, sep);
    lemma_split_not_empty(a, sep);
    if p.len() == 0 {
        assert(a + p =~= a);
        assert(before.last() + p =~= before.last());
        assert(before.drop_last().push(before.last()) =~= before);
    } else {
        let q = p.drop_last();
        assert(lacks(q, sep)) by {
            assert forall|i: int| 0 <= i < q.len() implies #[trigger] q[i] != sep by {
                assert(p[i] != sep);
            }
        }
        lemma_split_append(a, q, sep);
        assert((a + p).drop_last() =~= a + q);
        assert((a + p).last() == p[p.len() - 1]);
        let mid = split(a + q, sep);
        assert(mid.drop_last() =~= before.drop_last());
        assert(mid.last().push(p.last()) =~= before.last() + p);
    }
}

/// Splitting what was joined gives the pieces back, if none of them holds the
/// separator.
pub proof fn lemma_split_join(parts: Seq<Seq<char>>, sep: char)
    requires
        parts.len() >= 1,
        forall|k: int| 0 <= k < parts.len() ==> lacks(#[trigger] parts[k], sep),
    ensures
        split(join(parts, seq![sep]), sep) == parts,
    decreases parts.len(),
{
    let none = Seq::<char>::empty();
    if parts.len() == 1 {
        assert(lacks(parts[0], sep));
        lemma_split_append(none, parts[0], sep);
        assert(none + parts[0] =~= parts[0]);
        assert(split(none, sep) =~= seq![none]);
        assert(split(parts[0], sep) =~= parts);
    } else {
        let d = parts.drop_last();
        assert forall|k: int| 0 <= k < d.len() implies lacks(#[trigger] d[k], sep) by {
            assert(lacks(parts[k], sep));
        }
        lemma_split_join(d, sep);
        let a = join(d, seq![sep]);
        let b = a + seq![sep];
        assert(b.drop_last() =~= a);
        assert(split(b, sep) =~= d.push(none));
        assert(lacks(parts[parts.len() - 1], sep));
        lemma_split_append(b, parts.last(), sep);
        assert(none + parts.last() =~= parts.last());
        assert(d.push(none).drop_last() =~= d);
        assert(split(b + parts.last(), sep) =~= parts);
    }
}

/// No piece holds the separator.
pub proof fn lemma_split_lacks(s: Seq<char>, sep: char)
    ensures
        forall|k: int| 0 <= k < split(s, sep).len() ==> lacks(#[trigger] split(s, sep)[k], sep),
    decreases s.len(),
{
    if s.len() > 0 {
        let before = split(s.drop_last(), sep);
        lemma_split_not_empty(s.drop_last(), sep);
        lemma_split_lacks(s.drop_last(), sep);
        let all = split(s, sep);
        assert forall|k: int| 0 <= k < all.len() implies lacks(#[trigger] all[k], sep) by {
            if k < before.len() - 1 {
                assert(all[k] == before[k]);
            } else if s.last() == sep {
                if k < before.len() {
                    assert(all[k] == before[k]);
                }
            } else {
                assert(lacks(before[before.len() - 1], sep));
                assert(all[k] == before.last().push(s.last()));
            }
        }
    }
}

/// Whether a text neither starts nor ends with white space.
pub open spec fn trim_free(s: Seq<char>) -> bool {
    s.len() > 0 ==> !white_space(s.first()) && !white_space(s.last())
}

proof fn lemma_trim_start(s: Seq<char>)
    ensures
        trim_start(s).len() > 0 ==> !white_space(trim_start(s).first()),
        trim_start(s).len() <= s.len(),
        trim_start(s) == s.skip(s.len() - trim_start(s).len()),
    decreases s.len(),
{
    if s.len() > 0 && white_space(s.first()) {
        let d = s.drop_first();
        lemma_trim_start(d);
        assert(s.skip(s.len() - trim_start(s).len()) =~= d.skip(d.len() - trim_start(d).len()));
    } else {
        assert(s.skip(0) =~= s);
    }
}

proof fn lemma_trim_end(s: Seq<char>)
    ensures
        trim_end(s).len() > 0 ==> !white_space(trim_end(s).last()),
        trim_end(s).len() <= s.len(),
        trim_end(s) == s.take(trim_end(s).len() as int),
    decreases s.len(),
{
    if s.len() > 0 && white_space(s.last()) {
        let d = s.drop_last();
        lemma_trim_end(d);
        assert(s.take(trim_end(s).len() as int) =~= d.take(trim_end(d).len() as int));
    } else {
        assert(s.take(s.len() as int) =~= s);
    }
}

/// Trimming leaves no white space at the ends, and takes nothing from a text
/// without any there. What is left is a part of the text.
pub proof fn lemma_trim(s: Seq<char>)
    ensures
        trim_free(trim(s)),
        trim_free(s) ==> trim(s) == s,
        forall|c: char| #[trigger] lacks(s, c) ==> lacks(trim(s), c),
{
    let a = trim_start(s);
    lemma_trim_start(s);
    lemma_trim_end(a);
    let t = trim(s);
    if t.len() > 0 {
        assert(t.first() == a.first());
    }
    assert forall|c: char| #[trigger] lacks(s, c) implies lacks(trim(s), c) by {
        assert forall|i: int| 0 <= i < t.len() implies #[trigger] t[i] != c by {
            assert(t[i] == a[i]);
            assert(a[i] == s[s.len() - a.len() + i]);
        }
    }
}

/// Whether `s` begins with `t`.
pub open spec fn begins_with(s: Seq<char>, t: Seq<char>) -> bool {
    t.len() <= s.len() && s.take(t.len() as int) == t
}

/// Whether `s` ends with `t`.
pub open spec fn finishes_with(s: Seq<char>, t: Seq<char>) -> bool {
    t.len() <= s.len() && s.skip(s.len() - t.len()) == t
}

/// Whether `t` stands in `s` from position `at` on.
pub open spec fn stands_at<T>(s: Seq<T>, t: Seq<T>, at: int) -> bool {
    0 <= at && at + t.len() <= s.len() && s.subrange(at, at + t.len()) == t
}

/// Whether `t` stands anywhere in `s`.
pub open spec fn contains<T>(s: Seq<T>, t: Seq<T>) -> bool {
    exists|at: int| stands_at(s, t, at)
}

pub fn found_at(v: &Vec<char>, t: &Vec<char>, at: usize) -> (r: bool)
    ensures
        r == stands_at(v@, t@, at as int),
{
    let n: usize = v.len();
    if at > n || t.len() > n - at {
        return false;
    }
    for i in 0..t.len()
        invariant
            n == v@.len(),
            at + t@.len() <= n,
            forall|j: int| 0 <= j < i ==> v@[at + j] == t@[j],
    {
        if v[at + i] != t[i] {
            assert(v@.subrange(at as int, at + t@.len())[i as int] != t@[i as int]);
            return false;
        }
    }
    assert(v@.subrange(at as int, at + t@.len()) =~= t@);
    true
}

pub fn is_suffix(v: &Vec<char>, t: &Vec<char>) -> (r: bool)
    ensures
        r == finishes_with(v@, t@),
{
    if t.len() > v.len() {
        return false;
    }
    proof {
        assert(v@.skip(v@.len() - t@.len()) =~= v@.subrange(v@.len() - t@.len(), v@.len() as int));
    }
    found_at(v, t, v.len() - t.len())
}

pub fn is_prefix(v: &Vec<char>, t: &Vec<char>) -> (r: bool)
    ensures
        r == begins_with(v@, t@),
{
    proof {
        if t@.len() <= v@.len() {
            assert(v@.take(t@.len() as int) =~= v@.subrange(0, t@.len() as int));
        }
    }
    found_at(v, t, 0)
}

/// The first position at which `t` stands in `v`, from `from` on.
pub fn find_from(v: &Vec<char>, t: &Vec<char>, from: usize) -> (r: Option<usize>)
    ensures
        match r {
            Some(i) => from <= i && stands_at(v@, t@, i as int) && forall|j: int|
                from <= j < i ==> !stands_at(v@, t@, j),
            None => forall|j: int| from <= j ==> !stands_at(v@, t@, j),
        },
{
    if t.len() > v.len() {
        return None;
    }
    let last: usize = v.len() - t.len();
    let mut i: usize = from;
    while i <= last
        invariant
            from <= i,
            last == v@.len() - t@.len(),
            last < usize::MAX || i <= last,
            forall|j: int| from <= j < i ==> !stands_at(v@, t@, j),
        decreases last + 1 - i,
    {
        if found_at(v, t, i) {
            return Some(i);
        }
        if i == last {
            return None;
        }
        i = i + 1;
    }
    None
}

/// `s` with each occurrence of `pat` replaced, scanning from the left and
/// never looking into what was put in.
pub open spec fn replace_all(s: Seq<char>, pat: Seq<char>, with: Seq<char>) -> Seq<char>
    decreases s.len(),
{
    if pat.len() == 0 || s.len() == 0 {
        s
    } else if begins_with(s, pat) {
        with + replace_all(s.skip(pat.len() as int), pat, with)
    } else {
        seq![s.first()] + replace_all(s.skip(1), pat, with)
    }
}

pub fn replaced(v: &Vec<char>, pat: &Vec<char>, with: &Vec<char>) -> (r: Vec<char>)
    ensures
        r@ == replace_all(v@, pat@, with@),
{
    if pat.len() == 0 {
        return v.clone();
    }
    let mut r: Vec<char> = Vec::new();
    let mut i: usize = 0;
    assert(v@.skip(0) =~= v@);
    while i < v.len()
        invariant
            i <= v@.len(),
            pat@.len() > 0,
            replace_all(v@, pat@, with@) == r@ + replace_all(v@.skip(i as int), pat@, with@),
        decreases v@.len() - i,
    {
        let ghost rest = v@.skip(i as int);
        let hit = found_at(v, pat, i);
        proof {
            if pat@.len() <= rest.len() {
                assert(rest.take(pat@.len() as int) =~= v@.subrange(i as int, i + pat@.len()));
            }
            assert(hit == begins_with(rest, pat@));
        }
        if hit {
            let ghost r0 = r@;
            for k in 0..with.len()
                invariant
                    r@ == r0 + with@.take(k as int),
            {
                r.push(with[k]);
                assert(with@.take(k + 1) =~= with@.take(k as int).push(with@[k as int]));
            }
            assert(with@.take(with@.len() as int) =~= with@);
            assert(rest.skip(pat@.len() as int) =~= v@.skip(i + pat@.len()));
            assert(r0 + (with@ + replace_all(v@.skip(i + pat@.len()), pat@, with@)) =~= r@
                + replace_all(v@.skip(i + pat@.len()), pat@, with@));
            i = i + pat.len();
        } else {
            let ghost r0 = r@;
            r.push(v[i]);
            assert(rest.skip(1) =~= v@.skip(i + 1));
            assert(r0 + (seq![v@[i as int]] + replace_all(v@.skip(i + 1), pat@, with@)) =~= r@
                + replace_all(v@.skip(i + 1), pat@, with@));
            i = i + 1;
        }
    }
    assert(v@.skip(v@.len() as int) =~= Seq::<char>::empty());
    assert(r@ + Seq::<char>::empty() =~= r@);
    r
}

/// The decimal digit of a number below ten.
pub open spec fn digit(n: nat) -> char {
    (48 + n) as char
}

/// A number in decimal, without leading zeros.
pub open spec fn decimal(n: nat) -> Seq<char>
    decreases n,
{
    if n < 10 {
        seq![digit(n)]
    } else {
        decimal(n / 10).push(digit(n % 10))
    }
}

/// A number in decimal, with a minus sign where it is negative.
pub open spec fn signed_decimal(n: int) -> Seq<char> {
    if n < 0 {
        seq!['-'] + decimal((-n) as nat)
    } else {
        decimal(n as nat)
    }
}

pub fn digit_char(n: u8) -> (c: char)
    requires
        n < 10,
    ensures
        c == digit(n as nat),
{
    (48 + n) as char
}

pub fn decimal_of(n: u64) -> (s: String)
    ensures
        s@ == decimal(n as nat),
    decreases n,
{
    if n < 10 {
        let mut s = String::new();
        s.push(digit_char(n as u8));
        assert(s@ =~= seq![digit(n as nat)]);
        s
    } else {
        let mut s = decimal_of(n / 10);
        s.push(digit_char((n % 10) as u8));
        s
    }
}

pub fn signed_decimal_of(n: i64) -> (s: String)
    ensures
        s@ == signed_decimal(n as int),
{
    if n < 0 {
        let m: u64 = if n == i64::MIN {
            0x8000_0000_0000_0000
        } else {
            (-n) as u64
        };
        let mut s = String::new();
        s.push('-');
        s.append(decimal_of(m).as_str());
        assert(s@ =~= seq!['-'] + decimal((-n) as nat));
        s
    } else {
        decimal_of(n as u64)
    }
}

pub open spec fn is_digit(c: char) -> bool {
    '0' <= c <= '9'
}

/// The number that a run of decimal digits stands for.
pub open spec fn value_of(s: Seq<char>) -> nat
    decreases s.len(),
{
    if s.len() == 0 {
        0
    } else {
        value_of(s.drop_last()) * 10 + ((s.last() as int - 48) as nat)
    }
}

pub open spec fn all_digits(s: Seq<char>) -> bool {
    forall|i: int| 0 <= i < s.len() ==> is_digit(#[trigger] s[i])
}

/// Reading back the decimal form of a number gives the number.
pub proof fn lemma_decimal_value(n: nat)
    ensures
        value_of(decimal(n)) == n,
        all_digits(decimal(n)),
        decimal(n).len() >= 1,
    decreases n,
{
    if n < 10 {
        let s = seq![digit(n)];
        assert(s.drop_last() =~= Seq::<char>::empty());
        assert(value_of(s.drop_last()) == 0);
    } else {
        lemma_decimal_value(n / 10);
        let s = decimal(n);
        assert(s.drop_last() =~= decimal(n / 10));
        assert(s.last() == digit(n % 10));
    }
}

/// Different numbers have different decimal forms.
pub proof fn lemma_decimal_injective(a: nat, b: nat)
    requires
        decimal(a) == decimal(b),
    ensures
        a == b,
{
    lemma_decimal_value(a);
    lemma_decimal_value(b);
}

/// What `usize`'s parser makes of `s`: digits, with at most one plus sign in
/// front, that stand for a number in range.
pub open spec fn index_of(s: Seq<char>) -> Option<nat> {
    let digits = if s.len() > 0 && s.first() == '+' {
        s.skip(1)
    } else {
        s
    };
    if digits.len() > 0 && all_digits(digits) && value_of(digits) <= usize::MAX {
        Some(value_of(digits))
    } else {
        None
    }
}

proof fn lemma_value_grows(s: Seq<char>, i: int)
    requires
        all_digits(s),
        0 <= i <= s.len(),
    ensures
        value_of(s.take(i)) <= value_of(s),
    decreases s.len() - i,
{
    if i < s.len() {
        lemma_value_grows(s, i + 1);
        assert(s.take(i + 1).drop_last() =~= s.take(i));
        assert(is_digit(s[i]));
    } else {
        assert(s.take(i) =~= s);
    }
}

pub fn parse_index(v: &Vec<char>) -> (r: Option<usize>)
    ensures
        match r {
            Some(n) => index_of(v@) == Some(n as nat),
            None => index_of(v@) is None,
        },
{
    let start: usize = if v.len() > 0 && v[0] == '+' {
        1
    } else {
        0
    };
    let ghost digits = v@.skip(start as int);
    proof {
        if start == 0 {
            assert(digits =~= v@);
        }
    }
    if start == v.len() {
        return None;
    }
    let mut n: usize = 0;
    let mut i: usize = start;
    assert(digits.take(0) =~= Seq::<char>::empty());
    while i < v.len()
        invariant
            start <= i <= v@.len(),
            digits == v@.skip(start as int),
            n == value_of(digits.take(i - start)),
            forall|j: int| 0 <= j < i - start ==> is_digit(#[trigger] digits[j]),
            index_of(v@) == (if digits.len() > 0 && all_digits(digits) && value_of(digits)
                <= usize::MAX {
                Some(value_of(digits))
            } else {
                None
            }),
        decreases v@.len() - i,
    {
        let c = v[i];
        assert(c == digits[i - start]);
        if !('0' <= c && c <= '9') {
            return None;
        }
        let d: usize = (c as u8 - 48) as usize;
        proof {
            assert(digits.take(i + 1 - start).drop_last() =~= digits.take(i - start));
            assert(digits.take(i + 1 - start).last() == c);
            if all_digits(digits) {
                lemma_value_grows(digits, i + 1 - start);
            }
        }
        if n > (usize::MAX - d) / 10 {
            return None;
        }
        n = n * 10 + d;
        i = i + 1;
    }
    assert(digits.take(i - start) =~= digits);
    Some(n)
}

/// The two decimal digits of a number below a hundred.
pub open spec fn two_digits(n: nat) -> Seq<char> {
    seq![digit(n / 10), digit(n % 10)]
}

pub fn two_digits_of(n: u64) -> (s: String)
    requires
        n < 100,
    ensures
        s@ == two_digits(n as nat),
{
    let mut s = String::new();
    s.push(digit_char((n / 10) as u8));
    s.push(digit_char((n % 10) as u8));
    assert(s@ =~= two_digits(n as nat));
    s
}

/// The UTF-16 code units of one character.
pub open spec fn utf16_units(c: char) -> Seq<u16> {
    if (c as u32) < 0x1_0000 {
        seq![c as u16]
    } else {
        seq![
            (0xD800 + (c as u32 - 0x1_0000) / 0x400) as u16,
            (0xDC00 + (c as u32 - 0x1_0000) % 0x400) as u16,
        ]
    }
}

/// The UTF-16 code units of a text.
pub open spec fn utf16(s: Seq<char>) -> Seq<u16>
    decreases s.len(),
{
    if s.len() == 0 {
        Seq::<u16>::empty()
    } else {
        utf16(s.drop_last()) + utf16_units(s.last())
    }
}

fn push_utf16(r: &mut Vec<u16>, ch: char)
    ensures
        final(r)@ == old(r)@ + utf16_units(ch),
{
    let c: u32 = ch as u32;
    if c < 0x1_0000 {
        r.push(c as u16);
    } else {
        assert(c <= 0x10_FFFF);
        let d: u32 = c - 0x1_0000;
        r.push((0xD800 + d / 0x400) as u16);
        r.push((0xDC00 + d % 0x400) as u16);
    }
    assert(r@ =~= old(r)@ + utf16_units(ch));
}

pub fn utf16_of(s: &str) -> (r: Vec<u16>)
    ensures
        r@ == utf16(s@),
{
    let v = chars_of(s);
    let mut r: Vec<u16> = Vec::new();
    for i in 0..v.len()
        invariant
            v@ == s@,
            r@ == utf16(s@.take(i as int)),
    {
        push_utf16(&mut r, v[i]);
        assert(s@.take(i + 1).drop_last() =~= s@.take(i as int));
    }
    assert(s@.take(s@.len() as int) =~= s@);
    r
}

/// A character below 0x10000 is one unit, itself; any other is a high and a low
/// surrogate from which it is computed back.
pub proof fn law_units_are_read_back(c: char)
    ensures
        (c as u32) < 0x1_0000 ==> utf16_units(c).len() == 1 && utf16_units(c)[0] == c as u32,
        (c as u32) >= 0x1_0000 ==> {
            let u = utf16_units(c);
            &&& u.len() == 2
            &&& 0xD800 <= u[0] < 0xDC00
            &&& 0xDC00 <= u[1] < 0xE000
            &&& 0x1_0000 + (u[0] - 0xD800) * 0x400 + (u[1] - 0xDC00) == c as u32
        },
{
    if (c as u32) >= 0x1_0000 {
        lemma_surrogates(c as u32);
    }
}

proof fn lemma_surrogates(c: u32)
    requires
        0x1_0000 <= c <= 0x10_FFFF,
    ensures
        0 <= (c - 0x1_0000) / 0x400 < 0x400,
        0 <= (c - 0x1_0000) % 0x400 < 0x400,
        (c - 0x1_0000) / 0x400 * 0x400 + (c - 0x1_0000) % 0x400 == c - 0x1_0000,
{
}

/// The units of a text are those of its characters, one after the other.
pub proof fn law_units_keep_their_order(a: Seq<char>, b: Seq<char>, c: char)
    ensures
        utf16(a + b) == utf16(a) + utf16(b),
        utf16(seq![c]) == utf16_units(c),
        utf16(Seq::<char>::empty()) == Seq::<u16>::empty(),
    decreases b.len(),
{
    let one = seq![c];
    assert(one.drop_last() =~= Seq::<char>::empty());
    assert(utf16(one.drop_last()) == Seq::<u16>::empty());
    assert(utf16(one) =~= utf16_units(c));
    if b.len() == 0 {
        assert(a + b =~= a);
        assert(utf16(a) + utf16(b) =~= utf16(a));
    } else {
        law_units_keep_their_order(a, b.drop_last(), c);
        assert((a + b).drop_last() =~= a + b.drop_last());
        assert((a + b).last() == b.last());
        assert(utf16(a + b) =~= utf16(a) + utf16(b));
    }
}

/// The decimal form of a number consists of digits, starts with a zero only for
/// zero, and its digits count ones, tens, hundreds and so on.
pub proof fn law_decimal_forms(n: nat)
    ensures
        decimal(n).len() >= 1,
        forall|i: int| 0 <= i < decimal(n).len() ==> '0' <= #[trigger] decimal(n)[i] <= '9',
        n > 0 ==> decimal(n)[0] != '0',
        decimal(n)[decimal(n).len() - 1] as int - '0' as int == n % 10,
        n >= 10 ==> decimal(n).drop_last() == decimal(n / 10),
        n < 10 ==> decimal(n).len() == 1,
    decreases n,
{
    if n >= 10 {
        law_decimal_forms(n / 10);
        let s = decimal(n);
        assert(s.drop_last() =~= decimal(n / 10));
        assert forall|i: int| 0 <= i < s.len() implies '0' <= #[trigger] s[i] <= '9' by {
            if i < s.len() - 1 {
                assert(s[i] == decimal(n / 10)[i]);
            }
        }
        assert(s[0] == decimal(n / 10)[0]);
    }
}

/// A negative number is written with a minus sign before its amount.
pub proof fn law_signs(n: int)
    ensures
        n >= 0 ==> signed_decimal(n) == decimal(n as nat),
        n < 0 ==> signed_decimal(n)[0] == '-' && signed_decimal(n).skip(1) == decimal((-n) as nat),
{
    if n < 0 {
        assert(signed_decimal(n).skip(1) =~= decimal((-n) as nat));
    }
}

/// Two digits stand for their number.
pub proof fn law_two_digits(n: nat)
    requires
        n < 100,
    ensures
        two_digits(n).len() == 2,
        (two_digits(n)[0] as int - '0' as int) * 10 + (two_digits(n)[1] as int - '0' as int) == n,
        '0' <= two_digits(n)[0] <= '9' && '0' <= two_digits(n)[1] <= '9',
{
}

/// A number that was written down is read back, with and without a plus sign.
pub proof fn law_indices_are_read_back(n: usize)
    ensures
        index_of(decimal(n as nat)) == Some(n as nat),
        index_of(seq!['+'] + decimal(n as nat)) == Some(n as nat),
        index_of(Seq::<char>::empty()) is None,
{
    let d = decimal(n as nat);
    lemma_decimal_value(n as nat);
    assert(is_digit(d[0]));
    assert(d.first() == d[0]);
    let s = seq!['+'] + d;
    assert(s.first() == '+');
    assert(s.skip(1) =~= d);
}

/// Each digit more is worth ten times what comes before it.
pub proof fn law_digits_have_their_value(s: Seq<char>, c: char)
    requires
        '0' <= c <= '9',
    ensures
        value_of(s.push(c)) == 10 * value_of(s) + (c as int - '0' as int),
        value_of(Seq::<char>::empty()) == 0,
{
    assert(s.push(c).drop_last() =~= s);
}

/// Trimming takes white space off both ends, and nothing else: the rest is what
/// stood between, and has none at its ends.
pub proof fn law_trimming_takes_white_space_only(s: Seq<char>)
    ensures
        exists|a: int, b: int|
            #![trigger s.subrange(a, b)]
            {
                &&& 0 <= a <= b <= s.len()
                &&& trim(s) == s.subrange(a, b)
                &&& forall|i: int| 0 <= i < a ==> white_space(#[trigger] s[i])
                &&& forall|i: int| b <= i < s.len() ==> white_space(#[trigger] s[i])
                &&& a < b ==> !white_space(s[a]) && !white_space(s[b - 1])
            },
{
    let t = trim_start(s);
    let a = s.len() - t.len();
    let b = a + trim(s).len();
    lemma_trim_start(s);
    lemma_trim_end(t);
    lemma_trimmed_front(s);
    lemma_trimmed_back(t);
    lemma_trim(s);
    assert(trim(s) =~= s.subrange(a, b));
    assert forall|i: int| b <= i < s.len() implies white_space(#[trigger] s[i]) by {
        assert(s[i] == t[i - a]);
    }
    if a < b {
        assert(s[a] == trim(s)[0]);
        assert(s[b - 1] == trim(s)[trim(s).len() - 1]);
    }
}

proof fn lemma_trimmed_front(s: Seq<char>)
    ensures
        forall|i: int| 0 <= i < s.len() - trim_start(s).len() ==> white_space(#[trigger] s[i]),
    decreases s.len(),
{
    if s.len() > 0 && white_space(s.first()) {
        let d = s.drop_first();
        lemma_trimmed_front(d);
        assert forall|i: int| 0 <= i < s.len() - trim_start(s).len() implies white_space(
            #[trigger] s[i],
        ) by {
            if i > 0 {
                assert(d[i - 1] == s[i]);
            }
        }
    }
}

proof fn lemma_trimmed_back(s: Seq<char>)
    ensures
        forall|i: int| trim_end(s).len() <= i < s.len() ==> white_space(#[trigger] s[i]),
    decreases s.len(),
{
    if s.len() > 0 && white_space(s.last()) {
        let d = s.drop_last();
        lemma_trimmed_back(d);
        assert forall|i: int| trim_end(s).len() <= i < s.len() implies white_space(
            #[trigger] s[i],
        ) by {
            if i < d.len() {
                assert(d[i] == s[i]);
            }
        }
    }
}

/// Spaces, tabs and line ends are white space, and no visible ASCII character
/// is.
pub proof fn law_what_is_white_space(c: char)
    ensures
        white_space(' ') && white_space('\t') && white_space('\n') && white_space('\r'),
        '!' <= c <= '~' ==> !white_space(c),
{
}

/// Capitals become the small letter 32 places on; nothing else changes, so that
/// doing it twice is the same as doing it once.
pub proof fn law_small_letters(c: char, s: Seq<char>)
    ensures
        'A' <= c <= 'Z' ==> ascii_lower(c) as int == c as int + 32,
        !('A' <= c <= 'Z') ==> ascii_lower(c) == c,
        ascii_lower(ascii_lower(c)) == ascii_lower(c),
        lowercase(s).len() == s.len(),
        forall|i: int| 0 <= i < s.len() ==> #[trigger] lowercase(s)[i] == ascii_lower(s[i]),
{
}

/// Putting the pieces of a text together again gives the text.
pub proof fn law_joining_undoes_splitting(s: Seq<char>, sep: char)
    ensures
        join(split(s, sep), seq![sep]) == s,
    decreases s.len(),
{
    let parts = split(s, sep);
    if s.len() == 0 {
        assert(join(parts, seq![sep]) =~= s);
    } else {
        let d = s.drop_last();
        let before = split(d, sep);
        lemma_split_not_empty(d, sep);
        law_joining_undoes_splitting(d, sep);
        assert(s =~= d.push(s.last()));
        if s.last() == sep {
            assert(parts.drop_last() =~= before);
            assert(join(parts, seq![sep]) =~= d + seq![sep]);
            assert(s =~= d + seq![sep]);
        } else {
            assert(parts.drop_last() =~= before.drop_last());
            assert(join(parts, seq![sep]) =~= d.push(s.last()));
        }
    }
}

/// A text that nothing is to be replaced in stays as it is, and so does one in
/// which something is replaced by itself.
pub proof fn law_replacing_nothing(s: Seq<char>, pat: Seq<char>, with: Seq<char>)
    ensures
        (forall|at: int| !stands_at(s, pat, at)) ==> replace_all(s, pat, with) == s,
        replace_all(s, pat, pat) == s,
    decreases s.len(),
{
    if pat.len() > 0 && s.len() > 0 {
        if begins_with(s, pat) {
            assert(s.subrange(0, pat.len() as int) =~= s.take(pat.len() as int));
            assert(stands_at(s, pat, 0));
            law_replacing_nothing(s.skip(pat.len() as int), pat, with);
            assert(s =~= s.take(pat.len() as int) + s.skip(pat.len() as int));
        } else {
            let r = s.skip(1);
            law_replacing_nothing(r, pat, with);
            if forall|at: int| !stands_at(s, pat, at) {
                assert forall|at: int| !stands_at(r, pat, at) by {
                    if stands_at(r, pat, at) {
                        assert(s.subrange(at + 1, at + 1 + pat.len()) =~= r.subrange(
                            at,
                            at + pat.len(),
                        ));
                        assert(stands_at(s, pat, at + 1));
                    }
                }
            }
            assert(seq![s.first()] + r =~= s);
        }
    }
}

/// A text begins and ends with what it is put together from.
pub proof fn law_beginnings_and_ends(a: Seq<char>, b: Seq<char>, c: Seq<char>)
    ensures
        begins_with(a + b, a),
        finishes_with(a + b, b),
        stands_at(a + b + c, b, a.len() as int),
        begins_with(a, b) ==> b.len() <= a.len() && a.take(b.len() as int) == b,
        finishes_with(a, b) ==> b.len() <= a.len() && a.skip(a.len() - b.len()) == b,
{
    assert((a + b).take(a.len() as int) =~= a);
    assert((a + b).skip(a.len() as int) =~= b);
    assert((a + b + c).subrange(a.len() as int, (a.len() + b.len()) as int) =~= b);
}

} // verus!

//! Transient notifications: what the app's windows show, and the same message
//! as a native Windows toast.

use vstd::prelude::*;

use crate::text::{begins_with, chars_of};

verus! {

pub struct ToastPayload {
    pub kind: String,
    pub message: String,
}

impl ToastPayload {
    pub open spec fn says(self, kind: Seq<char>, message: Seq<char>) -> bool {
        self.kind@ == kind && self.message@ == message
    }
}

pub fn payload(kind: &str, message: &str) -> (p: ToastPayload)
    ensures
        p.says(kind@, message@),
        p.kind@ == kind@,
        p.message@ == message@,
{
    ToastPayload { kind: kind.to_owned(), message: message.to_owned() }
}

/// A character as it is written in XML text.
pub open spec fn escaped_char(c: char) -> Seq<char> {
    if c == '&' {
        "&amp;"@
    } else if c == '<' {
        "&lt;"@
    } else if c == '>' {
        "&gt;"@
    } else {
        seq![c]
    }
}

/// A text as it is written in XML.
pub open spec fn escaped(s: Seq<char>) -> Seq<char>
    decreases s.len(),
{
    if s.len() == 0 {
        s
    } else {
        escaped(s.drop_last()) + escaped_char(s.last())
    }
}

pub fn escape(message: &str) -> (r: String)
    ensures
        r@ == escaped(message@),
{
    let v = chars_of(message);
    let mut r = String::new();
    assert(message@.take(0) =~= Seq::<char>::empty());
    for i in 0..v.len()
        invariant
            v@ == message@,
            r@ == escaped(message@.take(i as int)),
    {
        let c = v[i];
        assert(message@.take(i + 1).drop_last() =~= message@.take(i as int));
        assert(message@.take(i + 1).last() == c);
        let ghost before = r@;
        if c == '&' {
            r.append("&amp;");
        } else if c == '<' {
            r.append("&lt;");
        } else if c == '>' {
            r.append("&gt;");
        } else {
            r.push(c);
        }
        assert(r@ =~= before + escaped_char(c));
    }
    assert(message@.take(message@.len() as int) =~= message@);
    r
}

pub open spec fn toast_head() -> Seq<char> {
    "<toast duration=\"short\"><visual><binding template=\"ToastGeneric\"><text>"@
}

pub open spec fn toast_tail() -> Seq<char> {
    "</text></binding></visual></toast>"@
}

/// The XML document of a native toast.
pub fn native_toast(message: &str) -> (xml: String)
    ensures
        xml@ == toast_head() + escaped(message@) + toast_tail(),
{
    let mut xml =
        "<toast duration=\"short\"><visual><binding template=\"ToastGeneric\"><text>".to_owned();
    xml.append(escape(message).as_str());
    xml.append("</text></binding></visual></toast>");
    xml
}

/// Both forms of a notification.
pub fn toast(kind: &str, message: &str) -> (r: (ToastPayload, String))
    ensures
        r.0.says(kind@, message@),
        r.1@ == toast_head() + escaped(message@) + toast_tail(),
{
    (payload(kind, message), native_toast(message))
}

/// An escaped text holds no character that could start or end a tag.
pub proof fn law_escaped_text_has_no_tags(s: Seq<char>)
    ensures
        forall|i: int|
            0 <= i < escaped(s).len() ==> #[trigger] escaped(s)[i] != '<' && escaped(s)[i] != '>',
    decreases s.len(),
{
    if s.len() > 0 {
        law_escaped_text_has_no_tags(s.drop_last());
        reveal_strlit("&amp;");
        reveal_strlit("&lt;");
        reveal_strlit("&gt;");
        let a = escaped(s.drop_last());
        let b = escaped_char(s.last());
        assert forall|i: int| 0 <= i < escaped(s).len() implies #[trigger] escaped(s)[i] != '<'
            && escaped(s)[i] != '>' by {
            if i < a.len() {
                assert(escaped(s)[i] == a[i]);
            } else {
                assert(escaped(s)[i] == b[i - a.len()]);
            }
        }
    }
}

/// The text that an XML text stands for.
pub open spec fn unescaped(t: Seq<char>) -> Seq<char>
    decreases t.len(),
{
    if t.len() == 0 {
        t
    } else if begins_with(t, "&amp;"@) && t.len() >= 5 {
        seq!['&'] + unescaped(t.skip(5))
    } else if begins_with(t, "&lt;"@) && t.len() >= 4 {
        seq!['<'] + unescaped(t.skip(4))
    } else if begins_with(t, "&gt;"@) && t.len() >= 4 {
        seq!['>'] + unescaped(t.skip(4))
    } else {
        seq![t.first()] + unescaped(t.skip(1))
    }
}

proof fn lemma_escaped_front(c: char, s: Seq<char>)
    ensures
        escaped(seq![c] + s) == escaped_char(c) + escaped(s),
    decreases s.len(),
{
    let t = seq![c] + s;
    if s.len() == 0 {
        assert(t.drop_last() =~= Seq::<char>::empty());
        assert(t.last() == c);
        assert(escaped(t.drop_last()) =~= Seq::<char>::empty());
        assert(s =~= Seq::<char>::empty());
        assert(escaped(t) =~= escaped_char(c) + escaped(s));
    } else {
        assert(t.drop_last() =~= seq![c] + s.drop_last());
        assert(t.last() == s.last());
        lemma_escaped_front(c, s.drop_last());
        assert(escaped(t) =~= escaped_char(c) + escaped(s));
    }
}

/// The reader of a toast sees the message that was sent.
pub proof fn law_escaping_keeps_the_message(s: Seq<char>)
    ensures
        unescaped(escaped(s)) == s,
    decreases s.len(),
{
    if s.len() > 0 {
        let c = s.first();
        let rest = s.skip(1);
        assert(s =~= seq![c] + rest);
        lemma_escaped_front(c, rest);
        law_escaping_keeps_the_message(rest);
        reveal_strlit("&amp;");
        reveal_strlit("&lt;");
        reveal_strlit("&gt;");
        let t = escaped(s);
        let e = escaped_char(c);
        assert(t.skip(e.len() as int) =~= escaped(rest));
        assert(t.take(e.len() as int) =~= e);
        if c == '&' {
            assert(begins_with(t, "&amp;"@));
        } else if c == '<' {
            assert(begins_with(t, "&lt;"@));
            if begins_with(t, "&amp;"@) {
                assert(t.take(5)[1] == "&amp;"@[1]);
                assert(t.take(4)[1] == "&lt;"@[1]);
                assert(t[1] == 'a' && t[1] == 'l');
            }
        } else if c == '>' {
            assert(begins_with(t, "&gt;"@));
            if begins_with(t, "&amp;"@) {
                assert(t.take(5)[1] == "&amp;"@[1]);
                assert(t.take(4)[1] == "&gt;"@[1]);
                assert(t[1] == 'a' && t[1] == 'g');
            }
            if begins_with(t, "&lt;"@) {
                assert(t.take(4)[1] == "&lt;"@[1]);
                assert(t.take(4)[1] == "&gt;"@[1]);
            }
        } else {
            assert(t.first() == c);
            if begins_with(t, "&amp;"@) {
                assert(t.take(5)[0] == '&');
            }
            if begins_with(t, "&lt;"@) {
                assert(t.take(4)[0] == '&');
            }
            if begins_with(t, "&gt;"@) {
                assert(t.take(4)[0] == '&');
            }
        }
        assert(unescaped(t) =~= s);
    }
}

/// Escaping goes character by character, and only the three characters that XML
/// gives a meaning to are written differently.
pub proof fn law_escaping_goes_by_character(a: Seq<char>, b: Seq<char>, c: char)
    ensures
        escaped(a + b) == escaped(a) + escaped(b),
        escaped(seq!['&']) == "&amp;"@,
        escaped(seq!['<']) == "&lt;"@,
        escaped(seq!['>']) == "&gt;"@,
        c != '&' && c != '<' && c != '>' ==> escaped(seq![c]) == seq![c],
    decreases b.len(),
{
    let none = Seq::<char>::empty();
    lemma_escaped_front('&', none);
    lemma_escaped_front('<', none);
    lemma_escaped_front('>', none);
    lemma_escaped_front(c, none);
    assert(escaped(none) =~= none);
    assert(seq!['&'] + none =~= seq!['&']);
    assert(seq!['<'] + none =~= seq!['<']);
    assert(seq!['>'] + none =~= seq!['>']);
    assert(seq![c] + none =~= seq![c]);
    assert(escaped_char('&') + none =~= "&amp;"@);
    assert(escaped_char('<') + none =~= "&lt;"@);
    assert(escaped_char('>') + none =~= "&gt;"@);
    assert(escaped_char(c) + none =~= escaped_char(c));
    if b.len() == 0 {
        assert(a + b =~= a);
        assert(escaped(a) + escaped(b) =~= escaped(a));
    } else {
        law_escaping_goes_by_character(a, b.drop_last(), c);
        assert((a + b).drop_last() =~= a + b.drop_last());
        assert((a + b).last() == b.last());
        assert(escaped(a + b) =~= escaped(a) + escaped(b));
    }
}

/// A notification says what its kind and its message are, and nothing else.
pub proof fn law_notifications_say_one_thing(p: ToastPayload, kind: Seq<char>, message: Seq<char>)
    ensures
        p.says(kind, message) == (p.kind@ == kind && p.message@ == message),
{
}

} // verus!

//! The debug log: its lines, when it is rotated, and what the log of the
//! session before tells.

use vstd::prelude::*;

use crate::filename::{in_dir, join_path};
use crate::text::{contains, stands_at, two_digits, two_digits_of};

verus! {

/// The most bytes of a session's log, before it is rotated.
pub const MAX_LOG_BYTES: u64 = 2_097_152;

/// How many bytes at the end of a log are looked at.
pub const TAIL_BYTES: usize = 4096;

/// A time of day, as hours, minutes and seconds.
pub open spec fn clock_text(secs: u64) -> Seq<char> {
    let s = secs as nat % 86400;
    two_digits(s / 3600) + ":"@ + two_digits(s % 3600 / 60) + ":"@ + two_digits(s % 60)
}

/// The time of day at a number of seconds since the epoch.
pub fn wall_clock(secs: u64) -> (r: String)
    ensures
        r@ == clock_text(secs),
{
    let s: u64 = secs % 86400;
    let mut r = two_digits_of(s / 3600);
    r.append(":");
    r.append(two_digits_of(s % 3600 / 60).as_str());
    r.append(":");
    r.append(two_digits_of(s % 60).as_str());
    assert(r@ =~= clock_text(secs));
    r
}

/// Where the log is written.
pub fn log_path(config_dir: Option<&str>) -> (r: String)
    ensures
        r@ == in_dir(
            match config_dir {
                Some(d) => d@,
                None => "."@,
            },
            "snapdrop-debug.log"@,
        ),
{
    match config_dir {
        Some(d) => join_path(d, "snapdrop-debug.log"),
        None => join_path(".", "snapdrop-debug.log"),
    }
}

/// Where the log of the session before is kept.
pub fn previous_path(config_dir: Option<&str>) -> (r: String)
    ensures
        r@ == in_dir(
            match config_dir {
                Some(d) => d@,
                None => "."@,
            },
            "snapdrop-debug.prev.log"@,
        ),
{
    match config_dir {
        Some(d) => join_path(d, "snapdrop-debug.prev.log"),
        None => join_path(".", "snapdrop-debug.prev.log"),
    }
}

/// A digit of a number in base sixteen.
pub open spec fn hex_digit(n: int) -> char {
    if n < 10 {
        (48 + n) as char
    } else {
        (87 + n) as char
    }
}

/// The last `digits` digits of a number in base sixteen.
pub open spec fn hex_text(n: int, digits: nat) -> Seq<char>
    decreases digits,
{
    if digits == 0 {
        Seq::empty()
    } else {
        hex_text(n / 16, (digits - 1) as nat).push(hex_digit(n % 16))
    }
}

fn hex_char(n: u8) -> (c: char)
    requires
        n < 16,
    ensures
        c == hex_digit(n as int),
{
    if n < 10 {
        (48 + n) as char
    } else {
        (87 + n) as char
    }
}

fn hex_of(n: u64, digits: u8) -> (r: String)
    ensures
        r@ == hex_text(n as int, digits as nat),
    decreases digits,
{
    if digits == 0 {
        let s = String::new();
        assert(s@ =~= Seq::<char>::empty());
        return s;
    }
    let mut s = hex_of(n / 16, digits - 1);
    s.push(hex_char((n % 16) as u8));
    s
}

/// The identity of a session, from a hash of what tells it apart: sixteen
/// digits.
pub fn new_session_id(hash: u64) -> (r: String)
    ensures
        r@ == hex_text(hash as int, 16),
{
    hex_of(hash, 16)
}

/// A line of the log. `elapsed` is the time since the start, as it is shown.
pub open spec fn line_text(elapsed: Seq<char>, msg: Seq<char>) -> Seq<char> {
    "["@ + elapsed + "] "@ + msg + "\n"@
}

/// The line of a message, and whether the log is rotated first: it has grown
/// beyond its limit. A log whose length is not known counts as empty.
pub fn log(elapsed: &str, msg: &str, length: Option<u64>) -> (r: (String, bool))
    ensures
        r.0@ == line_text(elapsed@, msg@),
        r.1 == (length matches Some(n) && n > MAX_LOG_BYTES),
{
    let mut line = "[".to_owned();
    line.append(elapsed);
    line.append("] ");
    line.append(msg);
    line.append("\n");
    let rotate = match length {
        Some(n) => n > MAX_LOG_BYTES,
        None => false,
    };
    (line, rotate)
}

/// The first line of a log that was rotated.
pub fn rotation_marker() -> (r: String)
    ensures
        r@ == "--- log rotated (size cap 2MB) ---\n"@,
{
    "--- log rotated (size cap 2MB) ---\n".to_owned()
}

/// The characters of an ASCII text, as bytes.
pub open spec fn ascii_bytes(s: Seq<char>) -> Seq<u8> {
    s.map_values(|c: char| c as u8)
}

/// The end of a file.
pub open spec fn tail(data: Seq<u8>) -> Seq<u8> {
    if data.len() > TAIL_BYTES {
        data.skip(data.len() - TAIL_BYTES)
    } else {
        data
    }
}

/// The line that a session writes when it ends in order.
pub open spec fn exit_marker() -> Seq<char> {
    "session end (clean exit)"@
}

fn marker_bytes() -> (r: Vec<u8>)
    ensures
        r@ == ascii_bytes(exit_marker()),
{
    let v = crate::text::chars_of("session end (clean exit)");
    let mut r: Vec<u8> = Vec::new();
    for i in 0..v.len()
        invariant
            v@ == exit_marker(),
            r@ == ascii_bytes(exit_marker()).take(i as int),
    {
        let c: char = v[i];
        r.push(c as u8);
        assert(r@ =~= ascii_bytes(exit_marker()).take(i + 1));
    }
    assert(r@ =~= ascii_bytes(exit_marker()));
    r
}

fn holds_at(data: &Vec<u8>, t: &Vec<u8>, at: usize) -> (r: bool)
    requires
        at <= data@.len(),
    ensures
        r == stands_at(data@, t@, at as int),
{
    let n: usize = data.len();
    let m: usize = t.len();
    if m > n - at {
        return false;
    }
    let mut i: usize = 0;
    while i < m
        invariant
            n == data@.len(),
            m == t@.len(),
            at + m <= n,
            i <= m,
            forall|j: int| 0 <= j < i ==> data@[at + j] == t@[j],
        decreases m - i,
    {
        if data[at + i] != t[i] {
            proof {
                if data@.subrange(at as int, at + m) == t@ {
                    assert(data@.subrange(at as int, at + m)[i as int] == t@[i as int]);
                }
            }
            return false;
        }
        i = i + 1;
    }
    assert(data@.subrange(at as int, at + m) =~= t@);
    true
}

/// Whether the session before ended in order, from the content of its log;
/// unknown where there is none. Only the end of the log is looked at.
pub fn prev_ended_cleanly(data: Option<&Vec<u8>>) -> (r: Option<bool>)
    ensures
        r == (match data {
            Some(d) => Some(contains(tail(d@), ascii_bytes(exit_marker()))),
            None => None,
        }),
{
    let d = match data {
        Some(d) => d,
        None => {
            return None;
        },
    };
    let marker = marker_bytes();
    let n: usize = d.len();
    let start: usize = if n > TAIL_BYTES {
        n - TAIL_BYTES
    } else {
        0
    };
    let ghost t = tail(d@);
    assert(t =~= d@.skip(start as int));
    let mut at: usize = start;
    while at < n
        invariant
            n == d@.len(),
            start <= at <= n,
            data == Some(d),
            t == tail(d@),
            t == d@.skip(start as int),
            marker@ == ascii_bytes(exit_marker()),
            forall|j: int| 0 <= j < at - start ==> !stands_at(t, marker@, j),
        decreases n - at,
    {
        let found = holds_at(d, &marker, at);
        proof {
            let k = at - start;
            if k + marker@.len() <= t.len() {
                assert(t.subrange(k, k + marker@.len()) =~= d@.subrange(
                    at as int,
                    at + marker@.len(),
                ));
            }
            assert(stands_at(t, marker@, k) == stands_at(d@, marker@, at as int));
        }
        if found {
            return Some(true);
        }
        at = at + 1;
    }
    proof {
        reveal_strlit("session end (clean exit)");
        if contains(t, marker@) {
            let j = choose|j: int| stands_at(t, marker@, j);
            assert(j < t.len());
        }
    }
    Some(false)
}

/// The lines at the start of a session.
pub fn init_path(session_id: &str, clock: &str, previous: Option<bool>) -> (r: (String, String))
    ensures
        r.0@ == "===== session start id="@ + session_id@ + " ("@ + clock@ + ") ====="@,
        r.1@ == (match previous {
            None => "previous session: none (first run, or no prev log)"@,
            Some(true) => "previous session: ended cleanly"@,
            Some(false) =>
                "previous session: UNCLEAN (no exit marker — may have wedged; see prev log)"@,
        }),
{
    let mut first = "===== session start id=".to_owned();
    first.append(session_id);
    first.append(" (");
    first.append(clock);
    first.append(") =====");
    let second = match previous {
        None => "previous session: none (first run, or no prev log)",
        Some(true) => "previous session: ended cleanly",
        Some(false) =>
            "previous session: UNCLEAN (no exit marker — may have wedged; see prev log)",
    };
    (first, second.to_owned())
}

/// The content of a log, or why it cannot be shown.
pub fn read(path: &str, content: Result<String, String>) -> (r: Result<String, String>)
    ensures
        match content {
            Ok(t) => r matches Ok(s) && s@ == t@,
            Err(e) => r matches Err(m) && m@ == "Could not read "@ + path@ + ": "@ + e@,
        },
{
    match content {
        Ok(t) => Ok(t),
        Err(e) => {
            let mut m = "Could not read ".to_owned();
            m.append(path);
            m.append(": ");
            m.append(e.as_str());
            Err(m)
        },
    }
}

/// The content of the log of the session before, or why it cannot be shown.
pub fn read_previous(path: &str, present: bool, content: Result<String, String>) -> (r: Result<
    String,
    String,
>)
    ensures
        if !present {
            r matches Err(m) && m@
                == "No previous session log yet (current session is the first, or the previous file was missing)."@
        } else {
            match content {
                Ok(t) => r matches Ok(s) && s@ == t@,
                Err(e) => r matches Err(m) && m@ == "Could not read "@ + path@ + ": "@ + e@,
            }
        },
{
    if !present {
        return Err(
            "No previous session log yet (current session is the first, or the previous file was missing).".to_owned(),
        );
    }
    read(path, content)
}

/// Whether the log of the session before can be opened.
pub fn open_previous(present: bool) -> (r: Result<(), String>)
    ensures
        match r {
            Ok(_) => present,
            Err(m) => !present && m@ == "No previous session log yet."@,
        },
{
    if present {
        Ok(())
    } else {
        Err("No previous session log yet.".to_owned())
    }
}

/// A log that ends with the exit marker tells of an orderly end.
pub proof fn law_exit_marker_is_found(before: Seq<u8>, after: Seq<u8>)
    requires
        exit_marker().len() + after.len() <= TAIL_BYTES,
    ensures
        contains(tail(before + ascii_bytes(exit_marker()) + after), ascii_bytes(exit_marker())),
{
    let m = ascii_bytes(exit_marker());
    let all = before + m + after;
    let t = tail(all);
    let at = before.len() - (all.len() - t.len());
    assert(t.subrange(at, at + m.len()) =~= m);
    assert(stands_at(t, m, at));
}

/// A time of day has eight characters.
pub proof fn law_clock_has_eight_characters(secs: u64)
    ensures
        clock_text(secs).len() == 8,
{
    reveal_strlit(":");
}

/// The number that a digit in base sixteen stands for.
pub open spec fn hex_value(c: char) -> int {
    if '0' <= c <= '9' {
        c as int - '0' as int
    } else {
        c as int - 'a' as int + 10
    }
}

/// The number that a text in base sixteen stands for.
pub open spec fn hex_number(s: Seq<char>) -> int
    decreases s.len(),
{
    if s.len() == 0 {
        0
    } else {
        16 * hex_number(s.drop_last()) + hex_value(s.last())
    }
}

/// Reading the digits of an identity gives back the number, as far as the digits
/// reach; there are exactly as many as were asked for, in small letters.
pub proof fn law_identities_are_read_back(n: int, digits: nat)
    requires
        n >= 0,
    ensures
        hex_text(n, digits).len() == digits,
        forall|i: int|
            0 <= i < digits ==> '0' <= #[trigger] hex_text(n, digits)[i] <= '9' || 'a' <= hex_text(
                n,
                digits,
            )[i] <= 'f',
        n < vstd::arithmetic::power::pow(16, digits) ==> hex_number(hex_text(n, digits)) == n,
    decreases digits,
{
    if digits == 0 {
        vstd::arithmetic::power::lemma_pow0(16);
    } else {
        let d = (digits - 1) as nat;
        law_identities_are_read_back(n / 16, d);
        let s = hex_text(n, digits);
        let r = hex_text(n / 16, d);
        assert(s.drop_last() =~= r);
        assert(s.last() == hex_digit(n % 16));
        assert forall|i: int| 0 <= i < digits implies '0' <= #[trigger] s[i] <= '9' || 'a' <= s[i]
            <= 'f' by {
            if i < d {
                assert(s[i] == r[i]);
            }
        }
        if n < vstd::arithmetic::power::pow(16, digits) {
            reveal(vstd::arithmetic::power::pow);
            assert(vstd::arithmetic::power::pow(16, digits) == 16 * vstd::arithmetic::power::pow(
                16,
                d,
            ));
            lemma_hex_digit(n % 16);
        }
    }
}

proof fn lemma_hex_digit(n: int)
    requires
        0 <= n < 16,
    ensures
        hex_value(hex_digit(n)) == n,
{
}

/// The clock shows hours, minutes and seconds in two digits each, which add up
/// to the seconds since midnight.
pub proof fn law_the_clock_is_read_back(secs: u64)
    ensures
        ({
            let t = clock_text(secs);
            let pair = |i: int| (t[i] as int - '0' as int) * 10 + (t[i + 1] as int - '0' as int);
            &&& t.len() == 8
            &&& t[2] == ':' && t[5] == ':'
            &&& 0 <= pair(0) < 24 && 0 <= pair(3) < 60 && 0 <= pair(6) < 60
            &&& pair(0) * 3600 + pair(3) * 60 + pair(6) == secs % 86400
        }),
{
    reveal_strlit(":");
    let s = secs as nat % 86400;
    crate::text::law_two_digits(s / 3600);
    crate::text::law_two_digits(s % 3600 / 60);
    crate::text::law_two_digits(s % 60);
    let t = clock_text(secs);
    let a = two_digits(s / 3600);
    let b = two_digits(s % 3600 / 60);
    let c = two_digits(s % 60);
    assert(t[0] == a[0] && t[1] == a[1]);
    assert(t[3] == b[0] && t[4] == b[1]);
    assert(t[6] == c[0] && t[7] == c[1]);
}

/// What is looked at of a log is its end: all of a short one, and of a long one
/// the last bytes.
pub proof fn law_tails_are_the_end(data: Seq<u8>)
    ensures
        tail(data).len() <= TAIL_BYTES,
        tail(data).len() <= data.len(),
        tail(data) == data.skip(data.len() - tail(data).len()),
        data.len() >= TAIL_BYTES ==> tail(data).len() == TAIL_BYTES,
        data.len() < TAIL_BYTES ==> tail(data) == data,
{
    assert(data.skip(0) =~= data);
}

/// A line of the log holds the time in brackets, the message and a line break.
pub proof fn law_lines_hold_their_message(elapsed: Seq<char>, msg: Seq<char>)
    ensures
        line_text(elapsed, msg).len() == elapsed.len() + msg.len() + 4,
        line_text(elapsed, msg)[0] == '[',
        line_text(elapsed, msg).subrange(1, 1int + elapsed.len()) == elapsed,
        line_text(elapsed, msg).subrange(3int + elapsed.len(), 3int + elapsed.len() + msg.len())
            == msg,
        line_text(elapsed, msg).last() == '\n',
{
    reveal_strlit("[");
    reveal_strlit("] ");
    reveal_strlit("\n");
    let l = line_text(elapsed, msg);
    assert(l.subrange(1, 1int + elapsed.len()) =~= elapsed);
    assert(l.subrange(3int + elapsed.len(), 3int + elapsed.len() + msg.len()) =~= msg);
}

} // verus!

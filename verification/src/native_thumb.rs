//! The native thumbnail window: a stack of captures with the newest on top,
//! what its commands and clicks do, and what is painted.

use std::collections::HashSet;
use vstd::prelude::*;

use crate::encoding::{decode_rgba, decoded_png, is_png, known_kind, opaque, to_opaque};
use crate::monitors::Rect;
use crate::text::{chars_of, string_of};

verus! {

broadcast use vstd::std_specs::hash::group_hash_axioms;

/// The most captures in the stack.
pub const STACK_LIMIT: usize = 10;

/// Extra physical pixels below the card so older captures can peek out.
pub const PEEK_SPACE: i32 = 20;

/// Height of a row in the expanded list (physical px).
pub const ROW_H: i32 = 48;

/// Height of the filename caption bar (physical px).
pub const CAPTION_H: i32 = 26;

/// A click this soon after a double click does not expand the list.
pub const DOUBLE_CLICK_MS: u64 = 700;

/// The largest height of a card: what 32 bits hold, less the space below it and
/// the rows of a full stack.
pub const MAX_CARD: i32 = 0x7fff_ffff - PEEK_SPACE - 9 * ROW_H;

pub const CARD_BG: u32 = 0x002b_221e;

pub const PEEK_BG: u32 = 0x0012_0f14;

pub const CAPTION_BG: u32 = 0x001a_1310;

pub const PLACEHOLDER_BG: u32 = 0x003a_2f2a;

pub const BORDER: u32 = 0x004a_3f3a;

pub const ROW_BG: u32 = 0x0022_1a17;

pub const TEXT: u32 = 0x00ff_ffff;

pub const BADGE_BG: u32 = 0x000b_9ef5;

pub const BADGE_TEXT: u32 = 0x002b_221e;

/// One capture to show. `png` is the raw preview PNG.
pub struct PresentEntry {
    pub capture_id: u64,
    pub path: Option<String>,
    pub png: Vec<u8>,
    pub unsaved: bool,
}

/// A capture in the stack.
pub struct Entry {
    pub capture_id: u64,
    pub path: Option<String>,
    pub file_name: String,
    /// Decoded preview as top-down BGRA with its width and height.
    pub bits: Option<(Vec<u8>, u32, u32)>,
    pub unsaved: bool,
}

pub enum Cmd {
    Present(PresentEntry, (u32, u32), Option<(i32, i32)>, u64),
    Hide,
    Show,
    DragOutcome { capture_id: u64, dropped: bool, moved: bool, hide_after_drop: bool },
    Open(String),
    Reveal(String),
}

pub struct State {
    /// The captures, the current card first.
    pub stack: Vec<Entry>,
    /// The captures that were shown before.
    pub seen: HashSet<u64>,
    pub expanded: bool,
    pub card_w: i32,
    pub card_h: i32,
    pub pos: Option<(i32, i32)>,
    pub auto_hide_ms: u64,
    pub timer_gen: u64,
    pub ctrl_pending: bool,
    pub last_dbl_ms: u64,
}

/// What a command does to the window, in this order.
pub struct NativeEffects {
    pub hide: bool,
    /// Show the window with this size, at this position or where it is.
    pub show: Option<((i32, i32), Option<(i32, i32)>)>,
    /// Start the timer that dismisses the thumbnail: its time and its number.
    pub auto_hide: Option<(u64, u64)>,
    pub repaint: bool,
    pub open: Option<String>,
    pub reveal: Option<String>,
}

/// Whether every capture of a stack is in it once, has been recorded as seen,
/// and can be drawn.
pub open spec fn stack_ok(stack: Seq<Entry>, seen: Set<u64>) -> bool {
    &&& stack.len() <= STACK_LIMIT
    &&& forall|i: int|
        0 <= i < stack.len() ==> {
            let e = #[trigger] stack[i];
            e.capture_id != 0 && e.bits is Some && seen.contains(e.capture_id)
        }
    &&& forall|i: int, j: int|
        0 <= i < j < stack.len() ==> (#[trigger] stack[i]).capture_id != (
        #[trigger] stack[j]).capture_id
}

impl State {
    pub open spec fn wf(self) -> bool {
        &&& stack_ok(self.stack@, self.seen@)
        &&& 0 <= self.card_w
        &&& 0 <= self.card_h <= MAX_CARD
    }

    /// The size of the window: the card, the space below it, and the rows of
    /// an expanded list.
    pub open spec fn window_size(self) -> (int, int) {
        (
            self.card_w as int,
            self.card_h + PEEK_SPACE + (if self.expanded && self.stack@.len() > 1 {
                (self.stack@.len() - 1) * ROW_H
            } else {
                0
            }),
        )
    }
}

impl Default for State {
    fn default() -> (st: State)
        ensures
            st.stack@.len() == 0,
            st.seen@ == Set::<u64>::empty(),
            !st.expanded,
            st.card_w == 320,
            st.card_h == 240,
            st.pos is None,
            st.auto_hide_ms == 0,
            st.timer_gen == 0,
            !st.ctrl_pending,
            st.last_dbl_ms == 0,
            st.wf(),
    {
        State {
            stack: Vec::new(),
            seen: HashSet::new(),
            expanded: false,
            card_w: 320,
            card_h: 240,
            pos: None,
            auto_hide_ms: 0,
            timer_gen: 0,
            ctrl_pending: false,
            last_dbl_ms: 0,
        }
    }
}

/// Whether a capture is taken onto the stack: it has an identity, can be drawn
/// and was not shown before.
pub open spec fn is_new(seen: Set<u64>, entry: Entry) -> bool {
    entry.capture_id != 0 && entry.bits is Some && !seen.contains(entry.capture_id)
}

/// A stack with a capture put on top, and the oldest dropped where there are
/// too many.
pub open spec fn pushed(stack: Seq<Entry>, entry: Entry) -> Seq<Entry> {
    let all = seq![entry] + stack;
    if all.len() <= STACK_LIMIT {
        all
    } else {
        all.take(STACK_LIMIT as int)
    }
}

/// Stack insertion policy: dedupe by capture id, newest first, a limited
/// number.
pub fn stack_push(stack: &mut Vec<Entry>, seen: &mut HashSet<u64>, entry: Entry) -> (added: bool)
    ensures
        added == is_new(old(seen)@, entry),
        if added {
            final(stack)@ == pushed(old(stack)@, entry) && final(seen)@ == old(seen)@.insert(
                entry.capture_id,
            )
        } else {
            final(stack)@ == old(stack)@ && final(seen)@ == old(seen)@
        },
{
    if entry.capture_id == 0 || entry.bits.is_none() || !seen.insert(entry.capture_id) {
        assert(seen@ =~= old(seen)@);
        return false;
    }
    stack.insert(0, entry);
    assert(stack@ =~= seq![entry] + old(stack)@);
    stack.truncate(STACK_LIMIT);
    true
}

/// The captures of a stack but the given one.
pub open spec fn others(stack: Seq<Entry>, id: u64) -> Seq<Entry>
    decreases stack.len(),
{
    if stack.len() == 0 {
        stack
    } else {
        let rest = others(stack.drop_last(), id);
        if stack.last().capture_id != id {
            rest.push(stack.last())
        } else {
            rest
        }
    }
}

/// Whether a capture is in a stack.
pub open spec fn holds(stack: Seq<Entry>, id: u64) -> bool {
    exists|i: int| 0 <= i < stack.len() && (#[trigger] stack[i]).capture_id == id
}

/// Takes a capture off the stack; it may then be shown again.
pub fn stack_remove(stack: &mut Vec<Entry>, seen: &mut HashSet<u64>, capture_id: u64) -> (removed:
    bool)
    ensures
        removed == holds(old(stack)@, capture_id),
        final(stack)@ == others(old(stack)@, capture_id),
        final(seen)@ == (if removed {
            old(seen)@.remove(capture_id)
        } else {
            old(seen)@
        }),
        final(stack)@ == old(stack)@.filter(|e: Entry| e.capture_id != capture_id),
        removed == (exists|i: int|
            0 <= i < old(stack)@.len() && (#[trigger] old(stack)@[i]).capture_id == capture_id),
{
    let mut rest: Vec<Entry> = Vec::new();
    std::mem::swap(stack, &mut rest);
    let ghost all = rest@;
    let mut removed = false;
    for e in it: rest
        invariant
            it.seq() == all,
            stack@ == others(all.take(it.index() as int), capture_id),
            removed == holds(all.take(it.index() as int), capture_id),
    {
        let ghost i = it.index() as int;
        proof {
            assert(all.take(i + 1).drop_last() =~= all.take(i));
            assert(all.take(i + 1).last() == all[i]);
            if holds(all.take(i), capture_id) {
                let j = choose|j: int|
                    0 <= j < i && (#[trigger] all.take(i)[j]).capture_id == capture_id;
                assert(all.take(i + 1)[j].capture_id == capture_id);
            }
            if all[i].capture_id == capture_id {
                assert(all.take(i + 1)[i].capture_id == capture_id);
            } else if holds(all.take(i + 1), capture_id) {
                let j = choose|j: int|
                    0 <= j < i + 1 && (#[trigger] all.take(i + 1)[j]).capture_id == capture_id;
                assert(all.take(i)[j].capture_id == capture_id);
            }
        }
        if e.capture_id == capture_id {
            removed = true;
        } else {
            stack.push(e);
        }
    }
    assert(all.take(all.len() as int) =~= all);
    proof {
        lemma_others_are_filtered(all, capture_id);
    }
    if removed {
        seen.remove(&capture_id);
        assert(seen@ =~= old(seen)@.remove(capture_id));
    }
    removed
}

proof fn lemma_others_are_filtered(stack: Seq<Entry>, id: u64)
    ensures
        others(stack, id) == stack.filter(|e: Entry| e.capture_id != id),
    decreases stack.len(),
{
    reveal(Seq::filter);
    if stack.len() > 0 {
        lemma_others_are_filtered(stack.drop_last(), id);
    } else {
        assert(others(stack, id) =~= stack.filter(|e: Entry| e.capture_id != id));
    }
}

proof fn lemma_others(stack: Seq<Entry>, id: u64)
    ensures
        others(stack, id).len() <= stack.len(),
        !holds(others(stack, id), id),
        holds(stack, id) ==> others(stack, id).len() < stack.len(),
        !holds(stack, id) ==> others(stack, id) == stack,
        forall|k: int|
            0 <= k < others(stack, id).len() ==> stack.contains(#[trigger] others(stack, id)[k]),
        forall|seen: Set<u64>| #[trigger]
            stack_ok(stack, seen) ==> stack_ok(others(stack, id), seen.remove(id)),
    decreases stack.len(),
{
    let w = others(stack, id);
    if stack.len() > 0 {
        let d = stack.drop_last();
        let r = others(d, id);
        lemma_others(d, id);
        assert(stack[stack.len() - 1] == stack.last());
        if holds(stack, id) && stack.last().capture_id != id {
            let i = choose|i: int| 0 <= i < stack.len() && (#[trigger] stack[i]).capture_id == id;
            assert(d[i].capture_id == id);
        }
        if !holds(stack, id) {
            assert(!holds(d, id)) by {
                if holds(d, id) {
                    let i = choose|i: int| 0 <= i < d.len() && (#[trigger] d[i]).capture_id == id;
                    assert(stack[i].capture_id == id);
                }
            }
            assert(w =~= stack);
        }
        assert(!holds(w, id)) by {
            if holds(w, id) {
                let i = choose|i: int| 0 <= i < w.len() && (#[trigger] w[i]).capture_id == id;
                if i < r.len() {
                    assert(r[i].capture_id == id);
                }
            }
        }
        assert forall|k: int| 0 <= k < w.len() implies stack.contains(#[trigger] w[k]) by {
            if k < r.len() {
                assert(d.contains(r[k]));
                let i = choose|i: int| 0 <= i < d.len() && d[i] == r[k];
                assert(stack[i] == w[k]);
            } else {
                assert(stack[stack.len() - 1] == w[k]);
            }
        }
        assert forall|seen: Set<u64>| #[trigger] stack_ok(stack, seen) implies stack_ok(
            w,
            seen.remove(id),
        ) by {
            assert(stack_ok(d, seen)) by {
                assert forall|i: int| 0 <= i < d.len() implies ({
                    let e = #[trigger] d[i];
                    e.capture_id != 0 && e.bits is Some && seen.contains(e.capture_id)
                }) by {
                    assert(stack[i] == d[i]);
                }
                assert forall|i: int, j: int| 0 <= i < j < d.len() implies (
                #[trigger] d[i]).capture_id != (#[trigger] d[j]).capture_id by {
                    assert(stack[i].capture_id != stack[j].capture_id);
                }
            }
            assert(stack_ok(r, seen.remove(id)));
            if stack.last().capture_id != id {
                assert forall|i: int, j: int| 0 <= i < j < w.len() implies (
                #[trigger] w[i]).capture_id != (#[trigger] w[j]).capture_id by {
                    if j < r.len() {
                        assert(r[i].capture_id != r[j].capture_id);
                    } else {
                        assert(d.contains(r[i]));
                        let k = choose|k: int| 0 <= k < d.len() && d[k] == r[i];
                        assert(stack[k].capture_id != stack[stack.len() - 1].capture_id);
                    }
                }
                assert forall|i: int| 0 <= i < w.len() implies ({
                    let e = #[trigger] w[i];
                    e.capture_id != 0 && e.bits is Some && seen.remove(id).contains(e.capture_id)
                }) by {
                    if i < r.len() {
                        assert(r[i] == w[i]);
                    } else {
                        assert(w[i] == stack[stack.len() - 1]);
                    }
                }
            }
        }
    }
}

/// Putting a new capture on a stack keeps it in order, and puts it on top.
pub proof fn law_pushing_keeps_the_stack(stack: Seq<Entry>, seen: Set<u64>, entry: Entry)
    requires
        stack_ok(stack, seen),
        is_new(seen, entry),
    ensures
        stack_ok(pushed(stack, entry), seen.insert(entry.capture_id)),
        pushed(stack, entry)[0] == entry,
        !is_new(seen.insert(entry.capture_id), entry),
{
    let p = pushed(stack, entry);
    let s = seen.insert(entry.capture_id);
    assert forall|i: int| 0 <= i < p.len() implies ({
        let e = #[trigger] p[i];
        e.capture_id != 0 && e.bits is Some && s.contains(e.capture_id)
    }) by {
        if i > 0 {
            assert(p[i] == stack[i - 1]);
        }
    }
    assert forall|i: int, j: int| 0 <= i < j < p.len() implies (#[trigger] p[i]).capture_id != (
    #[trigger] p[j]).capture_id by {
        assert(p[j] == stack[j - 1]);
        if i > 0 {
            assert(p[i] == stack[i - 1]);
        }
    }
}

/// Taking a capture off a stack keeps the others, and the capture can be
/// shown again.
pub proof fn law_removing_keeps_the_stack(stack: Seq<Entry>, seen: Set<u64>, entry: Entry)
    requires
        stack_ok(stack, seen),
        stack.contains(entry),
    ensures
        stack_ok(others(stack, entry.capture_id), seen.remove(entry.capture_id)),
        !holds(others(stack, entry.capture_id), entry.capture_id),
        is_new(seen.remove(entry.capture_id), entry),
{
    lemma_others(stack, entry.capture_id);
    let i = choose|i: int| 0 <= i < stack.len() && stack[i] == entry;
    assert(stack[i].bits is Some);
}

/// A new capture goes on top, and every other moves down by one; the stack
/// grows by one until it is full, and then the last one drops off.
pub proof fn law_pushing_moves_the_others_down(stack: Seq<Entry>, entry: Entry)
    requires
        stack.len() <= STACK_LIMIT,
    ensures
        pushed(stack, entry)[0] == entry,
        stack.len() < STACK_LIMIT ==> pushed(stack, entry).len() == stack.len() + 1,
        stack.len() == STACK_LIMIT ==> pushed(stack, entry).len() == stack.len(),
        forall|i: int| 1 <= i < pushed(stack, entry).len() ==> #[trigger] pushed(stack, entry)[i]
            == stack[i - 1],
{
}

/// A capture is taken onto the stack exactly if it has an identity, has a
/// picture, and was not seen before.
pub proof fn law_only_fresh_captures_are_taken(seen: Set<u64>, entry: Entry)
    ensures
        is_new(seen, entry) ==> entry.capture_id != 0 && entry.bits is Some,
        is_new(seen, entry) ==> !seen.contains(entry.capture_id),
        entry.capture_id != 0 && entry.bits is Some ==> is_new(
            seen.remove(entry.capture_id),
            entry,
        ) && !is_new(seen.insert(entry.capture_id), entry),
{
}

/// Taking a capture off a stack takes nothing else: every other capture is on it
/// afterwards exactly if it was before, and all of them in the order they had.
pub proof fn law_removing_keeps_every_other_capture(stack: Seq<Entry>, id: u64, e: Entry)
    ensures
        others(stack, id) == stack.filter(|e: Entry| e.capture_id != id),
        e.capture_id != id ==> others(stack, id).contains(e) == stack.contains(e),
        e.capture_id == id ==> !others(stack, id).contains(e),
    decreases stack.len(),
{
    lemma_others_are_filtered(stack, id);
    let w = others(stack, id);
    if stack.len() > 0 {
        let d = stack.drop_last();
        let r = others(d, id);
        law_removing_keeps_every_other_capture(d, id, e);
        if stack.contains(e) {
            let i = choose|i: int| 0 <= i < stack.len() && stack[i] == e;
            if i < d.len() {
                assert(d[i] == e);
            }
        }
        if d.contains(e) {
            let i = choose|i: int| 0 <= i < d.len() && d[i] == e;
            assert(stack[i] == e);
        }
        if r.contains(e) {
            let i = choose|i: int| 0 <= i < r.len() && r[i] == e;
            assert(w[i] == e);
        }
        if w.contains(e) {
            let i = choose|i: int| 0 <= i < w.len() && w[i] == e;
            if i < r.len() {
                assert(r[i] == e);
            } else {
                assert(stack[stack.len() - 1] == e);
            }
        }
        if stack.last() == e && e.capture_id != id {
            assert(w[w.len() - 1] == e);
        }
    }
}

/// Where no identity is on a stack twice, taking the capture at a place off it
/// leaves the captures above and below that place, and no others.
pub proof fn law_removing_takes_one_place(stack: Seq<Entry>, i: int)
    requires
        0 <= i < stack.len(),
        forall|j: int, k: int|
            0 <= j < k < stack.len() ==> (#[trigger] stack[j]).capture_id != (
            #[trigger] stack[k]).capture_id,
    ensures
        others(stack, stack[i].capture_id) == stack.take(i) + stack.skip(i + 1),
        others(stack, stack[i].capture_id).len() == stack.len() - 1,
    decreases stack.len(),
{
    let id = stack[i].capture_id;
    let d = stack.drop_last();
    assert forall|j: int, k: int| 0 <= j < k < d.len() implies (#[trigger] d[j]).capture_id != (
    #[trigger] d[k]).capture_id by {
        assert(stack[j].capture_id != stack[k].capture_id);
    }
    if i == stack.len() - 1 {
        lemma_others(d, id);
        assert(!holds(d, id)) by {
            if holds(d, id) {
                let j = choose|j: int| 0 <= j < d.len() && (#[trigger] d[j]).capture_id == id;
                assert(stack[j].capture_id != stack[i].capture_id);
            }
        }
        assert(others(stack, id) =~= stack.take(i) + stack.skip(i + 1));
    } else {
        law_removing_takes_one_place(d, i);
        assert(d[i] == stack[i]);
        assert(stack[stack.len() - 1].capture_id != id);
        assert(others(stack, id) =~= stack.take(i) + stack.skip(i + 1));
    }
}

/// Taking the newest capture off again gives back the stack that it was put on,
/// as long as that was not full.
pub proof fn law_removing_undoes_pushing(stack: Seq<Entry>, entry: Entry)
    requires
        stack.len() < STACK_LIMIT,
        forall|i: int|
            0 <= i < stack.len() ==> (#[trigger] stack[i]).capture_id != entry.capture_id,
    ensures
        others(pushed(stack, entry), entry.capture_id) == stack,
{
    lemma_others_of_pushed(stack, entry);
}

proof fn lemma_others_of_pushed(stack: Seq<Entry>, entry: Entry)
    requires
        forall|i: int|
            0 <= i < stack.len() ==> (#[trigger] stack[i]).capture_id != entry.capture_id,
    ensures
        others(seq![entry] + stack, entry.capture_id) == stack,
    decreases stack.len(),
{
    let all = seq![entry] + stack;
    if stack.len() == 0 {
        assert(all.drop_last() =~= Seq::<Entry>::empty());
        assert(all.last() == entry);
        assert(others(all.drop_last(), entry.capture_id) == Seq::<Entry>::empty());
        assert(others(all, entry.capture_id) =~= stack);
    } else {
        assert(stack[stack.len() - 1].capture_id != entry.capture_id);
        lemma_others_of_pushed(stack.drop_last(), entry);
        assert(all.drop_last() =~= seq![entry] + stack.drop_last());
        assert(all.last() == stack.last());
        assert(others(all, entry.capture_id) =~= stack);
    }
}

/// The name of a file: what comes after the last separator of its path.
pub open spec fn base_name(path: Seq<char>) -> Seq<char>
    decreases path.len(),
{
    if path.len() == 0 || path.last() == '\\' || path.last() == '/' {
        Seq::empty()
    } else {
        base_name(path.drop_last()).push(path.last())
    }
}

proof fn lemma_base_name(path: Seq<char>, k: int)
    requires
        0 <= k <= path.len(),
        k > 0 ==> path[k - 1] == '\\' || path[k - 1] == '/',
        forall|i: int| k <= i < path.len() ==> path[i] != '\\' && path[i] != '/',
    ensures
        base_name(path) == path.skip(k),
    decreases path.len(),
{
    if k == path.len() {
        assert(base_name(path) =~= path.skip(k));
    } else {
        assert(path[path.len() - 1] == path.last());
        lemma_base_name(path.drop_last(), k);
        assert(path.drop_last().skip(k).push(path.last()) =~= path.skip(k));
    }
}

/// The name of a file is the end of its path, holds no separator, and is
/// preceded by one unless it is the whole path.
pub proof fn law_names_come_after_the_last_separator(path: Seq<char>)
    ensures
        ({
            let name = base_name(path);
            let k = path.len() - name.len();
            &&& 0 <= k
            &&& name == path.skip(k)
            &&& k > 0 ==> path[k - 1] == '\\' || path[k - 1] == '/'
            &&& forall|i: int| 0 <= i < name.len() ==> name[i] != '\\' && name[i] != '/'
        }),
    decreases path.len(),
{
    let name = base_name(path);
    if path.len() == 0 || path.last() == '\\' || path.last() == '/' {
        assert(name =~= path.skip(path.len() as int));
    } else {
        law_names_come_after_the_last_separator(path.drop_last());
        let k = path.len() - name.len();
        assert(path.drop_last().skip(k).push(path.last()) =~= path.skip(k));
        if k > 0 {
            assert(path.drop_last()[k - 1] == path[k - 1]);
        }
    }
}

pub fn file_name(path: &str) -> (r: String)
    ensures
        r@ == base_name(path@),
{
    let v = chars_of(path);
    let n: usize = v.len();
    let mut k: usize = n;
    while k > 0 && v[k - 1] != '\\' && v[k - 1] != '/'
        invariant
            k <= n,
            n == v@.len(),
            forall|i: int| k <= i < n ==> v@[i] != '\\' && v@[i] != '/',
        decreases k,
    {
        k = k - 1;
    }
    let mut name: Vec<char> = Vec::new();
    for i in k..n
        invariant
            k <= n,
            n == v@.len(),
            name@ == v@.subrange(k as int, i as int),
    {
        name.push(v[i]);
        assert(name@ =~= v@.subrange(k as int, i + 1));
    }
    proof {
        lemma_base_name(v@, k as int);
        assert(name@ =~= v@.skip(k as int));
    }
    string_of(&name)
}

/// A decoded picture as opaque BGRA.
pub fn bits_of(decoded: Option<(Vec<u8>, u32, u32)>) -> (r: Option<(Vec<u8>, u32, u32)>)
    ensures
        match (decoded, r) {
            (Some(d), Some(b)) => b.0@ == opaque(d.0@) && b.1 == d.1 && b.2 == d.2,
            (None, None) => true,
            _ => false,
        },
{
    match decoded {
        Some((rgba, w, h)) => Some((to_opaque(&rgba), w, h)),
        None => None,
    }
}

/// Decode the preview PNG into top-down BGRA for drawing.
pub fn decode_png(png: &Vec<u8>) -> (r: Option<(Vec<u8>, u32, u32)>)
    ensures
        r matches Some(b) ==> b.0@.len() == b.1 * b.2 * 4,
        is_png(png@) ==> match (decoded_png(png@), r) {
            (Some(d), Some(b)) => b.0@ == opaque(d.0) && b.1 == d.1 && b.2 == d.2,
            (None, None) => true,
            _ => false,
        },
        !known_kind(png@) ==> r is None,
{
    bits_of(decode_rgba(png))
}

/// A capture with its preview decoded.
pub fn make_entry(e: PresentEntry) -> (r: Entry)
    ensures
        r.capture_id == e.capture_id,
        r.path == e.path,
        r.unsaved == e.unsaved,
        r.file_name@ == (match e.path {
            Some(p) => base_name(p@),
            None => "unsaved"@,
        }),
        r.bits matches Some(b) ==> b.0@.len() == b.1 * b.2 * 4,
        is_png(e.png@) ==> match (decoded_png(e.png@), r.bits) {
            (Some(d), Some(b)) => b.0@ == opaque(d.0) && b.1 == d.1 && b.2 == d.2,
            (None, None) => true,
            _ => false,
        },
        !known_kind(e.png@) ==> r.bits is None,
{
    let name = match &e.path {
        Some(p) => file_name(p.as_str()),
        None => "unsaved".to_owned(),
    };
    Entry {
        capture_id: e.capture_id,
        bits: decode_png(&e.png),
        path: e.path,
        file_name: name,
        unsaved: e.unsaved,
    }
}

pub fn current_window_size(st: &State) -> (r: (i32, i32))
    requires
        st.wf(),
    ensures
        (r.0 as int, r.1 as int) == st.window_size(),
{
    let rows: i32 = if st.expanded && st.stack.len() > 1 {
        (st.stack.len() as i32 - 1) * ROW_H
    } else {
        0
    };
    (st.card_w, st.card_h + PEEK_SPACE + rows)
}

pub open spec fn no_effects() -> NativeEffects {
    NativeEffects {
        hide: false,
        show: None,
        auto_hide: None,
        repaint: false,
        open: None,
        reveal: None,
    }
}

fn nothing() -> (e: NativeEffects)
    ensures
        e == no_effects(),
{
    NativeEffects {
        hide: false,
        show: None,
        auto_hide: None,
        repaint: false,
        open: None,
        reveal: None,
    }
}

/// The size of the window as it is set.
pub open spec fn shown_size(st: State) -> (i32, i32) {
    (st.window_size().0 as i32, st.window_size().1 as i32)
}

/// What presenting a capture does: a new one becomes the current card of a
/// folded stack and starts the dismissal timer; one that was shown before only
/// brings the window back.
pub open spec fn presents(
    before: State,
    after: State,
    e: NativeEffects,
    entry: Entry,
    size: (u32, u32),
    pos: Option<(i32, i32)>,
    auto_hide_ms: u64,
) -> bool {
    if is_new(before.seen@, entry) {
        &&& after.stack@ == pushed(before.stack@, entry)
        &&& after.seen@ == before.seen@.insert(entry.capture_id)
        &&& !after.expanded
        &&& after.card_w == size.0 && after.card_h == size.1
        &&& after.pos == pos
        &&& after.auto_hide_ms == auto_hide_ms
        &&& after.timer_gen == before.timer_gen + 1
        &&& after.ctrl_pending == before.ctrl_pending
        &&& after.last_dbl_ms == before.last_dbl_ms
        &&& e == (NativeEffects {
            show: Some((shown_size(after), pos)),
            auto_hide: if auto_hide_ms > 0 {
                Some((auto_hide_ms, after.timer_gen))
            } else {
                None
            },
            repaint: true,
            ..no_effects()
        })
    } else {
        &&& unchanged(before, after)
        &&& e == (NativeEffects { show: Some((shown_size(after), pos)), ..no_effects() })
    }
}

/// Whether two states are the same.
pub open spec fn unchanged(a: State, b: State) -> bool {
    &&& a.stack@ == b.stack@ && a.seen@ == b.seen@
    &&& same_but_stack(a, b)
    &&& a.expanded == b.expanded
}

/// Whether two states differ in nothing but the stack and whether it is
/// expanded.
pub open spec fn same_but_stack(a: State, b: State) -> bool {
    &&& a.card_w == b.card_w && a.card_h == b.card_h
    &&& a.pos == b.pos
    &&& a.auto_hide_ms == b.auto_hide_ms && a.timer_gen == b.timer_gen
    &&& a.ctrl_pending == b.ctrl_pending && a.last_dbl_ms == b.last_dbl_ms
}

/// What the end of a drag does: a moved file leaves the stack (and the window
/// with the last one), a drop may hide the window, and a plain click folds or
/// unfolds the list.
pub open spec fn ends_drag(
    before: State,
    after: State,
    e: NativeEffects,
    capture_id: u64,
    dropped: bool,
    moved: bool,
    hide_after_drop: bool,
    now: u64,
) -> bool {
    if moved && holds(before.stack@, capture_id) {
        &&& after.stack@ == others(before.stack@, capture_id)
        &&& after.seen@ == before.seen@.remove(capture_id)
        &&& same_but_stack(before, after)
        &&& if after.stack@.len() == 0 {
            after.expanded == before.expanded && e == (NativeEffects { hide: true, ..no_effects() })
        } else {
            !after.expanded && e == (NativeEffects {
                show: Some((shown_size(after), None)),
                repaint: true,
                ..no_effects()
            })
        }
    } else if dropped && hide_after_drop {
        unchanged(before, after) && e == (NativeEffects { hide: true, ..no_effects() })
    } else if !dropped && !moved {
        if now - before.last_dbl_ms >= DOUBLE_CLICK_MS && before.stack@.len() > 1 {
            &&& after.stack@ == before.stack@ && after.seen@ == before.seen@
            &&& same_but_stack(before, after)
            &&& after.expanded == !before.expanded
            &&& e == (NativeEffects {
                show: Some((shown_size(after), None)),
                repaint: true,
                ..no_effects()
            })
        } else {
            unchanged(before, after) && e == (NativeEffects { repaint: true, ..no_effects() })
        }
    } else {
        unchanged(before, after) && e == no_effects()
    }
}

/// Shows a capture whose preview is decoded.
pub fn present(
    st: &mut State,
    entry: Entry,
    size: (u32, u32),
    pos: Option<(i32, i32)>,
    auto_hide_ms: u64,
) -> (e: NativeEffects)
    requires
        old(st).wf(),
        old(st).timer_gen < u64::MAX,
        size.0 <= i32::MAX,
        size.1 <= MAX_CARD,
    ensures
        final(st).wf(),
        presents(*old(st), *final(st), e, entry, size, pos, auto_hide_ms),
{
    proof {
        if is_new(st.seen@, entry) {
            law_pushing_keeps_the_stack(st.stack@, st.seen@, entry);
        }
    }
    let added = stack_push(&mut st.stack, &mut st.seen, entry);
    let mut e = nothing();
    if added {
        st.expanded = false;
        st.card_w = size.0 as i32;
        st.card_h = size.1 as i32;
        st.pos = pos;
        st.auto_hide_ms = auto_hide_ms;
        st.timer_gen = st.timer_gen + 1;
        if auto_hide_ms > 0 {
            e.auto_hide = Some((auto_hide_ms, st.timer_gen));
        }
        e.repaint = true;
    }
    e.show = Some((current_window_size(st), pos));
    e
}

/// Takes the outcome of a drag.
pub fn drag_done(
    st: &mut State,
    capture_id: u64,
    dropped: bool,
    moved: bool,
    hide_after_drop: bool,
    now: u64,
) -> (e: NativeEffects)
    requires
        old(st).wf(),
    ensures
        final(st).wf(),
        ends_drag(
            *old(st),
            *final(st),
            e,
            capture_id,
            dropped,
            moved,
            hide_after_drop,
            now,
        ),
{
    proof {
        lemma_others(st.stack@, capture_id);
    }
    let mut e = nothing();
    if moved && stack_remove(&mut st.stack, &mut st.seen, capture_id) {
        if st.stack.len() == 0 {
            e.hide = true;
            return e;
        }
        st.expanded = false;
        e.show = Some((current_window_size(st), None));
        e.repaint = true;
    } else if dropped && hide_after_drop {
        e.hide = true;
    } else if !dropped && !moved {
        let suppress = now.saturating_sub(st.last_dbl_ms) < DOUBLE_CLICK_MS;
        if !suppress && st.stack.len() > 1 {
            st.expanded = !st.expanded;
            e.show = Some((current_window_size(st), None));
        }
        e.repaint = true;
    }
    e
}

/// Carries a command out.
pub fn handle_cmd(st: &mut State, cmd: Cmd, now: u64) -> (e: NativeEffects)
    requires
        old(st).wf(),
        cmd matches Cmd::Present(_, size, _, _) ==> size.0 <= i32::MAX && size.1 <= MAX_CARD
            && old(st).timer_gen < u64::MAX,
    ensures
        final(st).wf(),
        match cmd {
            Cmd::Present(p, size, pos, ms) => exists|entry: Entry|
                #![trigger presents(*old(st), *final(st), e, entry, size, pos, ms)]
                {
                    &&& presents(*old(st), *final(st), e, entry, size, pos, ms)
                    &&& entry.capture_id == p.capture_id && entry.path == p.path && entry.unsaved
                        == p.unsaved
                    &&& entry.file_name@ == (match p.path {
                        Some(q) => base_name(q@),
                        None => "unsaved"@,
                    })
                    &&& is_png(p.png@) ==> match (decoded_png(p.png@), entry.bits) {
                        (Some(d), Some(b)) => b.0@ == opaque(d.0) && b.1 == d.1 && b.2 == d.2,
                        (None, None) => true,
                        _ => false,
                    }
                    &&& !known_kind(p.png@) ==> entry.bits is None
                },
            Cmd::Hide => unchanged(*old(st), *final(st)) && e == (NativeEffects {
                hide: true,
                ..no_effects()
            }),
            Cmd::Show => unchanged(*old(st), *final(st)) && e == (NativeEffects {
                show: Some((shown_size(*old(st)), old(st).pos)),
                ..no_effects()
            }),
            Cmd::DragOutcome { capture_id, dropped, moved, hide_after_drop } => ends_drag(
                *old(st),
                *final(st),
                e,
                capture_id,
                dropped,
                moved,
                hide_after_drop,
                now,
            ),
            Cmd::Open(path) => unchanged(*old(st), *final(st)) && e == (NativeEffects {
                open: Some(path),
                ..no_effects()
            }),
            Cmd::Reveal(path) => unchanged(*old(st), *final(st)) && e == (NativeEffects {
                reveal: Some(path),
                ..no_effects()
            }),
        },
{
    match cmd {
        Cmd::Present(p, size, pos, ms) => {
            let entry = make_entry(p);
            let ghost shown = entry;
            let e = present(st, entry, size, pos, ms);
            assert(presents(*old(st), *st, e, shown, size, pos, ms));
            e
        },
        Cmd::Hide => {
            let mut e = nothing();
            e.hide = true;
            e
        },
        Cmd::Show => {
            let mut e = nothing();
            e.show = Some((current_window_size(st), st.pos));
            e
        },
        Cmd::DragOutcome { capture_id, dropped, moved, hide_after_drop } => {
            drag_done(st, capture_id, dropped, moved, hide_after_drop, now)
        },
        Cmd::Open(path) => {
            let mut e = nothing();
            e.open = Some(path);
            e
        },
        Cmd::Reveal(path) => {
            let mut e = nothing();
            e.reveal = Some(path);
            e
        },
    }
}

/// Dismisses the thumbnail.
pub fn hide_thumb() -> (cmd: Cmd)
    ensures
        cmd == Cmd::Hide,
{
    Cmd::Hide
}

/// Brings the thumbnail back.
pub fn show() -> (cmd: Cmd)
    ensures
        cmd == Cmd::Show,
{
    Cmd::Show
}

/// Whether the thumbnail's time is up: its own timer has fired, the list is
/// folded, and there is something to dismiss. A timer fires once.
pub fn handle_auto_hide(st: &mut State, timer: u64, visible: bool) -> (expired: bool)
    requires
        old(st).wf(),
    ensures
        final(st).wf(),
        expired == (timer == old(st).timer_gen && old(st).auto_hide_ms > 0 && !old(st).expanded
            && old(st).stack@.len() > 0 && visible),
        final(st).timer_gen == (if !expired {
            old(st).timer_gen
        } else if old(st).timer_gen == u64::MAX {
            0
        } else {
            (old(st).timer_gen + 1) as u64
        }),
        final(st).stack@ == old(st).stack@ && final(st).seen@ == old(st).seen@,
        same_but_stack(*old(st), State { timer_gen: old(st).timer_gen, ..*final(st) }),
        final(st).expanded == old(st).expanded,
{
    let expired = timer == st.timer_gen && st.auto_hide_ms > 0 && !st.expanded && st.stack.len()
        > 0 && visible;
    if expired {
        st.timer_gen = if st.timer_gen == u64::MAX {
            0
        } else {
            st.timer_gen + 1
        };
    }
    expired
}

/// The client row of a mouse message: the second 16 bits of its parameter.
pub fn row_of(lparam: u64) -> (y: i32)
    ensures
        y == lparam / 0x1_0000 % 0x1_0000,
{
    (lparam / 0x1_0000 % 0x1_0000) as i32
}

/// The capture at a height of the window: the card, or a row of the expanded
/// list.
pub open spec fn index_at(st: State, y: int) -> int {
    if y < st.card_h || !st.expanded {
        0
    } else {
        let row = (y - st.card_h) / (ROW_H as int) + 1;
        let last = if st.stack@.len() > 0 {
            st.stack@.len() - 1
        } else {
            0
        };
        if row <= last {
            row
        } else {
            last
        }
    }
}

pub fn hit_test(st: &State, y: i32) -> (idx: usize)
    requires
        st.wf(),
    ensures
        idx == index_at(*st, y as int),
{
    if y < st.card_h {
        0
    } else if st.expanded {
        let row: usize = ((y - st.card_h) / ROW_H) as usize + 1;
        let last: usize = if st.stack.len() > 0 {
            st.stack.len() - 1
        } else {
            0
        };
        if row <= last {
            row
        } else {
            last
        }
    } else {
        0
    }
}

/// The path of a capture in the stack, if it is there and was saved.
pub open spec fn path_at(st: State, idx: int) -> Option<String> {
    if 0 <= idx < st.stack@.len() {
        st.stack@[idx].path
    } else {
        None
    }
}

pub fn entry_path(st: &State, idx: usize) -> (r: Option<String>)
    ensures
        r == path_at(*st, idx as int),
{
    if idx < st.stack.len() {
        match &st.stack[idx].path {
            Some(p) => Some(p.clone()),
            None => None,
        }
    } else {
        None
    }
}

pub fn entry_id(st: &State, idx: usize) -> (id: u64)
    ensures
        id == (if idx < st.stack@.len() {
            st.stack@[idx as int].capture_id
        } else {
            0
        }),
{
    if idx < st.stack.len() {
        st.stack[idx].capture_id
    } else {
        0
    }
}

/// A press: it starts a drag of the capture under it, unless a modifier asks
/// for something else or the capture has no file. Returns the capture's
/// identity and path.
pub fn on_button_down(st: &mut State, y: i32, modifier: bool) -> (r: Option<(u64, String)>)
    requires
        old(st).wf(),
    ensures
        final(st).wf(),
        final(st).ctrl_pending == modifier,
        unchanged(*old(st), State { ctrl_pending: old(st).ctrl_pending, ..*final(st) }),
        ({
            let idx = index_at(*old(st), y as int);
            match (path_at(*old(st), idx), modifier) {
                (Some(p), false) => r == Some((old(st).stack@[idx].capture_id, p)),
                _ => r is None,
            }
        }),
{
    st.ctrl_pending = modifier;
    if modifier {
        return None;
    }
    let idx: usize = hit_test(st, y);
    match entry_path(st, idx) {
        Some(p) => Some((entry_id(st, idx), p)),
        None => None,
    }
}

/// A double click: the list folds, and the current capture is opened.
pub fn on_double_click(st: &mut State, y: i32, now: u64) -> (e: NativeEffects)
    requires
        old(st).wf(),
    ensures
        final(st).wf(),
        final(st).last_dbl_ms == now,
        !final(st).expanded,
        final(st).stack@ == old(st).stack@ && final(st).seen@ == old(st).seen@,
        same_but_stack(*old(st), State { last_dbl_ms: old(st).last_dbl_ms, ..*final(st) }),
        e == (NativeEffects {
            show: Some((shown_size(*final(st)), None)),
            repaint: true,
            open: path_at(*old(st), 0),
            ..no_effects()
        }),
{
    st.last_dbl_ms = now;
    st.expanded = false;
    let mut e = nothing();
    e.show = Some((current_window_size(st), None));
    e.repaint = true;
    let idx: usize = hit_test(st, y);
    e.open = entry_path(st, idx);
    e
}

/// A release: after a press with a modifier, the capture under it is revealed.
pub fn on_button_up(st: &mut State, y: i32) -> (r: Option<String>)
    requires
        old(st).wf(),
    ensures
        final(st).wf(),
        !final(st).ctrl_pending,
        unchanged(*old(st), State { ctrl_pending: old(st).ctrl_pending, ..*final(st) }),
        r == (if old(st).ctrl_pending {
            path_at(*old(st), index_at(*old(st), y as int))
        } else {
            None
        }),
{
    let ctrl = st.ctrl_pending;
    st.ctrl_pending = false;
    if !ctrl {
        return None;
    }
    let idx: usize = hit_test(st, y);
    entry_path(st, idx)
}

/// Whether a capture's preview can be drawn into a place of the given size.
pub open spec fn drawable(st: State, idx: int, w: int, h: int) -> bool {
    &&& w > 0 && h > 0
    &&& 0 <= idx < st.stack@.len()
    &&& st.stack@[idx].bits matches Some(b) && b.0@.len() >= b.1 * b.2 * 4
}

pub fn can_draw(st: &State, idx: usize, w: i32, h: i32) -> (r: bool)
    ensures
        r == drawable(*st, idx as int, w as int, h as int),
{
    if w <= 0 || h <= 0 || idx >= st.stack.len() {
        return false;
    }
    match &st.stack[idx].bits {
        Some((data, bw, bh)) => {
            assert(*bw * *bh <= 0xffff_ffff * 0xffff_ffff) by (nonlinear_arith)
                requires
                    *bw <= 0xffff_ffff,
                    *bh <= 0xffff_ffff,
            ;
            data.len() as u128 >= *bw as u128 * *bh as u128 * 4
        },
        None => false,
    }
}

/// A step of painting.
pub enum DrawOp {
    Fill(Rect, u32),
    Frame(Rect, u32),
    /// A capture's preview, stretched into a place.
    Image(usize, Rect),
    /// The current capture's preview, or a filled placeholder where nothing
    /// could be drawn.
    Card(Rect, Rect),
    Text(String, Rect, u32),
}

/// What a step paints.
pub enum Drawn {
    Fill(Rect, u32),
    Frame(Rect, u32),
    Image(int, Rect),
    Card(Rect, Rect),
    Text(Seq<char>, Rect, u32),
}

impl DrawOp {
    pub open spec fn shown(self) -> Drawn {
        match self {
            DrawOp::Fill(r, c) => Drawn::Fill(r, c),
            DrawOp::Frame(r, c) => Drawn::Frame(r, c),
            DrawOp::Image(i, r) => Drawn::Image(i as int, r),
            DrawOp::Card(r, p) => Drawn::Card(r, p),
            DrawOp::Text(t, r, c) => Drawn::Text(t@, r, c),
        }
    }
}

pub open spec fn all_drawn(ops: Seq<DrawOp>) -> Seq<Drawn> {
    ops.map_values(|op: DrawOp| op.shown())
}

pub open spec fn rect_of(left: int, top: int, right: int, bottom: int) -> Rect {
    Rect { left: left as i32, top: top as i32, right: right as i32, bottom: bottom as i32 }
}

/// The place of a capture that peeks out behind the card: centred on it and
/// moved down.
pub open spec fn peek_rect(st: State, size: (i32, i32), off: int) -> Rect {
    let x = (st.card_w - size.0) / 2;
    let y = (st.card_h - size.1) / 2 + off;
    rect_of(x, y, x + size.0, y + size.1)
}

/// An older capture that peeks out, if there is one.
pub open spec fn peek_ops(st: State, idx: int, size: (i32, i32), off: int) -> Seq<Drawn> {
    let r = peek_rect(st, size, off);
    if idx < st.stack@.len() {
        seq![Drawn::Fill(r, PEEK_BG), Drawn::Image(idx, r), Drawn::Frame(r, BORDER)]
    } else {
        seq![]
    }
}

pub open spec fn current_name(st: State) -> Seq<char> {
    if st.stack@.len() > 0 {
        st.stack@[0].file_name@
    } else {
        Seq::empty()
    }
}

/// The current card: its preview, the caption with its name, and a badge where
/// it is not saved.
pub open spec fn card_ops(st: State) -> Seq<Drawn> {
    let cw = st.card_w as int;
    let ch = st.card_h as int;
    let card = rect_of(0, 0, cw, ch);
    let badge_top = ch - CAPTION_H - 6;
    seq![
        Drawn::Fill(card, CARD_BG),
        Drawn::Card(card, rect_of(8, CAPTION_H as int, cw - 8, ch - 8)),
        Drawn::Fill(rect_of(0, 0, cw, CAPTION_H as int), CAPTION_BG),
        Drawn::Text(current_name(st), rect_of(8, 0, cw - 8, CAPTION_H as int), TEXT),
    ] + (if st.stack@.len() > 0 && st.stack@[0].unsaved {
        seq![
            Drawn::Fill(rect_of(8, badge_top, 96, ch - 6), BADGE_BG),
            Drawn::Text("Not saved"@, rect_of(14, badge_top, 90, ch - 6), BADGE_TEXT),
        ]
    } else {
        seq![]
    }) + seq![Drawn::Frame(card, BORDER)]
}

/// A row of the expanded list.
pub open spec fn row_ops(st: State, i: int) -> Seq<Drawn> {
    let cw = st.card_w as int;
    let y0 = st.card_h + (i - 1) * ROW_H;
    let e = st.stack@[i];
    seq![
        Drawn::Fill(rect_of(0, y0, cw, y0 + ROW_H), ROW_BG),
        Drawn::Image(i, rect_of(8, y0 + 4, ROW_H as int, y0 + ROW_H - 4)),
        Drawn::Text(
            if e.unsaved {
                e.file_name@ + " — not saved"@
            } else {
                e.file_name@
            },
            rect_of(ROW_H + 12, y0, cw - 8, y0 + ROW_H),
            TEXT,
        ),
    ]
}

/// The first `n` captures' rows of the expanded list.
pub open spec fn list_ops(st: State, n: int) -> Seq<Drawn>
    decreases n,
{
    if n <= 1 {
        seq![]
    } else {
        list_ops(st, n - 1) + row_ops(st, n - 1)
    }
}

/// What the window shows. `near` and `far` are the sizes of the two captures
/// that peek out behind the card.
pub open spec fn scene_ops(st: State, near: (i32, i32), far: (i32, i32)) -> Seq<Drawn> {
    seq![Drawn::Fill(rect_of(0, 0, st.window_size().0, st.window_size().1), PEEK_BG)] + peek_ops(
        st,
        1,
        near,
        9,
    ) + peek_ops(st, 2, far, 18) + card_ops(st) + (if st.expanded {
        list_ops(st, st.stack@.len() as int)
    } else {
        seq![]
    })
}

fn push_op(ops: &mut Vec<DrawOp>, op: DrawOp)
    ensures
        all_drawn(final(ops)@) == all_drawn(old(ops)@).push(op.shown()),
{
    ops.push(op);
    assert(all_drawn(ops@) =~= all_drawn(old(ops)@).push(op.shown()));
}

fn draw_peek(ops: &mut Vec<DrawOp>, st: &State, idx: usize, size: (i32, i32), off: i32)
    requires
        st.wf(),
        0 <= size.0 <= st.card_w,
        0 <= size.1 <= st.card_h,
        0 <= off <= 18,
    ensures
        all_drawn(final(ops)@) == all_drawn(old(ops)@) + peek_ops(
            *st,
            idx as int,
            size,
            off as int,
        ),
{
    if idx >= st.stack.len() {
        assert(all_drawn(ops@) =~= all_drawn(old(ops)@) + peek_ops(
            *st,
            idx as int,
            size,
            off as int,
        ));
        return ;
    }
    let x: i32 = (st.card_w - size.0) / 2;
    let y: i32 = (st.card_h - size.1) / 2 + off;
    let r = Rect { left: x, top: y, right: x + size.0, bottom: y + size.1 };
    push_op(ops, DrawOp::Fill(r, PEEK_BG));
    push_op(ops, DrawOp::Image(idx, r));
    push_op(ops, DrawOp::Frame(r, BORDER));
    assert(all_drawn(ops@) =~= all_drawn(old(ops)@) + peek_ops(*st, idx as int, size, off as int));
}

fn draw_card(ops: &mut Vec<DrawOp>, st: &State)
    requires
        st.wf(),
    ensures
        all_drawn(final(ops)@) == all_drawn(old(ops)@) + card_ops(*st),
{
    let cw: i32 = st.card_w;
    let ch: i32 = st.card_h;
    let card = Rect { left: 0, top: 0, right: cw, bottom: ch };
    let name = if st.stack.len() > 0 {
        st.stack[0].file_name.clone()
    } else {
        let s = String::new();
        assert(s@ =~= Seq::<char>::empty());
        s
    };
    push_op(ops, DrawOp::Fill(card, CARD_BG));
    push_op(
        ops,
        DrawOp::Card(card, Rect { left: 8, top: CAPTION_H, right: cw - 8, bottom: ch - 8 }),
    );
    push_op(
        ops,
        DrawOp::Fill(Rect { left: 0, top: 0, right: cw, bottom: CAPTION_H }, CAPTION_BG),
    );
    push_op(
        ops,
        DrawOp::Text(name, Rect { left: 8, top: 0, right: cw - 8, bottom: CAPTION_H }, TEXT),
    );
    if st.stack.len() > 0 && st.stack[0].unsaved {
        let top: i32 = ch - CAPTION_H - 6;
        push_op(
            ops,
            DrawOp::Fill(Rect { left: 8, top, right: 96, bottom: ch - 6 }, BADGE_BG),
        );
        push_op(
            ops,
            DrawOp::Text(
                "Not saved".to_owned(),
                Rect { left: 14, top, right: 90, bottom: ch - 6 },
                BADGE_TEXT,
            ),
        );
    }
    push_op(ops, DrawOp::Frame(card, BORDER));
    assert(all_drawn(ops@) =~= all_drawn(old(ops)@) + card_ops(*st));
}

fn draw_row(ops: &mut Vec<DrawOp>, st: &State, i: usize)
    requires
        st.wf(),
        1 <= i < st.stack@.len(),
    ensures
        all_drawn(final(ops)@) == all_drawn(old(ops)@) + row_ops(*st, i as int),
{
    let cw: i32 = st.card_w;
    let y0: i32 = st.card_h + (i as i32 - 1) * ROW_H;
    push_op(
        ops,
        DrawOp::Fill(Rect { left: 0, top: y0, right: cw, bottom: y0 + ROW_H }, ROW_BG),
    );
    push_op(
        ops,
        DrawOp::Image(i, Rect { left: 8, top: y0 + 4, right: ROW_H, bottom: y0 + ROW_H - 4 }),
    );
    let mut label = st.stack[i].file_name.clone();
    if st.stack[i].unsaved {
        label.append(" — not saved");
    }
    push_op(
        ops,
        DrawOp::Text(
            label,
            Rect { left: ROW_H + 12, top: y0, right: cw - 8, bottom: y0 + ROW_H },
            TEXT,
        ),
    );
    assert(all_drawn(ops@) =~= all_drawn(old(ops)@) + row_ops(*st, i as int));
}

/// The steps that paint the window.
pub fn draw_scene(st: &State, near: (i32, i32), far: (i32, i32)) -> (ops: Vec<DrawOp>)
    requires
        st.wf(),
        0 <= near.0 <= st.card_w && 0 <= near.1 <= st.card_h,
        0 <= far.0 <= st.card_w && 0 <= far.1 <= st.card_h,
    ensures
        all_drawn(ops@) == scene_ops(*st, near, far),
{
    let mut ops: Vec<DrawOp> = Vec::new();
    let (w, h) = current_window_size(st);
    push_op(&mut ops, DrawOp::Fill(Rect { left: 0, top: 0, right: w, bottom: h }, PEEK_BG));
    draw_peek(&mut ops, st, 1, near, 9);
    draw_peek(&mut ops, st, 2, far, 18);
    draw_card(&mut ops, st);
    let ghost head = all_drawn(ops@);
    let n: usize = st.stack.len();
    if st.expanded && n > 1 {
        assert(head + list_ops(*st, 1) =~= head);
        for i in 1..n
            invariant
                st.wf(),
                n == st.stack@.len(),
                all_drawn(ops@) == head + list_ops(*st, i as int),
        {
            draw_row(&mut ops, st, i);
            assert(all_drawn(ops@) =~= head + list_ops(*st, i + 1));
        }
    } else if n <= 1 {
        assert(head + list_ops(*st, n as int) =~= head);
    }
    assert(all_drawn(ops@) =~= scene_ops(*st, near, far));
    ops
}

/// A row of the expanded list belongs to the capture that is drawn in it.
pub proof fn law_rows_match_clicks(st: State, i: int, y: int)
    requires
        st.wf(),
        st.expanded,
        1 <= i < st.stack@.len(),
        st.card_h + (i - 1) * ROW_H <= y < st.card_h + i * ROW_H,
    ensures
        index_at(st, y) == i,
{
}

/// A folded window shows the card and the space below it; an unfolded one is
/// higher by one row for every capture but the current one. Its width is the
/// card's.
pub proof fn law_window_grows_by_a_row_for_each_capture(st: State)
    ensures
        st.window_size().0 == st.card_w,
        !st.expanded ==> st.window_size().1 == st.card_h + PEEK_SPACE,
        st.expanded && st.stack@.len() >= 1 ==> st.window_size().1 == st.card_h + PEEK_SPACE + ROW_H
            * (st.stack@.len() - 1),
        st.stack@.len() == 0 ==> st.window_size().1 == st.card_h + PEEK_SPACE,
{
}

/// A click on the card, or on a folded window, means the current capture; one
/// below the last row of an unfolded list means the last capture.
pub proof fn law_clicks_off_the_rows(st: State, y: int)
    requires
        st.wf(),
    ensures
        y < st.card_h ==> index_at(st, y) == 0,
        !st.expanded ==> index_at(st, y) == 0,
        st.stack@.len() > 0 ==> 0 <= index_at(st, y) < st.stack@.len(),
        st.expanded && st.stack@.len() > 1 && y >= st.card_h + (st.stack@.len() - 1) * ROW_H
            ==> index_at(st, y) == st.stack@.len() - 1,
        forall|i: int| 0 <= i < st.stack@.len() ==> #[trigger] path_at(st, i) == st.stack@[i].path,
        path_at(st, st.stack@.len() as int) is None,
{
}

/// Presenting a new capture puts it on top of a folded stack, with the size and
/// the place that were given, and restarts the dismissal timer if there is one;
/// presenting an old one changes nothing. Either way the window is shown.
pub proof fn law_presenting_shows_the_capture(
    before: State,
    after: State,
    e: NativeEffects,
    entry: Entry,
    size: (u32, u32),
    pos: Option<(i32, i32)>,
    ms: u64,
)
    requires
        presents(before, after, e, entry, size, pos, ms),
        before.wf(),
        size.0 <= i32::MAX,
        size.1 <= MAX_CARD,
    ensures
        !e.hide && e.show is Some && (e.show->0).1 == pos,
        e.open is None && e.reveal is None,
        before.seen@.contains(entry.capture_id) || entry.capture_id == 0 || entry.bits is None ==> {
            &&& after.stack@ == before.stack@ && after.seen@ == before.seen@
            &&& after.expanded == before.expanded && after.timer_gen == before.timer_gen
            &&& e.auto_hide is None && !e.repaint
        },
        !before.seen@.contains(entry.capture_id) && entry.capture_id != 0 && entry.bits is Some ==> {
            &&& after.stack@.len() > 0 && after.stack@[0] == entry
            &&& forall|i: int|
                1 <= i < after.stack@.len() ==> #[trigger] after.stack@[i] == before.stack@[i - 1]
            &&& after.stack@.len() == before.stack@.len() + 1 || after.stack@.len() == STACK_LIMIT
            &&& after.seen@.contains(entry.capture_id)
            &&& !after.expanded && e.repaint
            &&& after.card_w == size.0 && after.card_h == size.1 && after.pos == pos
            &&& after.auto_hide_ms == ms
            &&& forall|id: u64|
                id != entry.capture_id ==> #[trigger] after.seen@.contains(id)
                    == before.seen@.contains(id)
            &&& after.ctrl_pending == before.ctrl_pending && after.last_dbl_ms
                == before.last_dbl_ms
            &&& (e.show->0).0 == (size.0 as i32, (size.1 + PEEK_SPACE) as i32)
            &&& after.timer_gen == before.timer_gen + 1
            &&& ms > 0 ==> e.auto_hide == Some((ms, after.timer_gen))
            &&& ms == 0 ==> e.auto_hide is None
        },
{
    law_pushing_moves_the_others_down(before.stack@, entry);
}

/// The end of a drag: a file that was moved away leaves the stack, alone, and
/// the window goes with the last one; a drop leaves the stack as it is; a plain
/// click folds or unfolds a list of several, unless it belongs to a double
/// click.
pub proof fn law_what_a_drag_leaves(
    before: State,
    after: State,
    e: NativeEffects,
    id: u64,
    dropped: bool,
    moved: bool,
    hide_after_drop: bool,
    now: u64,
)
    requires
        ends_drag(before, after, e, id, dropped, moved, hide_after_drop, now),
    ensures
        moved ==> after.stack@ == before.stack@.filter(|x: Entry| x.capture_id != id),
        !moved ==> after.stack@ == before.stack@ && after.seen@ == before.seen@,
        moved && after.stack@.len() < before.stack@.len() ==> {
            &&& e.hide == (after.stack@.len() == 0)
            &&& e.repaint == (after.stack@.len() > 0)
            &&& !after.seen@.contains(id)
            &&& after.stack@.len() > 0 ==> !after.expanded && e.show is Some
        },
        dropped && !moved ==> e.hide == hide_after_drop && after.expanded == before.expanded,
        !dropped && !moved ==> {
            &&& !e.hide && e.repaint
            &&& before.stack@.len() > 1 && before.last_dbl_ms + DOUBLE_CLICK_MS <= now
                ==> after.expanded != before.expanded
            &&& before.stack@.len() <= 1 || before.last_dbl_ms + DOUBLE_CLICK_MS > now
                ==> after.expanded == before.expanded
        },
        after.card_w == before.card_w && after.card_h == before.card_h && after.pos == before.pos,
        e.open is None && e.reveal is None && e.auto_hide is None,
{
    lemma_others_are_filtered(before.stack@, id);
    lemma_others(before.stack@, id);
}

/// A capture that peeks out is as large as asked for, in the middle of the card
/// from left to right, and as far below its middle as asked for.
pub proof fn law_peeking_captures_are_centred(st: State, size: (i32, i32), off: int)
    requires
        st.wf(),
        0 <= size.0 <= st.card_w,
        0 <= size.1 <= st.card_h,
        0 <= off <= PEEK_SPACE,
    ensures
        ({
            let r = peek_rect(st, size, off);
            &&& r.right - r.left == size.0 && r.bottom - r.top == size.1
            &&& 0 <= (st.card_w - r.right) - r.left <= 1
            &&& 0 <= (st.card_h - (r.bottom - off)) - (r.top - off) <= 1
        }),
{
}

proof fn lemma_listed(st: State, n: int, i: int)
    requires
        1 <= i < n,
    ensures
        forall|k: int| 0 <= k < 3 ==> list_ops(st, n).contains(#[trigger] row_ops(st, i)[k]),
    decreases n,
{
    let all = list_ops(st, n);
    let head = list_ops(st, n - 1);
    let row = row_ops(st, n - 1);
    assert forall|k: int| 0 <= k < 3 implies all.contains(#[trigger] row_ops(st, i)[k]) by {
        if i == n - 1 {
            assert(all[head.len() + k] == row[k]);
        } else {
            lemma_listed(st, n - 1, i);
            let op = row_ops(st, i)[k];
            let j = choose|j: int| 0 <= j < head.len() && head[j] == op;
            assert(all[j] == op);
        }
    }
}

/// The window shows the current capture on its card with its name, and a badge
/// where it is not saved; an unfolded list shows every other capture in a row
/// of its own, with its picture and its name, under the row before it.
pub proof fn law_every_capture_is_shown(st: State, near: (i32, i32), far: (i32, i32), i: int)
    requires
        st.wf(),
        0 <= i < st.stack@.len(),
    ensures
        ({
            let ops = scene_ops(st, near, far);
            let y0 = st.card_h + (i - 1) * ROW_H;
            let e = st.stack@[i];
            &&& ops.contains(
                Drawn::Card(
                    Rect { left: 0, top: 0, right: st.card_w, bottom: st.card_h },
                    Rect {
                        left: 8,
                        top: CAPTION_H,
                        right: (st.card_w - 8) as i32,
                        bottom: (st.card_h - 8) as i32,
                    },
                ),
            )
            &&& i == 0 ==> ops.contains(
                Drawn::Text(
                    e.file_name@,
                    Rect { left: 8, top: 0, right: (st.card_w - 8) as i32, bottom: CAPTION_H },
                    TEXT,
                ),
            )
            &&& i == 0 && e.unsaved ==> ops.contains(
                Drawn::Text(
                    "Not saved"@,
                    Rect {
                        left: 14,
                        top: (st.card_h - CAPTION_H - 6) as i32,
                        right: 90,
                        bottom: (st.card_h - 6) as i32,
                    },
                    BADGE_TEXT,
                ),
            )
            &&& i > 0 && st.expanded ==> {
                &&& ops.contains(
                    Drawn::Image(
                        i,
                        Rect {
                            left: 8,
                            top: (y0 + 4) as i32,
                            right: ROW_H,
                            bottom: (y0 + ROW_H - 4) as i32,
                        },
                    ),
                )
                &&& !e.unsaved ==> ops.contains(
                    Drawn::Text(
                        e.file_name@,
                        Rect {
                            left: (ROW_H + 12) as i32,
                            top: y0 as i32,
                            right: (st.card_w - 8) as i32,
                            bottom: (y0 + ROW_H) as i32,
                        },
                        TEXT,
                    ),
                )
            }
        }),
{
    let ops = scene_ops(st, near, far);
    let first = seq![
        Drawn::Fill(rect_of(0, 0, st.window_size().0, st.window_size().1), PEEK_BG),
    ] + peek_ops(st, 1, near, 9) + peek_ops(st, 2, far, 18);
    let card = card_ops(st);
    let list = if st.expanded {
        list_ops(st, st.stack@.len() as int)
    } else {
        seq![]
    };
    assert(ops =~= first + card + list);
    assert(ops[first.len() as int + 1] == card[1]);
    assert(ops[first.len() as int + 3] == card[3]);
    if st.stack@[0].unsaved {
        assert(ops[first.len() as int + 5] == card[5]);
    }
    if i > 0 && st.expanded {
        lemma_listed(st, st.stack@.len() as int, i);
        assert forall|k: int| 0 <= k < 3 implies ops.contains(#[trigger] row_ops(st, i)[k]) by {
            let op = row_ops(st, i)[k];
            let j = choose|j: int| 0 <= j < list.len() && list[j] == op;
            assert(ops[first.len() + card.len() + j] == op);
        }
        assert(ops.contains(row_ops(st, i)[1]));
        assert(ops.contains(row_ops(st, i)[2]));
    }
}

/// A preview can be drawn into a place that has a size, if the capture is there
/// and has bytes for all of its pixels.
pub proof fn law_what_can_be_drawn(st: State, idx: int, w: int, h: int)
    ensures
        drawable(st, idx, w, h) ==> w >= 1 && h >= 1,
        drawable(st, idx, w, h) ==> 0 <= idx < st.stack@.len() && st.stack@[idx].bits is Some,
        w >= 1 && h >= 1 && 0 <= idx < st.stack@.len() ==> (st.stack@[idx].bits matches Some(b)
            ==> drawable(st, idx, w, h) == (b.0@.len() >= 4 * (b.1 * b.2))),
{
}

/// A capture that peeks out behind the card is drawn in its own place, on a
/// background and with a frame; where there is none, nothing is drawn.
pub proof fn law_older_captures_peek_out(st: State, idx: int, size: (i32, i32), off: int)
    ensures
        idx >= st.stack@.len() ==> peek_ops(st, idx, size, off).len() == 0,
        idx < st.stack@.len() ==> {
            let ops = peek_ops(st, idx, size, off);
            let r = peek_rect(st, size, off);
            &&& ops.len() == 3
            &&& ops[0] == Drawn::Fill(r, PEEK_BG)
            &&& ops[1] == Drawn::Image(idx, r)
            &&& ops[2] == Drawn::Frame(r, BORDER)
        },
{
}

} // verus!

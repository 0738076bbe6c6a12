//! Lightweight recent-capture history (file-path references only).

use vstd::prelude::*;

use crate::filename::{in_dir, join_path};

verus! {

#[derive(Debug)]
pub struct HistoryEntry {
    pub path: String,
    pub captured_at: String,
    pub size_bytes: u64,
    pub width: u32,
    pub height: u32,
    /// "image" or "video".
    pub kind: String,
    /// Video duration in whole seconds (0 for images).
    pub duration_secs: u64,
}

/// The kind of an entry that does not tell: an image.
pub fn default_kind() -> (s: String)
    ensures
        s@ == "image"@,
{
    "image".to_owned()
}

/// The recent captures, newest first.
pub struct HistoryState(pub Vec<HistoryEntry>);

/// What is known of a capture's file: whether it is there, how long it is and
/// how large its picture is.
#[derive(Clone, Copy, Debug)]
pub struct FileFacts {
    pub size: Option<u64>,
    pub dimensions: Option<(u32, u32)>,
}

impl FileFacts {
    /// A file without a length does not exist.
    pub open spec fn present(self) -> bool {
        self.size is Some
    }
}

/// Where the history is kept.
pub fn history_path(config_dir: Option<&str>) -> (r: String)
    ensures
        r@ == in_dir(
            match config_dir {
                Some(d) => d@,
                None => "."@,
            },
            "history.json"@,
        ),
{
    match config_dir {
        Some(d) => join_path(d, "history.json"),
        None => join_path(".", "history.json"),
    }
}

/// An entry with what its file tells: the length, and the size of the picture
/// where it is not known yet.
pub open spec fn enriched(e: HistoryEntry, f: FileFacts) -> HistoryEntry {
    let size_bytes = match f.size {
        Some(n) => n,
        None => e.size_bytes,
    };
    match f.dimensions {
        Some(d) => if e.width == 0 || e.height == 0 {
            HistoryEntry { size_bytes, width: d.0, height: d.1, ..e }
        } else {
            HistoryEntry { size_bytes, ..e }
        },
        None => HistoryEntry { size_bytes, ..e },
    }
}

pub fn enrich_entry_metadata(entry: &mut HistoryEntry, f: &FileFacts)
    ensures
        *final(entry) == enriched(*old(entry), *f),
{
    if let Some(n) = f.size {
        entry.size_bytes = n;
    }
    if entry.width == 0 || entry.height == 0 {
        if let Some(d) = f.dimensions {
            entry.width = d.0;
            entry.height = d.1;
        }
    }
}

/// The entries of `s` at the places where `keep` holds, in their order.
pub open spec fn kept(s: Seq<HistoryEntry>, keep: Seq<bool>) -> Seq<HistoryEntry>
    decreases s.len(),
{
    if s.len() == 0 {
        s
    } else {
        let rest = kept(s.drop_last(), keep);
        if keep[s.len() - 1] {
            rest.push(s.last())
        } else {
            rest
        }
    }
}

/// Drops the entries at the places where `keep` does not hold. Returns whether
/// any was dropped.
fn keep_only(entries: &mut Vec<HistoryEntry>, keep: &Vec<bool>) -> (dropped: bool)
    requires
        keep@.len() == old(entries)@.len(),
    ensures
        final(entries)@ == kept(old(entries)@, keep@),
        dropped == (final(entries)@.len() != old(entries)@.len()),
{
    let before: usize = entries.len();
    let mut rest: Vec<HistoryEntry> = Vec::new();
    std::mem::swap(entries, &mut rest);
    let ghost all = rest@;
    let n: usize = keep.len();
    let mut i: usize = 0;
    for e in it: rest
        invariant
            it.seq() == all,
            i == it.index(),
            n == keep@.len(),
            all.len() == n,
            entries@ == kept(all.take(it.index() as int), keep@),
    {
        proof {
            assert(all.take(i + 1).drop_last() =~= all.take(i as int));
            assert(all.take(i + 1).last() == all[i as int]);
        }
        if keep[i] {
            entries.push(e);
        }
        i = i + 1;
    }
    assert(all.take(all.len() as int) =~= all);
    entries.len() != before
}

/// Which of the files are there.
pub open spec fn presence(files: Seq<FileFacts>) -> Seq<bool> {
    files.map_values(|f: FileFacts| f.present())
}

/// Remove entries whose files no longer exist: `files[i]` belongs to
/// `entries[i]`. Returns true if any entry was removed.
pub fn prune_missing(entries: &mut Vec<HistoryEntry>, files: &Vec<FileFacts>) -> (pruned: bool)
    requires
        files@.len() == old(entries)@.len(),
    ensures
        final(entries)@ == kept(old(entries)@, presence(files@)),
        pruned == (exists|i: int| 0 <= i < files@.len() && !(#[trigger] files@[i]).present()),
{
    let mut keep: Vec<bool> = Vec::new();
    for i in 0..files.len()
        invariant
            keep@ == presence(files@).take(i as int),
    {
        keep.push(files[i].size.is_some());
    }
    assert(keep@ =~= presence(files@));
    let r = keep_only(entries, &keep);
    proof {
        lemma_kept_length(old(entries)@, presence(files@));
        if r {
            let i = choose|i: int| 0 <= i < files@.len() && !(#[trigger] presence(files@)[i]);
            assert(!files@[i].present());
        } else {
            assert forall|i: int| 0 <= i < files@.len() implies (#[trigger] files@[i]).present() by {
                assert(presence(files@)[i]);
            }
        }
    }
    r
}

proof fn lemma_kept_length(s: Seq<HistoryEntry>, keep: Seq<bool>)
    requires
        s.len() <= keep.len(),
    ensures
        kept(s, keep).len() <= s.len(),
        (kept(s, keep).len() == s.len()) == (forall|i: int| 0 <= i < s.len() ==> #[trigger] keep[i]),
    decreases s.len(),
{
    if s.len() > 0 {
        lemma_kept_length(s.drop_last(), keep);
        if kept(s, keep).len() == s.len() {
            assert(keep[s.len() - 1]);
            assert forall|i: int| 0 <= i < s.len() implies #[trigger] keep[i] by {
                if i < s.len() - 1 {
                    assert(kept(s.drop_last(), keep).len() == s.drop_last().len());
                }
            }
        } else if forall|i: int| 0 <= i < s.len() ==> #[trigger] keep[i] {
            assert(keep[s.len() - 1]);
        }
    }
}

/// Whether an entry still lacks something that its file can tell.
pub open spec fn incomplete(e: HistoryEntry) -> bool {
    e.size_bytes == 0 || e.width == 0
}

/// The entries whose files are there, each with what its file tells: all of
/// them, or only those that lack something.
pub open spec fn surviving(s: Seq<HistoryEntry>, files: Seq<FileFacts>, all: bool) -> Seq<
    HistoryEntry,
>
    decreases s.len(),
{
    if s.len() == 0 {
        s
    } else {
        let rest = surviving(s.drop_last(), files, all);
        let f = files[s.len() - 1];
        if !f.present() {
            rest
        } else if all || incomplete(s.last()) {
            rest.push(enriched(s.last(), f))
        } else {
            rest.push(s.last())
        }
    }
}

fn survive(entries: &mut Vec<HistoryEntry>, files: &Vec<FileFacts>, everything: bool) -> (pruned:
    bool)
    requires
        files@.len() == old(entries)@.len(),
    ensures
        final(entries)@ == surviving(old(entries)@, files@, everything),
        pruned == (exists|i: int| 0 <= i < files@.len() && !(#[trigger] files@[i]).present()),
{
    let mut rest: Vec<HistoryEntry> = Vec::new();
    std::mem::swap(entries, &mut rest);
    let ghost all = rest@;
    let n: usize = files.len();
    let mut i: usize = 0;
    let mut pruned = false;
    for e in it: rest
        invariant
            it.seq() == all,
            i == it.index(),
            n == files@.len(),
            all.len() == n,
            entries@ == surviving(all.take(it.index() as int), files@, everything),
            pruned == (exists|j: int| 0 <= j < i && !(#[trigger] files@[j]).present()),
    {
        proof {
            assert(all.take(i + 1).drop_last() =~= all.take(i as int));
            assert(all.take(i + 1).last() == all[i as int]);
        }
        let mut e = e;
        if files[i].size.is_some() {
            if everything || e.size_bytes == 0 || e.width == 0 {
                enrich_entry_metadata(&mut e, &files[i]);
            }
            entries.push(e);
        } else {
            assert(!files@[i as int].present());
            pruned = true;
        }
        i = i + 1;
    }
    assert(all.take(all.len() as int) =~= all);
    pruned
}

/// Starts with the stored history, without the captures that are gone and with
/// fresh file facts: `files[i]` belongs to the `i`th stored entry.
pub fn init(stored: Option<Vec<HistoryEntry>>, files: &Vec<FileFacts>) -> (state: HistoryState)
    requires
        match stored {
            Some(s) => files@.len() == s@.len(),
            None => files@.len() == 0,
        },
    ensures
        match stored {
            Some(s) => state.0@ == surviving(s@, files@, true),
            None => state.0@.len() == 0,
        },
{
    match stored {
        Some(s) => {
            let mut entries = s;
            survive(&mut entries, files, true);
            HistoryState(entries)
        },
        None => HistoryState(Vec::new()),
    }
}

/// Brings the history up to date with the files: `files[i]` belongs to the
/// `i`th entry. Returns whether an entry was dropped, and the history is to be
/// stored and announced.
pub fn entries(state: &mut HistoryState, files: &Vec<FileFacts>) -> (pruned: bool)
    requires
        files@.len() == old(state).0@.len(),
    ensures
        final(state).0@ == surviving(old(state).0@, files@, false),
        pruned == (exists|i: int| 0 <= i < files@.len() && !(#[trigger] files@[i]).present()),
{
    survive(&mut state.0, files, false)
}

/// The entries with other paths than the given one, in their order.
pub open spec fn without(s: Seq<HistoryEntry>, path: Seq<char>) -> Seq<HistoryEntry>
    decreases s.len(),
{
    if s.len() == 0 {
        s
    } else {
        let rest = without(s.drop_last(), path);
        if s.last().path@ != path {
            rest.push(s.last())
        } else {
            rest
        }
    }
}

fn drop_path(entries: &mut Vec<HistoryEntry>, path: &str) -> (dropped: bool)
    ensures
        final(entries)@ == without(old(entries)@, path@),
        dropped == has_path(old(entries)@, path@),
{
    let mut rest: Vec<HistoryEntry> = Vec::new();
    std::mem::swap(entries, &mut rest);
    let ghost all = rest@;
    let mut dropped = false;
    for e in it: rest
        invariant
            it.seq() == all,
            entries@ == without(all.take(it.index() as int), path@),
            dropped == has_path(all.take(it.index() as int), path@),
    {
        let ghost i = it.index() as int;
        proof {
            assert(all.take(i + 1).drop_last() =~= all.take(i));
            assert(all.take(i + 1).last() == all[i]);
            if has_path(all.take(i), path@) {
                let j = choose|j: int|
                    0 <= j < i && (#[trigger] all.take(i)[j]).path@ == path@;
                assert(all.take(i + 1)[j].path@ == path@);
            }
            if all[i].path@ == path@ {
                assert(all.take(i + 1)[i].path@ == path@);
            } else if has_path(all.take(i + 1), path@) {
                let j = choose|j: int|
                    0 <= j < i + 1 && (#[trigger] all.take(i + 1)[j]).path@ == path@;
                assert(all.take(i)[j].path@ == path@);
            }
        }
        if crate::text::same(e.path.as_str(), path) {
            dropped = true;
        } else {
            entries.push(e);
        }
    }
    assert(all.take(all.len() as int) =~= all);
    dropped
}

/// Whether the history holds a capture with the given path.
pub open spec fn has_path(s: Seq<HistoryEntry>, path: Seq<char>) -> bool {
    exists|i: int| 0 <= i < s.len() && (#[trigger] s[i]).path@ == path
}

/// How many captures are kept at most: one at least.
pub open spec fn limit(max_history: usize) -> int {
    if max_history >= 1 {
        max_history as int
    } else {
        1
    }
}

/// The history with a capture put in front: an older entry for the same file
/// goes, and so does what is too much.
pub open spec fn inserted(s: Seq<HistoryEntry>, e: HistoryEntry, max_history: usize) -> Seq<
    HistoryEntry,
> {
    let all = seq![e] + without(s, e.path@);
    if all.len() <= limit(max_history) {
        all
    } else {
        all.take(limit(max_history))
    }
}

fn insert_entry(state: &mut HistoryState, new_entry: HistoryEntry, max_history: usize)
    ensures
        final(state).0@ == inserted(old(state).0@, new_entry, max_history),
{
    let max: usize = if max_history >= 1 {
        max_history
    } else {
        1
    };
    drop_path(&mut state.0, new_entry.path.as_str());
    state.0.insert(0, new_entry);
    assert(state.0@ =~= seq![new_entry] + without(old(state).0@, new_entry.path@));
    state.0.truncate(max);
}

/// Add a capture at the front of the stack, trimmed to the configured max.
pub fn add(
    state: &mut HistoryState,
    path: String,
    captured_at: String,
    file: &FileFacts,
    max_history: usize,
)
    ensures
        ({
            let kind = final(state).0@[0].kind;
            &&& kind@ == "image"@
            &&& final(state).0@ == inserted(
                old(state).0@,
                enriched(
                    HistoryEntry {
                        path,
                        captured_at,
                        size_bytes: 0,
                        width: 0,
                        height: 0,
                        kind,
                        duration_secs: 0,
                    },
                    *file,
                ),
                max_history,
            )
        }),
{
    let mut e = HistoryEntry {
        path,
        captured_at,
        size_bytes: 0,
        width: 0,
        height: 0,
        kind: default_kind(),
        duration_secs: 0,
    };
    enrich_entry_metadata(&mut e, file);
    insert_entry(state, e, max_history);
}

/// Add a finished video recording to the history.
pub fn add_video(
    state: &mut HistoryState,
    path: String,
    captured_at: String,
    duration_secs: u64,
    width: u32,
    height: u32,
    file: &FileFacts,
    max_history: usize,
)
    ensures
        ({
            let kind = final(state).0@[0].kind;
            &&& kind@ == "video"@
            &&& final(state).0@ == inserted(
                old(state).0@,
                enriched(
                    HistoryEntry {
                        path,
                        captured_at,
                        size_bytes: 0,
                        width,
                        height,
                        kind,
                        duration_secs,
                    },
                    *file,
                ),
                max_history,
            )
        }),
{
    let mut e = HistoryEntry {
        path,
        captured_at,
        size_bytes: 0,
        width,
        height,
        kind: "video".to_owned(),
        duration_secs,
    };
    enrich_entry_metadata(&mut e, file);
    insert_entry(state, e, max_history);
}

/// Takes a capture out of the history. Returns whether it was there, and the
/// history is to be stored and announced.
pub fn remove(state: &mut HistoryState, path: &str) -> (changed: bool)
    ensures
        final(state).0@ == without(old(state).0@, path@),
        changed == has_path(old(state).0@, path@),
{
    drop_path(&mut state.0, path)
}

pub fn clear(state: &mut HistoryState)
    ensures
        final(state).0@.len() == 0,
{
    state.0.clear();
}

/// No file is in the history twice.
pub open spec fn unique(s: Seq<HistoryEntry>) -> bool {
    forall|i: int, j: int|
        0 <= i < j < s.len() ==> (#[trigger] s[i]).path@ != (#[trigger] s[j]).path@
}

proof fn lemma_without(s: Seq<HistoryEntry>, path: Seq<char>)
    ensures
        !has_path(without(s, path), path),
        without(s, path).len() <= s.len(),
        !has_path(s, path) ==> without(s, path) == s,
        forall|q: Seq<char>| #[trigger] has_path(without(s, path), q) ==> has_path(s, q),
        forall|q: Seq<char>| q != path && #[trigger] has_path(s, q) ==> has_path(without(s, path), q),
        unique(s) ==> unique(without(s, path)),
    decreases s.len(),
{
    if s.len() > 0 {
        let d = s.drop_last();
        lemma_without(d, path);
        let r = without(d, path);
        let w = without(s, path);
        assert forall|q: Seq<char>| #[trigger] has_path(d, q) implies has_path(s, q) by {
            let i = choose|i: int| 0 <= i < d.len() && (#[trigger] d[i]).path@ == q;
            assert(s[i].path@ == q);
        }
        assert(s[s.len() - 1] == s.last());
        assert(has_path(s, s.last().path@));
        assert forall|q: Seq<char>| #[trigger] has_path(w, q) implies has_path(s, q) by {
            let i = choose|i: int| 0 <= i < w.len() && (#[trigger] w[i]).path@ == q;
            if i < r.len() {
                assert(r[i].path@ == q);
                assert(has_path(r, q));
            } else {
                assert(w[i] == s.last());
            }
        }
        assert(!has_path(w, path)) by {
            if has_path(w, path) {
                let i = choose|i: int| 0 <= i < w.len() && (#[trigger] w[i]).path@ == path;
                if i < r.len() {
                    assert(r[i].path@ == path);
                    assert(has_path(r, path));
                }
            }
        }
        assert forall|q: Seq<char>| q != path && #[trigger] has_path(s, q) implies has_path(
            w,
            q,
        ) by {
            let i = choose|i: int| 0 <= i < s.len() && (#[trigger] s[i]).path@ == q;
            if i < d.len() {
                assert(d[i].path@ == q);
                assert(has_path(d, q));
                let k = choose|k: int| 0 <= k < r.len() && (#[trigger] r[k]).path@ == q;
                assert(w[k].path@ == q);
            } else {
                assert(w[w.len() - 1].path@ == q);
            }
        }
        if !has_path(s, path) {
            assert(!has_path(d, path));
            assert(w =~= s);
        }
        if unique(s) {
            assert(unique(d)) by {
                assert forall|i: int, j: int| 0 <= i < j < d.len() implies (#[trigger] d[i]).path@
                    != (#[trigger] d[j]).path@ by {
                    assert(s[i].path@ != s[j].path@);
                }
            }
            assert forall|i: int, j: int| 0 <= i < j < w.len() implies (#[trigger] w[i]).path@ != (
            #[trigger] w[j]).path@ by {
                if j < r.len() {
                    assert(r[i].path@ != r[j].path@);
                } else {
                    assert(w[j] == s.last());
                    assert(r[i] == w[i]);
                    assert(has_path(r, r[i].path@));
                    assert(has_path(d, r[i].path@));
                    let k = choose|k: int|
                        0 <= k < d.len() && (#[trigger] d[k]).path@ == r[i].path@;
                    assert(s[k].path@ != s[s.len() - 1].path@);
                }
            }
        }
    }
}

/// A capture that is put in comes first, and the history stays within its
/// limit and free of doubles.
pub proof fn law_newest_first(s: Seq<HistoryEntry>, e: HistoryEntry, max_history: usize)
    ensures
        inserted(s, e, max_history)[0] == e,
        1 <= inserted(s, e, max_history).len() <= limit(max_history),
        unique(s) ==> unique(inserted(s, e, max_history)),
{
    lemma_without(s, e.path@);
    let w = without(s, e.path@);
    let all = seq![e] + w;
    let r = inserted(s, e, max_history);
    if unique(s) {
        assert forall|i: int, j: int| 0 <= i < j < r.len() implies (#[trigger] r[i]).path@ != (
        #[trigger] r[j]).path@ by {
            assert(r[i] == all[i] && r[j] == all[j]);
            assert(all[j] == w[j - 1]);
            if i > 0 {
                assert(all[i] == w[i - 1]);
                assert(w[i - 1].path@ != w[j - 1].path@);
            } else {
                if w[j - 1].path@ == e.path@ {
                    assert(has_path(w, e.path@));
                }
            }
        }
    }
}

/// Putting a capture in twice is the same as putting it in once.
pub proof fn law_adding_twice_changes_nothing(
    s: Seq<HistoryEntry>,
    e: HistoryEntry,
    max_history: usize,
)
    requires
        unique(s),
    ensures
        inserted(inserted(s, e, max_history), e, max_history) == inserted(s, e, max_history),
{
    let r = inserted(s, e, max_history);
    law_newest_first(s, e, max_history);
    let tail = r.skip(1);
    assert(r =~= seq![e] + tail);
    assert(!has_path(tail, e.path@)) by {
        if has_path(tail, e.path@) {
            let i = choose|i: int| 0 <= i < tail.len() && (#[trigger] tail[i]).path@ == e.path@;
            assert(r[0].path@ != r[i + 1].path@);
        }
    }
    lemma_without_front(e, tail);
    lemma_without(tail, e.path@);
    assert(without(r, e.path@) == tail);
}

proof fn lemma_without_front(e: HistoryEntry, tail: Seq<HistoryEntry>)
    ensures
        without(seq![e] + tail, e.path@) == without(tail, e.path@),
    decreases tail.len(),
{
    let s = seq![e] + tail;
    if tail.len() == 0 {
        assert(s.drop_last() =~= Seq::<HistoryEntry>::empty());
        assert(without(s.drop_last(), e.path@) =~= Seq::<HistoryEntry>::empty());
        assert(s.last() == e);
    } else {
        assert(s.drop_last() =~= seq![e] + tail.drop_last());
        assert(s.last() == tail.last());
        lemma_without_front(e, tail.drop_last());
    }
}

/// A capture that is taken out is gone, and all others stay.
pub proof fn law_removed_captures_are_gone(s: Seq<HistoryEntry>, path: Seq<char>, other: Seq<char>)
    requires
        other != path,
    ensures
        !has_path(without(s, path), path),
        has_path(without(s, path), other) == has_path(s, other),
        without(without(s, path), path) == without(s, path),
        unique(s) ==> unique(without(s, path)),
{
    lemma_without(s, path);
    lemma_without(without(s, path), path);
}

proof fn lemma_surviving(s: Seq<HistoryEntry>, files: Seq<FileFacts>, all: bool)
    requires
        s.len() <= files.len(),
    ensures
        surviving(s, files, all).len() <= s.len(),
        forall|q: Seq<char>| #[trigger] has_path(surviving(s, files, all), q) ==> has_path(s, q),
        unique(s) ==> unique(surviving(s, files, all)),
        (forall|i: int| 0 <= i < s.len() ==> (#[trigger] files[i]).present()) ==> surviving(
            s,
            files,
            all,
        ).len() == s.len(),
    decreases s.len(),
{
    if s.len() > 0 {
        let d = s.drop_last();
        lemma_surviving(d, files, all);
        let r = surviving(d, files, all);
        let w = surviving(s, files, all);
        assert(s[s.len() - 1] == s.last());
        assert forall|q: Seq<char>| #[trigger] has_path(w, q) implies has_path(s, q) by {
            let i = choose|i: int| 0 <= i < w.len() && (#[trigger] w[i]).path@ == q;
            if i < r.len() {
                assert(r[i].path@ == q);
                assert(has_path(r, q));
                let k = choose|k: int| 0 <= k < d.len() && (#[trigger] d[k]).path@ == q;
                assert(s[k].path@ == q);
            } else {
                assert(s[s.len() - 1].path@ == q);
            }
        }
        if unique(s) {
            assert(unique(d)) by {
                assert forall|i: int, j: int| 0 <= i < j < d.len() implies (#[trigger] d[i]).path@
                    != (#[trigger] d[j]).path@ by {
                    assert(s[i].path@ != s[j].path@);
                }
            }
            assert forall|i: int, j: int| 0 <= i < j < w.len() implies (#[trigger] w[i]).path@ != (
            #[trigger] w[j]).path@ by {
                if j < r.len() {
                    assert(r[i].path@ != r[j].path@);
                } else {
                    assert(w[j].path@ == s.last().path@);
                    assert(r[i] == w[i]);
                    assert(has_path(r, r[i].path@));
                    assert(has_path(d, r[i].path@));
                    let k = choose|k: int|
                        0 <= k < d.len() && (#[trigger] d[k]).path@ == r[i].path@;
                    assert(s[k].path@ != s[s.len() - 1].path@);
                }
            }
        }
        if forall|i: int| 0 <= i < s.len() ==> (#[trigger] files[i]).present() {
            assert(files[s.len() - 1].present());
        }
    }
}

/// Bringing the history up to date adds nothing to it and leaves it free of
/// doubles; where every file is there, no entry goes.
pub proof fn law_pruning_only_drops(s: Seq<HistoryEntry>, files: Seq<FileFacts>, all: bool)
    requires
        s.len() == files.len(),
    ensures
        surviving(s, files, all).len() <= s.len(),
        forall|q: Seq<char>| #[trigger] has_path(surviving(s, files, all), q) ==> has_path(s, q),
        unique(s) ==> unique(surviving(s, files, all)),
        (forall|i: int| 0 <= i < s.len() ==> (#[trigger] files[i]).present()) ==> surviving(
            s,
            files,
            all,
        ).len() == s.len(),
{
    lemma_surviving(s, files, all);
}

proof fn lemma_without_is_filtered(s: Seq<HistoryEntry>, path: Seq<char>)
    ensures
        without(s, path) == s.filter(|e: HistoryEntry| e.path@ != path),
    decreases s.len(),
{
    reveal(Seq::filter);
    if s.len() > 0 {
        lemma_without_is_filtered(s.drop_last(), path);
    } else {
        assert(without(s, path) =~= s.filter(|e: HistoryEntry| e.path@ != path));
    }
}

/// Taking a capture out leaves exactly the entries of other files, in the order
/// they had.
pub proof fn law_removing_filters_by_path(s: Seq<HistoryEntry>, path: Seq<char>, e: HistoryEntry)
    ensures
        without(s, path) == s.filter(|x: HistoryEntry| x.path@ != path),
        e.path@ != path ==> without(s, path).contains(e) == s.contains(e),
        e.path@ == path ==> !without(s, path).contains(e),
    decreases s.len(),
{
    lemma_without_is_filtered(s, path);
    assert(without(s, path) == s.filter(|x: HistoryEntry| x.path@ != path));
    let w = without(s, path);
    if s.len() > 0 {
        let d = s.drop_last();
        let r = without(d, path);
        law_removing_filters_by_path(d, path, e);
        if s.contains(e) {
            let i = choose|i: int| 0 <= i < s.len() && s[i] == e;
            if i < d.len() {
                assert(d[i] == e);
            }
        }
        if d.contains(e) {
            let i = choose|i: int| 0 <= i < d.len() && d[i] == e;
            assert(s[i] == e);
        }
        if r.contains(e) {
            let i = choose|i: int| 0 <= i < r.len() && r[i] == e;
            assert(w[i] == e);
        }
        if w.contains(e) {
            let i = choose|i: int| 0 <= i < w.len() && w[i] == e;
            if i < r.len() {
                assert(r[i] == e);
            } else {
                assert(s[s.len() - 1] == e);
            }
        }
        if s.last() == e && e.path@ != path {
            assert(w[w.len() - 1] == e);
        }
    }
}

/// A capture that is put in comes first; behind it are the entries of the other
/// files in the order they had, as many as the limit leaves room for, and at
/// least the new one is kept.
pub proof fn law_adding_keeps_the_others_in_order(
    s: Seq<HistoryEntry>,
    e: HistoryEntry,
    max_history: usize,
)
    ensures
        ({
            let path = e.path@;
            let others = s.filter(|x: HistoryEntry| x.path@ != path);
            let r = inserted(s, e, max_history);
            &&& r.len() >= 1 && r[0] == e
            &&& forall|i: int| 1 <= i < r.len() ==> #[trigger] r[i] == others[i - 1]
            &&& others.len() < max_history ==> r.len() == others.len() + 1
            &&& 1 <= max_history <= others.len() ==> r.len() == max_history
            &&& max_history == 0 ==> r.len() == 1
        }),
{
    lemma_without_is_filtered(s, e.path@);
}

/// What a file tells goes into its entry: its length always, its picture's size
/// where the entry has none; all else stays.
pub proof fn law_files_complete_their_entries(e: HistoryEntry, f: FileFacts)
    ensures
        ({
            let r = enriched(e, f);
            &&& r.path == e.path && r.captured_at == e.captured_at && r.kind == e.kind
            &&& r.duration_secs == e.duration_secs
            &&& f.size matches Some(n) ==> r.size_bytes == n
            &&& f.size is None ==> r.size_bytes == e.size_bytes
            &&& e.width != 0 && e.height != 0 ==> r.width == e.width && r.height == e.height
            &&& f.dimensions is None ==> r.width == e.width && r.height == e.height
            &&& f.dimensions matches Some(d) ==> (e.width == 0 || e.height == 0 ==> r.width == d.0
                && r.height == d.1)
        }),
{
}

/// Pruning goes entry by entry: an entry stays as it is if its file is there and
/// goes if not, and those that stay keep their order.
pub proof fn law_pruning_goes_entry_by_entry(
    a: Seq<HistoryEntry>,
    fa: Seq<FileFacts>,
    b: Seq<HistoryEntry>,
    fb: Seq<FileFacts>,
    e: HistoryEntry,
    f: FileFacts,
)
    requires
        a.len() == fa.len(),
        b.len() == fb.len(),
    ensures
        kept(a + b, presence(fa + fb)) == kept(a, presence(fa)) + kept(b, presence(fb)),
        f.size is Some ==> kept(seq![e], presence(seq![f])) == seq![e],
        f.size is None ==> kept(seq![e], presence(seq![f])) == Seq::<HistoryEntry>::empty(),
    decreases b.len(),
{
    lemma_kept_of_two(a, presence(fa), b, presence(fb));
    assert(presence(fa + fb) =~= presence(fa) + presence(fb));
    let one = seq![e];
    assert(one.drop_last() =~= Seq::<HistoryEntry>::empty());
    assert(kept(one.drop_last(), presence(seq![f])) =~= Seq::<HistoryEntry>::empty());
    assert(presence(seq![f])[0] == f.present());
    if f.size is Some {
        assert(kept(one, presence(seq![f])) =~= one);
    }
}

proof fn lemma_kept_prefix(s: Seq<HistoryEntry>, k: Seq<bool>, l: Seq<bool>)
    requires
        s.len() <= k.len(),
        s.len() <= l.len(),
        forall|i: int| 0 <= i < s.len() ==> k[i] == l[i],
    ensures
        kept(s, k) == kept(s, l),
    decreases s.len(),
{
    if s.len() > 0 {
        lemma_kept_prefix(s.drop_last(), k, l);
        assert(k[s.len() - 1] == l[s.len() - 1]);
    }
}

proof fn lemma_kept_of_two(
    a: Seq<HistoryEntry>,
    ka: Seq<bool>,
    b: Seq<HistoryEntry>,
    kb: Seq<bool>,
)
    requires
        a.len() == ka.len(),
        b.len() == kb.len(),
    ensures
        kept(a + b, ka + kb) == kept(a, ka) + kept(b, kb),
    decreases b.len(),
{
    if b.len() == 0 {
        assert(a + b =~= a);
        assert(ka + kb =~= ka);
        assert(kept(a, ka) + kept(b, kb) =~= kept(a, ka));
    } else {
        let d = b.drop_last();
        let kd = kb.drop_last();
        lemma_kept_of_two(a, ka, d, kd);
        assert((a + b).drop_last() =~= a + d);
        assert((a + b).last() == b.last());
        lemma_kept_prefix(a + d, ka + kb, ka + kd);
        lemma_kept_prefix(d, kb, kd);
        assert((ka + kb)[a.len() + b.len() - 1] == kb[b.len() - 1]);
        assert(kept(a + b, ka + kb) =~= kept(a, ka) + kept(b, kb));
    }
}

/// Bringing the history up to date goes entry by entry: an entry whose file is
/// gone goes; one that lacks its length or width, or any one if all are asked
/// for, gets what its file tells; any other stays as it is. Their order stays.
pub proof fn law_updating_goes_entry_by_entry(
    a: Seq<HistoryEntry>,
    fa: Seq<FileFacts>,
    b: Seq<HistoryEntry>,
    fb: Seq<FileFacts>,
    all: bool,
    e: HistoryEntry,
    f: FileFacts,
)
    requires
        a.len() == fa.len(),
        b.len() == fb.len(),
    ensures
        surviving(a + b, fa + fb, all) == surviving(a, fa, all) + surviving(b, fb, all),
        f.size is None ==> surviving(seq![e], seq![f], all) == Seq::<HistoryEntry>::empty(),
        f.size is Some && !all && e.size_bytes != 0 && e.width != 0 ==> surviving(
            seq![e],
            seq![f],
            all,
        ) == seq![e],
        f.size is Some && (all || e.size_bytes == 0 || e.width == 0) ==> surviving(
            seq![e],
            seq![f],
            all,
        ) == seq![enriched(e, f)],
    decreases b.len(),
{
    let one = seq![e];
    assert(one.drop_last() =~= Seq::<HistoryEntry>::empty());
    assert(surviving(one.drop_last(), seq![f], all) =~= Seq::<HistoryEntry>::empty());
    assert(seq![f][0] == f);
    if f.size is Some {
        assert(surviving(one, seq![f], all).len() == 1);
        assert(surviving(one, seq![f], all) =~= seq![surviving(one, seq![f], all)[0]]);
    }
    if b.len() == 0 {
        assert(a + b =~= a);
        assert(fa + fb =~= fa);
        assert(surviving(a, fa, all) + surviving(b, fb, all) =~= surviving(a, fa, all));
    } else {
        let d = b.drop_last();
        let fd = fb.drop_last();
        law_updating_goes_entry_by_entry(a, fa, d, fd, all, e, f);
        assert((a + b).drop_last() =~= a + d);
        assert((a + b).last() == b.last());
        lemma_surviving_prefix(a + d, fa + fb, fa + fd, all);
        lemma_surviving_prefix(d, fb, fd, all);
        assert((fa + fb)[a.len() + b.len() - 1] == fb[b.len() - 1]);
        assert(surviving(a + b, fa + fb, all) =~= surviving(a, fa, all) + surviving(b, fb, all));
    }
}

proof fn lemma_surviving_prefix(
    s: Seq<HistoryEntry>,
    k: Seq<FileFacts>,
    l: Seq<FileFacts>,
    all: bool,
)
    requires
        s.len() <= k.len(),
        s.len() <= l.len(),
        forall|i: int| 0 <= i < s.len() ==> k[i] == l[i],
    ensures
        surviving(s, k, all) == surviving(s, l, all),
    decreases s.len(),
{
    if s.len() > 0 {
        lemma_surviving_prefix(s.drop_last(), k, l, all);
        assert(k[s.len() - 1] == l[s.len() - 1]);
    }
}

} // verus!

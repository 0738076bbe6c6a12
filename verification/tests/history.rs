use snapdrop::commands::{delete_capture, start_drag};
use snapdrop::dragdrop::DragOutcome;
use snapdrop::history::{
    add, add_video, clear, default_kind, enrich_entry_metadata, entries, history_path, init,
    prune_missing, remove, FileFacts, HistoryEntry, HistoryState,
};
use snapdrop::settings::Settings;

fn entry(path: &str) -> HistoryEntry {
    HistoryEntry {
        path: path.to_string(),
        captured_at: "2026-01-01T00:00:00+00:00".to_string(),
        size_bytes: 10,
        width: 4,
        height: 3,
        kind: default_kind(),
        duration_secs: 0,
    }
}

fn there() -> FileFacts {
    FileFacts { size: Some(99), dimensions: Some((8, 6)) }
}

fn gone() -> FileFacts {
    FileFacts { size: None, dimensions: None }
}

fn paths(entries: &Vec<HistoryEntry>) -> Vec<&str> {
    entries.iter().map(|e| e.path.as_str()).collect()
}

fn put(st: &mut HistoryState, path: &str, max: usize) {
    add(st, path.to_string(), "now".to_string(), &there(), max);
}

#[test]
fn prune_missing_removes_deleted_files() {
    let of = |path: &str| HistoryEntry {
        path: path.to_string(),
        captured_at: "2026-08-28T10:00:00".to_string(),
        size_bytes: 0,
        width: 0,
        height: 0,
        kind: "image".to_string(),
        duration_secs: 0,
    };
    let existing = FileFacts { size: Some(3), dimensions: None };
    let mut entries = vec![of("exists.png"), of("missing.png")];
    assert!(prune_missing(&mut entries, &vec![existing, gone()]));
    assert_eq!(entries.len(), 1);
    assert_eq!(entries[0].path, "exists.png");
    // Second pass finds nothing to remove.
    assert!(!prune_missing(&mut entries, &vec![FileFacts { size: Some(3), dimensions: None }]));
}

#[test]
fn deleted_files_are_pruned() {
    let mut list = vec![entry("a"), entry("b"), entry("c")];
    assert!(prune_missing(&mut list, &vec![there(), gone(), there()]));
    assert_eq!(paths(&list), vec!["a", "c"]);
    assert!(!prune_missing(&mut list, &vec![there(), there()]));
    assert_eq!(list[0].size_bytes, 10);
}

#[test]
fn captures_are_kept_newest_first_without_doubles() {
    let mut st = HistoryState(Vec::new());
    put(&mut st, "a", 3);
    put(&mut st, "b", 3);
    put(&mut st, "a", 3);
    assert_eq!(paths(&st.0), vec!["a", "b"]);
    put(&mut st, "c", 3);
    put(&mut st, "d", 3);
    assert_eq!(paths(&st.0), vec!["d", "c", "a"]);
    // At least one is always kept.
    put(&mut st, "e", 0);
    assert_eq!(paths(&st.0), vec!["e"]);
    assert_eq!((st.0[0].size_bytes, st.0[0].width, st.0[0].height), (99, 8, 6));
    assert_eq!((st.0[0].kind.as_str(), st.0[0].duration_secs), ("image", 0));
}

#[test]
fn adding_twice_changes_nothing() {
    let mut st = HistoryState(vec![entry("a"), entry("b")]);
    put(&mut st, "c", 3);
    let once: Vec<String> = st.0.iter().map(|e| e.path.clone()).collect();
    put(&mut st, "c", 3);
    assert_eq!(paths(&st.0), once);
}

#[test]
fn recordings_bring_their_own_size() {
    let mut st = HistoryState(Vec::new());
    add_video(&mut st, "v".to_string(), "now".to_string(), 7, 640, 480, &there(), 5);
    let e = &st.0[0];
    assert_eq!((e.width, e.height, e.size_bytes, e.duration_secs), (640, 480, 99, 7));
    assert_eq!(e.kind, "video");
    add_video(&mut st, "w".to_string(), "now".to_string(), 7, 0, 480, &there(), 5);
    assert_eq!((st.0[0].width, st.0[0].height), (8, 6));
}

#[test]
fn removed_captures_are_gone() {
    let mut st = HistoryState(vec![entry("a"), entry("b")]);
    assert!(remove(&mut st, "a"));
    assert!(!remove(&mut st, "a"));
    assert_eq!(paths(&st.0), vec!["b"]);
    assert!(delete_capture(&mut st, "b"));
    put(&mut st, "x", 5);
    clear(&mut st);
    assert!(st.0.is_empty());
}

#[test]
fn metadata_is_filled_in_where_it_lacks() {
    let mut e = entry("a");
    enrich_entry_metadata(&mut e, &there());
    assert_eq!((e.size_bytes, e.width, e.height), (99, 4, 3));
    e.height = 0;
    enrich_entry_metadata(&mut e, &there());
    assert_eq!((e.width, e.height), (8, 6));
    enrich_entry_metadata(&mut e, &gone());
    assert_eq!((e.size_bytes, e.width, e.height), (99, 8, 6));
}

#[test]
fn stored_entries_are_pruned_and_completed() {
    let st = init(Some(vec![entry("a"), entry("b")]), &vec![gone(), there()]);
    assert_eq!(paths(&st.0), vec!["b"]);
    assert_eq!(st.0[0].size_bytes, 99);
    assert!(init(None, &Vec::new()).0.is_empty());
    // Reading the list leaves complete entries alone.
    let mut st = HistoryState(vec![entry("a"), entry("b"), entry("c")]);
    st.0[1].width = 0;
    assert!(entries(&mut st, &vec![there(), there(), gone()]));
    assert_eq!(paths(&st.0), vec!["a", "b"]);
    assert_eq!((st.0[0].size_bytes, st.0[1].size_bytes, st.0[1].width), (10, 99, 8));
}

#[test]
fn history_has_a_place() {
    assert_eq!(history_path(Some("C:\\cfg")), "C:\\cfg\\history.json");
    assert_eq!(history_path(None), ".\\history.json");
}

#[test]
fn moved_files_leave_the_history() {
    let moved = DragOutcome { dropped: true, moved: true };
    let both = vec!["a".to_string(), "c".to_string()];
    let mut s = Settings::default();
    s.keep_after_drag = false;
    let mut st = HistoryState(vec![entry("a"), entry("b"), entry("c")]);
    assert!(!start_drag(&DragOutcome { dropped: true, moved: false }, &s, &both, &mut st));
    assert_eq!(st.0.len(), 3);
    assert!(start_drag(&moved, &s, &both, &mut st));
    assert_eq!(paths(&st.0), vec!["b"]);
    s.keep_after_drag = true;
    assert!(!start_drag(&moved, &s, &vec!["b".to_string()], &mut st));
    assert_eq!(st.0.len(), 1);
}

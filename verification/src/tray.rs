//! The tray icon's menu: what it lists, and what its entries do.

use vstd::prelude::*;

use crate::history::HistoryEntry;
use crate::hotkey::{shortcut_to_string, shown, Shortcut};
use crate::text::{
    begins_with, chars_of, decimal, decimal_of, index_of, is_prefix, lemma_decimal_value,
    parse_index, same, string_of,
};

verus! {

/// An entry of the menu.
pub struct MenuEntry {
    pub id: String,
    pub label: String,
    pub enabled: bool,
    pub accelerator: Option<String>,
}

impl MenuEntry {
    pub open spec fn reads(
        self,
        id: Seq<char>,
        label: Seq<char>,
        enabled: bool,
        accelerator: Option<Seq<char>>,
    ) -> bool {
        &&& self.id@ == id
        &&& self.label@ == label
        &&& self.enabled == enabled
        &&& match (self.accelerator, accelerator) {
            (Some(a), Some(b)) => a@ == b,
            (None, None) => true,
            _ => false,
        }
    }
}

/// The menu, from top to bottom. There is a separator before "About" and one
/// before "Exit".
pub struct MenuModel {
    pub capture: MenuEntry,
    /// Ends the recording, while there is one.
    pub stop_recording: Option<MenuEntry>,
    pub settings: MenuEntry,
    /// The submenu of recent captures.
    pub recent: Vec<MenuEntry>,
    pub open_folder: MenuEntry,
    pub pause: MenuEntry,
    pub about: MenuEntry,
    pub exit: MenuEntry,
}

/// What comes after the last backslash of a path.
pub open spec fn last_piece(path: Seq<char>) -> Seq<char>
    decreases path.len(),
{
    if path.len() == 0 || path.last() == '\\' {
        Seq::empty()
    } else {
        last_piece(path.drop_last()).push(path.last())
    }
}

proof fn lemma_last_piece(path: Seq<char>, k: int)
    requires
        0 <= k <= path.len(),
        k > 0 ==> path[k - 1] == '\\',
        forall|i: int| k <= i < path.len() ==> path[i] != '\\',
    ensures
        last_piece(path) == path.skip(k),
    decreases path.len(),
{
    if k == path.len() {
        assert(last_piece(path) =~= path.skip(k));
    } else {
        assert(path[path.len() - 1] == path.last());
        lemma_last_piece(path.drop_last(), k);
        assert(path.drop_last().skip(k).push(path.last()) =~= path.skip(k));
    }
}

fn label_of(path: &str) -> (r: String)
    ensures
        r@ == last_piece(path@),
{
    let v = chars_of(path);
    let n: usize = v.len();
    let mut k: usize = n;
    while k > 0 && v[k - 1] != '\\'
        invariant
            k <= n,
            n == v@.len(),
            forall|i: int| k <= i < n ==> v@[i] != '\\',
        decreases k,
    {
        k = k - 1;
    }
    let mut name: Vec<char> = Vec::new();
    for i in k..n
        invariant
            k <= n,
            n == v@.len(),
            name@ == v@.subrange(k as int, i as int),
    {
        name.push(v[i]);
        assert(name@ =~= v@.subrange(k as int, i + 1));
    }
    proof {
        lemma_last_piece(v@, k as int);
        assert(name@ =~= v@.skip(k as int));
    }
    string_of(&name)
}

fn plain(id: &str, label: &str) -> (e: MenuEntry)
    ensures
        e.reads(id@, label@, true, None),
{
    MenuEntry { id: id.to_owned(), label: label.to_owned(), enabled: true, accelerator: None }
}

pub open spec fn recent_id(i: int) -> Seq<char> {
    "recent:"@ + decimal(i as nat)
}

/// Whether a submenu lists the captures of a history, or says that there are
/// none.
pub open spec fn lists(items: Seq<MenuEntry>, entries: Seq<HistoryEntry>) -> bool {
    if entries.len() == 0 {
        items.len() == 1 && items[0].reads("recent:none"@, "No captures yet"@, false, None)
    } else {
        items.len() == entries.len() && forall|i: int|
            0 <= i < items.len() ==> (#[trigger] items[i]).reads(
                recent_id(i),
                last_piece(entries[i].path@),
                true,
                None,
            )
    }
}

fn recent_items(entries: &Vec<HistoryEntry>) -> (items: Vec<MenuEntry>)
    ensures
        lists(items@, entries@),
{
    let mut items: Vec<MenuEntry> = Vec::new();
    if entries.len() == 0 {
        items.push(
            MenuEntry {
                id: "recent:none".to_owned(),
                label: "No captures yet".to_owned(),
                enabled: false,
                accelerator: None,
            },
        );
        return items;
    }
    for i in 0..entries.len()
        invariant
            items@.len() == i,
            forall|j: int|
                0 <= j < i ==> (#[trigger] items@[j]).reads(
                    recent_id(j),
                    last_piece(entries@[j].path@),
                    true,
                    None,
                ),
    {
        let mut id = "recent:".to_owned();
        id.append(decimal_of(i as u64).as_str());
        items.push(plain(id.as_str(), label_of(entries[i].path.as_str()).as_str()));
    }
    items
}

/// The menu for the current history, hotkey and pause state. While a recording
/// is active it can be stopped from here.
pub fn build_menu(
    entries: &Vec<HistoryEntry>,
    hotkey: Option<Shortcut>,
    paused: bool,
    recording: bool,
) -> (m: MenuModel)
    ensures
        m.capture.reads(
            "capture"@,
            "Capture Region"@,
            true,
            Some(
                match hotkey {
                    Some(sc) => shown(sc),
                    None => "Ctrl+Shift+4"@,
                },
            ),
        ),
        match m.stop_recording {
            Some(e) => recording && e.reads("stop_recording"@, "Stop Recording"@, true, None),
            None => !recording,
        },
        m.settings.reads("settings"@, "Settings"@, true, None),
        lists(m.recent@, entries@),
        m.open_folder.reads("open_folder"@, "Open Screenshot Folder"@, true, None),
        m.pause.reads(
            "pause"@,
            if paused {
                "Resume Hotkey"@
            } else {
                "Pause Hotkey"@
            },
            true,
            None,
        ),
        m.about.reads("about"@, "About SnapDrop"@, true, None),
        m.exit.reads("exit"@, "Exit"@, true, None),
{
    let shortcut = match hotkey {
        Some(sc) => shortcut_to_string(&sc),
        None => "Ctrl+Shift+4".to_owned(),
    };
    MenuModel {
        capture: MenuEntry {
            id: "capture".to_owned(),
            label: "Capture Region".to_owned(),
            enabled: true,
            accelerator: Some(shortcut),
        },
        stop_recording: if recording {
            Some(plain("stop_recording", "Stop Recording"))
        } else {
            None
        },
        settings: plain("settings", "Settings"),
        recent: recent_items(entries),
        open_folder: plain("open_folder", "Open Screenshot Folder"),
        pause: plain(
            "pause",
            if paused {
                "Resume Hotkey"
            } else {
                "Pause Hotkey"
            },
        ),
        about: plain("about", "About SnapDrop"),
        exit: plain("exit", "Exit"),
    }
}

/// What a menu entry does.
#[derive(Clone, Copy, Debug, PartialEq, Eq, Structural)]
pub enum TrayAction {
    Capture,
    StopRecording,
    ShowSettings,
    OpenFolder,
    TogglePause,
    Exit,
    /// Show the capture at this place of the history, if there is one.
    ShowRecent(usize),
    Nothing,
}

/// What the entry with an identifier does.
pub open spec fn action_of(id: Seq<char>) -> TrayAction {
    if id == "capture"@ {
        TrayAction::Capture
    } else if id == "stop_recording"@ {
        TrayAction::StopRecording
    } else if id == "settings"@ || id == "about"@ {
        TrayAction::ShowSettings
    } else if id == "open_folder"@ {
        TrayAction::OpenFolder
    } else if id == "pause"@ {
        TrayAction::TogglePause
    } else if id == "exit"@ {
        TrayAction::Exit
    } else if begins_with(id, "recent:"@) {
        match index_of(id.skip("recent:"@.len() as int)) {
            Some(n) => TrayAction::ShowRecent(n as usize),
            None => TrayAction::Nothing,
        }
    } else {
        TrayAction::Nothing
    }
}

pub fn handle_menu_event(id: &str) -> (r: TrayAction)
    ensures
        r == action_of(id@),
{
    if same(id, "capture") {
        TrayAction::Capture
    } else if same(id, "stop_recording") {
        TrayAction::StopRecording
    } else if same(id, "settings") || same(id, "about") {
        TrayAction::ShowSettings
    } else if same(id, "open_folder") {
        TrayAction::OpenFolder
    } else if same(id, "pause") {
        TrayAction::TogglePause
    } else if same(id, "exit") {
        TrayAction::Exit
    } else {
        let v = chars_of(id);
        let head = chars_of("recent:");
        if !is_prefix(&v, &head) {
            return TrayAction::Nothing;
        }
        let mut rest: Vec<char> = Vec::new();
        let k: usize = head.len();
        let n: usize = v.len();
        for i in k..n
            invariant
                k <= n,
                n == v@.len(),
                rest@ == v@.subrange(k as int, i as int),
        {
            rest.push(v[i]);
            assert(rest@ =~= v@.subrange(k as int, i + 1));
        }
        assert(rest@ =~= id@.skip(k as int));
        match parse_index(&rest) {
            Some(i) => TrayAction::ShowRecent(i),
            None => TrayAction::Nothing,
        }
    }
}

/// Flips the pause switch; returns the new state, which the hotkey then takes.
pub fn toggle_pause(paused: &mut bool) -> (now: bool)
    ensures
        now == !*old(paused),
        *final(paused) == now,
{
    *paused = !*paused;
    *paused
}

/// The path of the capture that an entry of the submenu stands for.
pub fn recent_path(entries: &Vec<HistoryEntry>, index: usize) -> (r: Option<String>)
    ensures
        match r {
            Some(p) => index < entries@.len() && p@ == entries@[index as int].path@,
            None => index >= entries@.len(),
        },
{
    if index < entries.len() {
        Some(entries[index].path.clone())
    } else {
        None
    }
}

/// The entry of a capture in the submenu shows that capture, and the entry that
/// stands for none does nothing.
pub proof fn law_recent_entries_are_read_back(i: usize)
    ensures
        action_of(recent_id(i as int)) == TrayAction::ShowRecent(i),
        action_of("recent:none"@) == TrayAction::Nothing,
{
    reveal_strlit("recent:");
    reveal_strlit("recent:none");
    reveal_strlit("capture");
    reveal_strlit("stop_recording");
    reveal_strlit("settings");
    reveal_strlit("about");
    reveal_strlit("open_folder");
    reveal_strlit("pause");
    reveal_strlit("exit");
    let head = "recent:"@;
    let id = recent_id(i as int);
    let d = decimal(i as nat);
    lemma_decimal_value(i as nat);
    assert(id.take(7) =~= head);
    assert(id.skip(7) =~= d);
    assert(id[0] == 'r');
    assert(d.first() == d[0]);
    assert(crate::text::is_digit(d[0]));
    let none = "recent:none"@;
    assert(none[0] == 'r');
    assert(none.take(7) =~= head);
    let rest = none.skip(7);
    assert(rest[0] == 'n');
    assert(rest.first() == 'n');
    assert(!crate::text::all_digits(rest)) by {
        assert(!crate::text::is_digit(rest[0]));
    }
}

/// Each entry of the menu does what it says, and an entry that is not in the
/// menu does nothing.
pub proof fn law_menu_entries_do_what_they_say(id: Seq<char>)
    ensures
        action_of("capture"@) == TrayAction::Capture,
        action_of("stop_recording"@) == TrayAction::StopRecording,
        action_of("settings"@) == TrayAction::ShowSettings,
        action_of("about"@) == TrayAction::ShowSettings,
        action_of("open_folder"@) == TrayAction::OpenFolder,
        action_of("pause"@) == TrayAction::TogglePause,
        action_of("exit"@) == TrayAction::Exit,
        action_of(id) is Exit ==> id == "exit"@,
        action_of(id) is Capture ==> id == "capture"@,
        action_of(id) is StopRecording ==> id == "stop_recording"@,
        action_of(id) is TogglePause ==> id == "pause"@,
        action_of(id) is OpenFolder ==> id == "open_folder"@,
{
    reveal_strlit("capture");
    reveal_strlit("stop_recording");
    reveal_strlit("settings");
    reveal_strlit("about");
    reveal_strlit("open_folder");
    reveal_strlit("pause");
    reveal_strlit("exit");
    assert("capture"@[0] == 'c');
    assert("stop_recording"@[1] == 't' && "stop_recording"@[0] == 's');
    assert("settings"@[1] == 'e' && "settings"@[0] == 's');
    assert("about"@[0] == 'a');
    assert("open_folder"@[0] == 'o');
    assert("pause"@[0] == 'p');
    assert("exit"@[0] == 'e');
}

/// The label of a recent capture is the end of its path, holds no backslash, and
/// is preceded by one unless it is the whole path.
pub proof fn law_labels_come_after_the_last_backslash(path: Seq<char>)
    ensures
        ({
            let name = last_piece(path);
            let k = path.len() - name.len();
            &&& 0 <= k
            &&& name == path.skip(k)
            &&& k > 0 ==> path[k - 1] == '\\'
            &&& forall|i: int| 0 <= i < name.len() ==> name[i] != '\\'
        }),
    decreases path.len(),
{
    let name = last_piece(path);
    if path.len() == 0 || path.last() == '\\' {
        assert(name =~= path.skip(path.len() as int));
    } else {
        law_labels_come_after_the_last_backslash(path.drop_last());
        let k = path.len() - name.len();
        assert(path.drop_last().skip(k).push(path.last()) =~= path.skip(k));
        if k > 0 {
            assert(path.drop_last()[k - 1] == path[k - 1]);
        }
    }
}

/// The submenu lists every capture of the history in its order, each under the
/// identifier by which it is found again; only an empty history is told of.
pub proof fn law_the_submenu_lists_the_history(
    items: Seq<MenuEntry>,
    entries: Seq<HistoryEntry>,
    i: int,
)
    requires
        lists(items, entries),
        0 <= i < entries.len(),
    ensures
        items.len() == entries.len(),
        items[i].enabled,
        items[i].id@ == "recent:"@ + decimal(i as nat),
        items[i].label@ == last_piece(entries[i].path@),
{
    assert(items[i].reads(recent_id(i), last_piece(entries[i].path@), true, None));
}

/// An empty history is told of by one entry that cannot be chosen.
pub proof fn law_an_empty_history_is_told(items: Seq<MenuEntry>, entries: Seq<HistoryEntry>)
    requires
        lists(items, entries),
        entries.len() == 0,
    ensures
        items.len() == 1,
        !items[0].enabled,
        items[0].label@ == "No captures yet"@,
        action_of(items[0].id@) is Nothing,
{
    law_recent_entries_are_read_back(0);
}

} // verus!

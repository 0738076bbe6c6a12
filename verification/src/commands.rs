//! What the app's windows ask for: settings, previews, Explorer windows,
//! drags and recordings.

use vstd::hash_map::StringHashMap;
use vstd::prelude::*;

use crate::clipboard::{set_file, set_image_and_file, ClipboardItem};
use crate::dragdrop::DragOutcome;
use crate::editor::{bgra_in, pending_bgra, EditorState};
use crate::encoding::{
    base64_bytes, base64_fits, base64_text, data_url, decoded_png, encode_base64, is_png,
    known_kind, make_data_url, opaque, png_bytes, read_back, scalable, scaled_pixels,
    swap_red_blue, swapped,
};
use crate::filename::{expand_dir, expanded, preview_png, preview_size, text_of};
use crate::history::{self, without, HistoryEntry, HistoryState};
use crate::settings::Settings;
use crate::text::{chars_of, finishes_with, is_suffix, lowercase, lowered, same, string_of};
use crate::video_recording::{PendingRecording, VideoRecorder};

verus! {

/// The longest side of a preview in the gallery.
pub const GALLERY_DIM: u32 = 256;

/// A preview cache with more entries than this starts anew.
pub const CACHE_LIMIT: usize = 64;

/// Whether a path looks like a video file.
pub open spec fn is_video(path: Seq<char>) -> bool {
    let lower = lowercase(path);
    ||| finishes_with(lower, ".mp4"@)
    ||| finishes_with(lower, ".mkv"@)
    ||| finishes_with(lower, ".webm"@)
    ||| finishes_with(lower, ".avi"@)
    ||| finishes_with(lower, ".mov"@)
}

pub fn is_video_path(path: &str) -> (r: bool)
    ensures
        r == is_video(path@),
{
    let lower = lowered(&chars_of(path));
    is_suffix(&lower, &chars_of(".mp4")) || is_suffix(&lower, &chars_of(".mkv")) || is_suffix(
        &lower,
        &chars_of(".webm"),
    ) || is_suffix(&lower, &chars_of(".avi")) || is_suffix(&lower, &chars_of(".mov"))
}

/// Previews by the path of their capture. A capture's file never changes, so
/// neither does its preview.
pub struct PreviewCache {
    pub urls: StringHashMap<String>,
}

impl PreviewCache {
    /// The cached previews, as texts.
    pub open spec fn texts(self) -> Map<Seq<char>, Seq<char>> {
        self.urls@.map_values(|s: String| s@)
    }
}

/// An empty cache.
pub fn preview_cache() -> (c: PreviewCache)
    ensures
        c.texts() == Map::<Seq<char>, Seq<char>>::empty(),
{
    let c = PreviewCache { urls: StringHashMap::new() };
    assert(c.texts() =~= Map::<Seq<char>, Seq<char>>::empty());
    c
}

/// The cached preview of a capture.
pub fn get_capture_preview(cache: &PreviewCache, path: &str) -> (r: Option<String>)
    ensures
        match r {
            Some(url) => cache.texts().contains_key(path@) && url@ == cache.texts()[path@],
            None => !cache.texts().contains_key(path@),
        },
{
    match cache.urls.get(path) {
        Some(url) => Some(url.clone()),
        None => None,
    }
}

/// The cache with a preview put in. An empty one is not kept, so that it is
/// tried again; a cache that has grown too large is emptied first.
pub open spec fn remembered(
    cache: Map<Seq<char>, Seq<char>>,
    path: Seq<char>,
    url: Seq<char>,
) -> Map<Seq<char>, Seq<char>> {
    if url.len() == 0 {
        cache
    } else if cache.len() > CACHE_LIMIT {
        Map::empty().insert(path, url)
    } else {
        cache.insert(path, url)
    }
}

pub fn remember_preview(cache: &mut PreviewCache, path: &str, url: &str)
    ensures
        final(cache).texts() == remembered(old(cache).texts(), path@, url@),
{
    proof {
        reveal_strlit("");
        if url@.len() == 0 {
            assert(url@ =~= ""@);
        }
        assert(cache.texts().dom() =~= cache.urls@.dom());
    }
    if same(url, "") {
        return ;
    }
    if cache.urls.len() > CACHE_LIMIT {
        cache.urls.clear();
    }
    cache.urls.insert(path.to_owned(), url.to_owned());
    assert(cache.texts() =~= remembered(old(cache).texts(), path@, url@));
}

/// The preview of a picture in the gallery. `scaled` is its size scaled down to
/// `GALLERY_DIM`.
pub fn gallery_png(rgba: &Vec<u8>, width: u32, height: u32, scaled: (u32, u32)) -> (r: Option<
    Vec<u8>,
>)
    requires
        scalable(
            width,
            height,
            preview_size(width, height, GALLERY_DIM, scaled).0,
            preview_size(width, height, GALLERY_DIM, scaled).1,
        ),
    ensures
        ({
            let (tw, th) = preview_size(width, height, GALLERY_DIM, scaled);
            &&& r is Some == (rgba@.len() / 4 >= width * height && tw > 0 && th > 0)
            &&& r matches Some(png) ==> {
                let small = scaled_pixels(opaque(swapped(rgba@)), width, height, tw, th);
                &&& png@ == png_bytes(small, tw, th)
                &&& is_png(png@)
                &&& decoded_png(png@) == read_back(small, tw, th)
                &&& small.len() == tw * th * 4
            }
        }),
{
    preview_png(&swap_red_blue(rgba), width, height, GALLERY_DIM, scaled)
}

/// A path as the shell's thumbnailer takes it: with backslashes only.
pub open spec fn with_backslashes(path: Seq<char>) -> Seq<char> {
    path.map_values(
        |c: char|
            if c == '/' {
                '\\'
            } else {
                c
            },
    )
}

pub fn shell_path(path: &str) -> (r: String)
    ensures
        r@ == with_backslashes(path@),
{
    let v = chars_of(path);
    let mut r = String::new();
    for i in 0..v.len()
        invariant
            v@ == path@,
            r@ == with_backslashes(path@).take(i as int),
    {
        r.push(
            if v[i] == '/' {
                '\\'
            } else {
                v[i]
            },
        );
        assert(r@ =~= with_backslashes(path@).take(i + 1));
    }
    assert(r@ =~= with_backslashes(path@));
    r
}

/// The preview of a video from the frame that the shell gave: `got` is the
/// number of rows that could be read.
pub fn video_frame_png(width: i32, height: i32, got: i32, buf: &Vec<u8>, scaled: (u32, u32)) -> (r:
    Option<Vec<u8>>)
    requires
        width > 0 && height > 0 ==> scalable(
            width as u32,
            height as u32,
            preview_size(width as u32, height as u32, GALLERY_DIM, scaled).0,
            preview_size(width as u32, height as u32, GALLERY_DIM, scaled).1,
        ),
    ensures
        r is Some == (width > 0 && height > 0 && got != 0 && buf@.len() / 4 >= width * height),
        r matches Some(png) ==> {
            let (tw, th) = preview_size(width as u32, height as u32, GALLERY_DIM, scaled);
            let small = scaled_pixels(opaque(buf@), width as u32, height as u32, tw, th);
            &&& png@ == png_bytes(small, tw, th)
            &&& is_png(png@)
            &&& decoded_png(png@) == read_back(small, tw, th)
            &&& small.len() == tw * th * 4
        },
{
    if width <= 0 || height <= 0 || got == 0 {
        return None;
    }
    preview_png(buf, width as u32, height as u32, GALLERY_DIM, scaled)
}

/// The data URL of a video's preview, where there is one.
pub fn video_thumbnail_data_url(png: Option<&Vec<u8>>) -> (r: Option<String>)
    requires
        png matches Some(p) ==> base64_fits(p@.len()),
    ensures
        match (png, r) {
            (Some(p), Some(url)) => url@ == data_url(base64_text(p@)),
            (None, None) => true,
            _ => false,
        },
{
    match png {
        Some(p) => Some(make_data_url(encode_base64(p).as_str())),
        None => None,
    }
}

/// The preview of a capture in the gallery: of a video its frame, or nothing;
/// of a picture its preview, or else the whole file.
pub fn build_capture_preview(
    path: &str,
    video_url: Option<String>,
    png: Option<&Vec<u8>>,
    raw: Result<Vec<u8>, String>,
) -> (r: Result<String, String>)
    requires
        png matches Some(p) ==> base64_fits(p@.len()),
        raw matches Ok(b) ==> base64_fits(b@.len()),
    ensures
        if is_video(path@) {
            r matches Ok(s) && s@ == (match video_url {
                Some(u) => u@,
                None => Seq::empty(),
            })
        } else {
            match (png, raw) {
                (Some(p), _) => r matches Ok(s) && s@ == data_url(base64_text(p@)),
                (None, Ok(b)) => r matches Ok(s) && s@ == data_url(base64_text(b@)),
                (None, Err(e)) => r == Err::<String, String>(e),
            }
        },
{
    if is_video_path(path) {
        return Ok(
            match video_url {
                Some(u) => u,
                None => {
                    let s = String::new();
                    assert(s@ =~= Seq::<char>::empty());
                    s
                },
            },
        );
    }
    match png {
        Some(p) => Ok(make_data_url(encode_base64(p).as_str())),
        None => match raw {
            Ok(b) => Ok(make_data_url(encode_base64(&b).as_str())),
            Err(e) => Err(e),
        },
    }
}

/// The settings as the settings window shows them: with the directory
/// expanded.
pub fn get_settings(settings: &Settings, profile: Option<&str>) -> (r: Settings)
    ensures
        r.screenshot_dir@ == expanded(settings.screenshot_dir@, text_of(profile)),
        (Settings { screenshot_dir: settings.screenshot_dir, ..r }).same(*settings),
{
    let mut s = settings.clone();
    s.screenshot_dir = expand_dir(settings.screenshot_dir.as_str(), profile);
    s
}

#[derive(Clone, Copy, Debug, PartialEq, Eq, Structural)]
pub enum HotkeyKind {
    Capture,
    Ocr,
    LastArea,
    Video,
}

/// The steps by which new settings are taken.
#[derive(Clone, Copy, Debug, PartialEq, Eq, Structural)]
pub enum UpdateStep {
    /// Check that screenshots can be written to the directory.
    CheckDir,
    /// Register another hotkey.
    Hotkey(HotkeyKind),
    /// Register or unregister the app to start with Windows.
    Autostart(bool),
    /// Store the settings.
    Save,
    Done,
}

/// Whether a step is among those that a change of settings takes.
pub open spec fn wanted(old: Settings, new: Settings, step: UpdateStep) -> bool {
    match step {
        UpdateStep::Hotkey(HotkeyKind::Capture) => new.hotkey@ != old.hotkey@,
        UpdateStep::Hotkey(HotkeyKind::Ocr) => new.ocr_hotkey@ != old.ocr_hotkey@,
        UpdateStep::Hotkey(HotkeyKind::LastArea) => new.last_area_hotkey@
            != old.last_area_hotkey@,
        UpdateStep::Hotkey(HotkeyKind::Video) => new.video_hotkey@ != old.video_hotkey@,
        UpdateStep::Autostart(on) => new.start_with_windows != old.start_with_windows && on
            == new.start_with_windows,
        _ => true,
    }
}

/// The place of a step in the order of all.
pub open spec fn rank(step: UpdateStep) -> int {
    match step {
        UpdateStep::CheckDir => 0,
        UpdateStep::Hotkey(HotkeyKind::Capture) => 1,
        UpdateStep::Hotkey(HotkeyKind::Ocr) => 2,
        UpdateStep::Hotkey(HotkeyKind::LastArea) => 3,
        UpdateStep::Hotkey(HotkeyKind::Video) => 4,
        UpdateStep::Autostart(_) => 5,
        UpdateStep::Save => 6,
        UpdateStep::Done => 7,
    }
}

/// Whether `next` follows `step`: it is wanted and comes later, and no wanted
/// step lies between them.
pub open spec fn follows(old: Settings, new: Settings, step: UpdateStep, next: UpdateStep) -> bool {
    &&& rank(next) > rank(step) || step is Done && next is Done
    &&& wanted(old, new, next)
    &&& forall|s: UpdateStep|
        #![trigger wanted(old, new, s)]
        rank(step) < rank(s) < rank(next) ==> !wanted(old, new, s)
}

fn hotkey_changed(old: &Settings, new: &Settings, kind: HotkeyKind) -> (r: bool)
    ensures
        r == wanted(*old, *new, UpdateStep::Hotkey(kind)),
{
    match kind {
        HotkeyKind::Capture => !same(new.hotkey.as_str(), old.hotkey.as_str()),
        HotkeyKind::Ocr => !same(new.ocr_hotkey.as_str(), old.ocr_hotkey.as_str()),
        HotkeyKind::LastArea => !same(
            new.last_area_hotkey.as_str(),
            old.last_area_hotkey.as_str(),
        ),
        HotkeyKind::Video => !same(new.video_hotkey.as_str(), old.video_hotkey.as_str()),
    }
}

fn position(step: UpdateStep) -> (r: u8)
    ensures
        r == rank(step),
{
    match step {
        UpdateStep::CheckDir => 0,
        UpdateStep::Hotkey(HotkeyKind::Capture) => 1,
        UpdateStep::Hotkey(HotkeyKind::Ocr) => 2,
        UpdateStep::Hotkey(HotkeyKind::LastArea) => 3,
        UpdateStep::Hotkey(HotkeyKind::Video) => 4,
        UpdateStep::Autostart(_) => 5,
        UpdateStep::Save => 6,
        UpdateStep::Done => 7,
    }
}

/// Takes the outcome of a step of a change of settings and names the next.
/// The first failure ends the change; only that the app could not be
/// registered to start with Windows is no failure.
pub fn update_settings(
    old: &Settings,
    new: &Settings,
    step: UpdateStep,
    outcome: Result<(), String>,
) -> (r: Result<UpdateStep, String>)
    ensures
        match outcome {
            Err(e) if !(step is Autostart) => r == Err::<UpdateStep, String>(e),
            _ => r matches Ok(next) && follows(*old, *new, step, next),
        },
{
    match outcome {
        Err(e) => {
            let tolerated = match step {
                UpdateStep::Autostart(_) => true,
                _ => false,
            };
            if !tolerated {
                return Err(e);
            }
        },
        Ok(_) => {},
    }
    let at: u8 = position(step);
    if at < 1 && hotkey_changed(old, new, HotkeyKind::Capture) {
        return Ok(UpdateStep::Hotkey(HotkeyKind::Capture));
    }
    if at < 2 && hotkey_changed(old, new, HotkeyKind::Ocr) {
        return Ok(UpdateStep::Hotkey(HotkeyKind::Ocr));
    }
    if at < 3 && hotkey_changed(old, new, HotkeyKind::LastArea) {
        return Ok(UpdateStep::Hotkey(HotkeyKind::LastArea));
    }
    if at < 4 && hotkey_changed(old, new, HotkeyKind::Video) {
        return Ok(UpdateStep::Hotkey(HotkeyKind::Video));
    }
    if at < 5 && new.start_with_windows != old.start_with_windows {
        return Ok(UpdateStep::Autostart(new.start_with_windows));
    }
    if at < 6 {
        Ok(UpdateStep::Save)
    } else {
        Ok(UpdateStep::Done)
    }
}

/// Settings are stored after everything else has succeeded: nothing but the end
/// follows the storing, and storing is the last step that can be wanted.
pub proof fn law_settings_are_stored_last(old: Settings, new: Settings, step: UpdateStep)
    requires
        follows(old, new, step, UpdateStep::Done),
    ensures
        step is Save || step is Done,
{
    if rank(step) < 6 {
        assert(wanted(old, new, UpdateStep::Save));
    }
}

/// A change that touches no hotkey and not the start with Windows is stored
/// right after the directory was checked.
pub proof fn law_unchanged_settings_are_just_stored(old: Settings, new: Settings, next: UpdateStep)
    requires
        new.same(old),
        follows(old, new, UpdateStep::CheckDir, next),
    ensures
        next is Save,
{
    assert(wanted(old, new, UpdateStep::Save));
}

/// Takes a capture out of the history, whatever came of deleting its file.
/// Returns whether it was there.
pub fn delete_capture(history: &mut HistoryState, path: &str) -> (changed: bool)
    ensures
        final(history).0@ == without(old(history).0@, path@),
        changed == history::has_path(old(history).0@, path@),
{
    history::remove(history, path)
}

/// Takes the outcome of revealing a capture. Once it has been handed off, the
/// thumbnail is hidden as after a drop.
pub fn reveal_capture(settings: &Settings, revealed: Result<(), String>) -> (r: (
    Result<(), String>,
    bool,
))
    ensures
        r.0 == revealed,
        r.1 == (revealed is Ok && settings.hide_after_drop),
{
    let dismiss = revealed.is_ok() && settings.hide_after_drop;
    (revealed, dismiss)
}

/// The folder that a capture is revealed in, and the file to select there.
/// `parent` is the folder of the path, where it has one.
pub fn reveal_in_explorer(path: &str, parent: Option<&str>) -> (r: (String, String))
    ensures
        r.0@ == (match parent {
            Some(p) => p@,
            None => path@,
        }),
        r.1@ == path@,
{
    let folder = match parent {
        Some(p) => p.to_owned(),
        None => path.to_owned(),
    };
    (folder, path.to_owned())
}

/// How a folder is shown in Explorer.
#[derive(Clone, Copy, Debug, PartialEq, Eq, Structural)]
pub enum ExplorerAction {
    /// Through the shell, with a file selected.
    SelectFile,
    /// By bringing a window that shows it to the front.
    Focus(i64),
    /// In a new window.
    OpenPlain,
}

/// Shows a folder: with a file to select the shell finds or opens a window;
/// without one, a window that is open already is reused.
pub fn open_in_explorer_com(selects_file: bool, found: Option<i64>) -> (r: ExplorerAction)
    ensures
        r == (if selects_file {
            ExplorerAction::SelectFile
        } else {
            match found {
                Some(hwnd) => ExplorerAction::Focus(hwnd),
                None => ExplorerAction::OpenPlain,
            }
        }),
{
    if selects_file {
        return ExplorerAction::SelectFile;
    }
    match found {
        Some(hwnd) => ExplorerAction::Focus(hwnd),
        None => ExplorerAction::OpenPlain,
    }
}

/// Whether a folder is opened plainly after all, because the shell did not
/// know it or its file (which may be gone), or could not select it.
pub fn selection_failed(folder_known: bool, file_known: bool, selected: bool) -> (r: bool)
    ensures
        r == !(folder_known && file_known && selected),
{
    !(folder_known && file_known && selected)
}

/// An open window of the shell: what it shows, and its handle.
pub struct ShellWindow {
    pub location: Option<String>,
    pub hwnd: Option<i64>,
}

/// A text without the slashes at its end.
pub open spec fn without_slashes(s: Seq<char>) -> Seq<char>
    decreases s.len(),
{
    if s.len() > 0 && s.last() == '/' {
        without_slashes(s.drop_last())
    } else {
        s
    }
}

fn trim_slashes(v: Vec<char>) -> (r: Vec<char>)
    ensures
        r@ == without_slashes(v@),
{
    let mut v = v;
    let ghost all = v@;
    while v.len() > 0 && v[v.len() - 1] == '/'
        invariant
            without_slashes(all) == without_slashes(v@),
        decreases v@.len(),
    {
        let ghost before = v@;
        v.pop();
        assert(v@ =~= before.drop_last());
    }
    v
}

/// A path with slashes only.
pub open spec fn with_slashes(path: Seq<char>) -> Seq<char> {
    path.map_values(
        |c: char|
            if c == '\\' {
                '/'
            } else {
                c
            },
    )
}

/// The address under which Explorer shows a folder.
pub open spec fn folder_url(path: Seq<char>) -> Seq<char> {
    "file:///"@ + with_slashes(path) + "/"@
}

/// Whether a window shows a folder: by its real address, without regard to
/// case and slashes at the end, and never by its title.
pub open spec fn shows_folder(w: ShellWindow, path: Seq<char>) -> bool {
    w.location matches Some(l) && lowercase(without_slashes(l@)) == lowercase(
        without_slashes(folder_url(path)),
    )
}

/// Whether a window can be reused for a folder.
pub open spec fn usable(w: ShellWindow, path: Seq<char>) -> bool {
    shows_folder(w, path) && (w.hwnd matches Some(h) && h != 0)
}

fn folder_key(path: &str) -> (r: Vec<char>)
    ensures
        r@ == lowercase(without_slashes(folder_url(path@))),
{
    let v = chars_of(path);
    let mut url = chars_of("file:///");
    let ghost head = url@;
    for i in 0..v.len()
        invariant
            v@ == path@,
            url@ == head + with_slashes(path@).take(i as int),
    {
        url.push(
            if v[i] == '\\' {
                '/'
            } else {
                v[i]
            },
        );
        assert(url@ =~= head + with_slashes(path@).take(i + 1));
    }
    url.push('/');
    proof {
        reveal_strlit("/");
        assert("/"@ =~= seq!['/']);
        assert(url@ =~= folder_url(path@));
    }
    lowered(&trim_slashes(url))
}

/// The first of the open windows that can be reused for a folder.
pub fn find_open_explorer_window(path: &str, windows: &Vec<ShellWindow>) -> (r: Option<i64>)
    ensures
        match r {
            Some(h) => exists|i: int|
                #![trigger windows@[i]]
                0 <= i < windows@.len() && usable(windows@[i], path@) && windows@[i].hwnd
                    == Some(h) && forall|j: int|
                    0 <= j < i ==> !usable(#[trigger] windows@[j], path@),
            None => forall|j: int|
                0 <= j < windows@.len() ==> !usable(#[trigger] windows@[j], path@),
        },
{
    let key = folder_key(path);
    let wanted = string_of(&key);
    for i in 0..windows.len()
        invariant
            wanted@ == lowercase(without_slashes(folder_url(path@))),
            forall|j: int| 0 <= j < i ==> !usable(#[trigger] windows@[j], path@),
    {
        let w = &windows[i];
        if let Some(l) = &w.location {
            let shown = string_of(&lowered(&trim_slashes(chars_of(l.as_str()))));
            if same(shown.as_str(), wanted.as_str()) {
                if let Some(h) = w.hwnd {
                    if h != 0 {
                        assert(usable(windows@[i as int], path@));
                        return Some(h);
                    }
                }
            }
        }
    }
    None
}

/// What copying a capture puts on the clipboard: its picture and its file, or
/// the file alone where the picture cannot be opened.
pub fn copy_capture(path: &str, opened: Option<(&Vec<u8>, u32, u32)>) -> (r: Vec<ClipboardItem>)
    requires
        opened matches Some(o) ==> o.1 * o.2 * 4 <= u32::MAX && o.2 != 0x8000_0000,
    ensures
        ({
            let file = crate::clipboard::dropfiles_header() + crate::clipboard::bytes_of(
                crate::clipboard::name_list(seq![path@]),
            );
            match opened {
                Some(o) => {
                    &&& r@.len() == 2
                    &&& r@[0].format == crate::clipboard::CF_DIBV5
                    &&& r@[0].bytes@ == crate::clipboard::dibv5_header(o.1 as int, o.2 as int)
                        + crate::clipboard::opaque_bgra(swapped(o.0@))
                    &&& r@[1].format == crate::clipboard::CF_HDROP
                    &&& r@[1].bytes@ == file
                },
                None => {
                    &&& r@.len() == 1
                    &&& r@[0].format == crate::clipboard::CF_HDROP
                    &&& r@[0].bytes@ == file
                },
            }
        }),
{
    match opened {
        Some((rgba, w, h)) => set_image_and_file(&swap_red_blue(rgba), w, h, path),
        None => set_file(path),
    }
}

/// The history without any of the given captures.
pub open spec fn without_all(s: Seq<HistoryEntry>, paths: Seq<String>) -> Seq<HistoryEntry>
    decreases paths.len(),
{
    if paths.len() == 0 {
        s
    } else {
        without(without_all(s, paths.drop_last()), paths.last()@)
    }
}

/// What follows a drag: where the files were moved and are not to be kept,
/// each leaves the history. Returns whether the files are to be deleted.
pub fn start_drag(
    outcome: &DragOutcome,
    settings: &Settings,
    paths: &Vec<String>,
    history: &mut HistoryState,
) -> (delete: bool)
    ensures
        delete == (outcome.moved && !settings.keep_after_drag),
        final(history).0@ == (if delete {
            without_all(old(history).0@, paths@)
        } else {
            old(history).0@
        }),
{
    if !outcome.moved || settings.keep_after_drag {
        return false;
    }
    assert(paths@.take(0) =~= Seq::<String>::empty());
    for i in 0..paths.len()
        invariant
            history.0@ == without_all(old(history).0@, paths@.take(i as int)),
    {
        history::remove(history, paths[i].as_str());
        assert(paths@.take(i + 1).drop_last() =~= paths@.take(i as int));
    }
    assert(paths@.take(paths@.len() as int) =~= paths@);
    true
}

/// None of the files that were moved away is left in the history.
pub proof fn law_moved_files_leave_the_history(s: Seq<HistoryEntry>, paths: Seq<String>, k: int)
    requires
        0 <= k < paths.len(),
    ensures
        !history::has_path(without_all(s, paths), paths[k]@),
    decreases paths.len(),
{
    let d = paths.drop_last();
    let rest = without_all(s, d);
    let last = paths.last()@;
    let other = last.push('x');
    if k == paths.len() - 1 {
        assert(other.len() == last.len() + 1);
        history::law_removed_captures_are_gone(rest, last, other);
    } else {
        law_moved_files_leave_the_history(s, d, k);
        if paths[k]@ == last {
            assert(other.len() == last.len() + 1);
            history::law_removed_captures_are_gone(rest, last, other);
        } else {
            history::law_removed_captures_are_gone(rest, last, paths[k]@);
        }
    }
}

/// The armed recording that the toolbar starts.
pub fn video_record_begin<C>(rec: &mut VideoRecorder<C>) -> (r: Result<PendingRecording, String>)
    ensures
        match old(rec).pending {
            Some(p) => r == Ok::<PendingRecording, String>(p),
            None => r matches Err(e) && e@ == "No region selected — press Ctrl+Alt+V first"@,
        },
        *final(rec) == (VideoRecorder { pending: None, ..*old(rec) }),
{
    match rec.take_pending() {
        Some(p) => Ok(p),
        None => Err("No region selected — press Ctrl+Alt+V first".to_owned()),
    }
}

/// Cancels an armed recording. Returns how the main window comes back: whether
/// it was visible and minimized; nothing while a recording is running, which
/// must not film it.
pub fn video_record_arm_cancel<C>(rec: &mut VideoRecorder<C>) -> (r: Option<(bool, bool)>)
    ensures
        *final(rec) == (VideoRecorder { pending: None, ..*old(rec) }),
        r == (if old(rec).active {
            None
        } else {
            Some(
                match old(rec).pending {
                    Some(p) => (p.was_visible, p.was_minimized),
                    None => (true, false),
                },
            )
        }),
{
    let state = match rec.take_pending() {
        Some(p) => (p.was_visible, p.was_minimized),
        None => (true, false),
    };
    if rec.active {
        None
    } else {
        Some(state)
    }
}

/// The pending capture of the editor, for the recognition of its text.
pub fn ocr_pending_editor_image(st: &EditorState) -> (r: Result<(Vec<u8>, u32, u32), String>)
    ensures
        match r {
            Ok(b) => b.0@.len() == b.1 * b.2 * 4,
            Err(e) => e@ == "No pending capture to recognize"@,
        },
        match st.pending {
            None => r is Err,
            Some(p) => match base64_bytes(p.full_b64@) {
                None => r is Err,
                Some(png) => {
                    &&& is_png(png) ==> match (bgra_in(png), r) {
                        (Some(d), Ok(b)) => b.0@ == d.0 && b.1 == d.1 && b.2 == d.2,
                        (None, Err(_)) => true,
                        _ => false,
                    }
                    &&& !known_kind(png) ==> r is Err
                },
            },
        },
{
    match pending_bgra(st) {
        Some(b) => Ok(b),
        None => Err("No pending capture to recognize".to_owned()),
    }
}

/// A line of the renderer, as it is logged.
pub fn debug_log(msg: &str) -> (line: String)
    ensures
        line@ == "renderer: "@ + msg@,
{
    let mut line = "renderer: ".to_owned();
    line.append(msg);
    line
}

/// A preview that was put into the cache is found there.
pub proof fn law_previews_are_found_again(
    cache: Map<Seq<char>, Seq<char>>,
    path: Seq<char>,
    url: Seq<char>,
)
    requires
        url.len() > 0,
    ensures
        remembered(cache, path, url).contains_key(path),
        remembered(cache, path, url)[path] == url,
{
}

/// The cache stays within its limit.
pub proof fn law_cache_is_bounded(
    cache: Map<Seq<char>, Seq<char>>,
    path: Seq<char>,
    url: Seq<char>,
)
    requires
        cache.dom().finite(),
        cache.len() <= CACHE_LIMIT + 1,
    ensures
        remembered(cache, path, url).len() <= CACHE_LIMIT + 1,
        remembered(cache, path, url).dom().finite(),
{
    broadcast use vstd::map_lib::group_map_properties;

}

proof fn lemma_ends_with(path: Seq<char>, ext: Seq<char>)
    ensures
        finishes_with(lowercase(path + ext), lowercase(ext)),
{
    let s = lowercase(path + ext);
    assert(s.skip(s.len() - ext.len()) =~= lowercase(ext));
}

/// Files with the endings of videos are videos, whatever their name and however
/// the ending is written; pictures are not.
pub proof fn law_videos_are_told_by_their_ending(path: Seq<char>, ext: Seq<char>)
    ensures
        lowercase(ext) == ".mp4"@ || lowercase(ext) == ".mkv"@ || lowercase(ext) == ".webm"@
            || lowercase(ext) == ".avi"@ || lowercase(ext) == ".mov"@ ==> is_video(path + ext),
        lowercase(ext) == ".png"@ ==> !is_video(path + ext),
        is_video(path) ==> path.len() >= 4,
{
    lemma_ends_with(path, ext);
    reveal_strlit(".mp4");
    reveal_strlit(".mkv");
    reveal_strlit(".webm");
    reveal_strlit(".avi");
    reveal_strlit(".mov");
    reveal_strlit(".png");
    if lowercase(ext) == ".png"@ {
        let s = lowercase(path + ext);
        let n = s.len() as int;
        assert(s.skip(n - 4)[3] == 'g');
        assert(s[n - 1] == 'g');
        if finishes_with(s, ".mp4"@) {
            assert(s.skip(n - 4)[3] == '4');
        }
        if finishes_with(s, ".mkv"@) {
            assert(s.skip(n - 4)[3] == 'v');
        }
        if finishes_with(s, ".webm"@) {
            assert(s.skip(n - 5)[4] == 'm');
        }
        if finishes_with(s, ".avi"@) {
            assert(s.skip(n - 4)[3] == 'i');
        }
        if finishes_with(s, ".mov"@) {
            assert(s.skip(n - 4)[3] == 'v');
        }
    }
}

/// Putting a preview into the cache leaves the others there, unless the cache
/// has grown too large; an empty preview changes nothing.
pub proof fn law_previews_of_others_stay(
    cache: Map<Seq<char>, Seq<char>>,
    path: Seq<char>,
    url: Seq<char>,
    other: Seq<char>,
)
    requires
        other != path,
    ensures
        cache.len() <= CACHE_LIMIT && cache.contains_key(other) ==> remembered(
            cache,
            path,
            url,
        ).contains_key(other) && remembered(cache, path, url)[other] == cache[other],
        remembered(cache, path, url).contains_key(other) ==> cache.contains_key(other)
            && remembered(cache, path, url)[other] == cache[other],
        url.len() == 0 ==> remembered(cache, path, url) == cache,
{
}

/// The shell gets a path with every slash turned round, and Explorer's address
/// one with every backslash turned round; nothing else changes.
pub proof fn law_separators_are_turned_round(path: Seq<char>, i: int)
    requires
        0 <= i < path.len(),
    ensures
        with_backslashes(path).len() == path.len(),
        with_slashes(path).len() == path.len(),
        with_backslashes(path)[i] != '/',
        with_slashes(path)[i] != '\\',
        path[i] == '/' ==> with_backslashes(path)[i] == '\\',
        path[i] != '/' ==> with_backslashes(path)[i] == path[i],
        path[i] == '\\' ==> with_slashes(path)[i] == '/',
        path[i] != '\\' ==> with_slashes(path)[i] == path[i],
{
}

/// The steps of a change of settings go from checking the directory over the
/// four hotkeys and the start with Windows to storing them.
pub proof fn law_steps_have_their_order(on: bool)
    ensures
        rank(UpdateStep::CheckDir) < rank(UpdateStep::Hotkey(HotkeyKind::Capture)),
        rank(UpdateStep::Hotkey(HotkeyKind::Capture)) < rank(UpdateStep::Hotkey(HotkeyKind::Ocr)),
        rank(UpdateStep::Hotkey(HotkeyKind::Ocr)) < rank(UpdateStep::Hotkey(HotkeyKind::LastArea)),
        rank(UpdateStep::Hotkey(HotkeyKind::LastArea)) < rank(
            UpdateStep::Hotkey(HotkeyKind::Video),
        ),
        rank(UpdateStep::Hotkey(HotkeyKind::Video)) < rank(UpdateStep::Autostart(on)),
        rank(UpdateStep::Autostart(on)) < rank(UpdateStep::Save),
        rank(UpdateStep::Save) < rank(UpdateStep::Done),
{
}

/// No change is passed over: the step that follows comes before, or is, the
/// registration of each hotkey that differs, as long as that has not been done
/// yet, and a hotkey that stays is not registered again.
pub proof fn law_no_change_is_passed_over(
    old: Settings,
    new: Settings,
    step: UpdateStep,
    next: UpdateStep,
)
    requires
        follows(old, new, step, next),
    ensures
        step is CheckDir && new.hotkey@ != old.hotkey@ ==> next == UpdateStep::Hotkey(
            HotkeyKind::Capture,
        ),
        (step is CheckDir || step == UpdateStep::Hotkey(HotkeyKind::Capture)) && new.ocr_hotkey@
            != old.ocr_hotkey@ ==> next is Hotkey,
        step == UpdateStep::Hotkey(HotkeyKind::Capture) && new.ocr_hotkey@ != old.ocr_hotkey@
            ==> next == UpdateStep::Hotkey(HotkeyKind::Ocr),
        step == UpdateStep::Hotkey(HotkeyKind::Ocr) && new.last_area_hotkey@
            != old.last_area_hotkey@ ==> next == UpdateStep::Hotkey(HotkeyKind::LastArea),
        step == UpdateStep::Hotkey(HotkeyKind::LastArea) && new.video_hotkey@ != old.video_hotkey@
            ==> next == UpdateStep::Hotkey(HotkeyKind::Video),
        step == UpdateStep::Hotkey(HotkeyKind::Video) && new.start_with_windows
            != old.start_with_windows ==> next == UpdateStep::Autostart(new.start_with_windows),
        next == UpdateStep::Hotkey(HotkeyKind::Capture) ==> new.hotkey@ != old.hotkey@,
        next == UpdateStep::Hotkey(HotkeyKind::Ocr) ==> new.ocr_hotkey@ != old.ocr_hotkey@,
        next == UpdateStep::Hotkey(HotkeyKind::LastArea) ==> new.last_area_hotkey@
            != old.last_area_hotkey@,
        next == UpdateStep::Hotkey(HotkeyKind::Video) ==> new.video_hotkey@ != old.video_hotkey@,
        next matches UpdateStep::Autostart(on) ==> on == new.start_with_windows && on
            != old.start_with_windows,
        next is Done ==> step is Save || step is Done,
        step is Save ==> next is Done,
        next is Save && step is CheckDir ==> new.hotkey@ == old.hotkey@ && new.ocr_hotkey@
            == old.ocr_hotkey@ && new.last_area_hotkey@ == old.last_area_hotkey@
            && new.video_hotkey@ == old.video_hotkey@ && new.start_with_windows
            == old.start_with_windows,
{
    assert(wanted(old, new, UpdateStep::Hotkey(HotkeyKind::Capture)) == (new.hotkey@
        != old.hotkey@));
    assert(wanted(old, new, UpdateStep::Hotkey(HotkeyKind::Ocr)) == (new.ocr_hotkey@
        != old.ocr_hotkey@));
    assert(wanted(old, new, UpdateStep::Hotkey(HotkeyKind::LastArea)) == (new.last_area_hotkey@
        != old.last_area_hotkey@));
    assert(wanted(old, new, UpdateStep::Hotkey(HotkeyKind::Video)) == (new.video_hotkey@
        != old.video_hotkey@));
    assert(wanted(old, new, UpdateStep::Autostart(new.start_with_windows)) == (
    new.start_with_windows != old.start_with_windows));
    assert(wanted(old, new, UpdateStep::Save));
}

/// Only slashes go from the end of an address, and all of them.
pub proof fn law_slashes_at_the_end_go(s: Seq<char>)
    ensures
        without_slashes(s).len() <= s.len(),
        without_slashes(s) == s.take(without_slashes(s).len() as int),
        without_slashes(s).len() > 0 ==> without_slashes(s).last() != '/',
        forall|i: int| without_slashes(s).len() <= i < s.len() ==> s[i] == '/',
    decreases s.len(),
{
    if s.len() > 0 && s.last() == '/' {
        let d = s.drop_last();
        law_slashes_at_the_end_go(d);
        assert(s.take(without_slashes(s).len() as int) =~= d.take(without_slashes(d).len() as int));
        assert forall|i: int| without_slashes(s).len() <= i < s.len() implies s[i] == '/' by {
            if i < d.len() {
                assert(d[i] == s[i]);
            }
        }
    } else {
        assert(s.take(s.len() as int) =~= s);
    }
}

/// The address of a folder starts as that of a file, holds the path and ends
/// with a slash.
pub proof fn law_folder_addresses(path: Seq<char>)
    ensures
        folder_url(path).len() == path.len() + 9,
        folder_url(path).take(8) == "file:///"@,
        folder_url(path).subrange(8, 8int + path.len()) == with_slashes(path),
        folder_url(path).last() == '/',
{
    reveal_strlit("file:///");
    reveal_strlit("/");
    let u = folder_url(path);
    assert(u.take(8) =~= "file:///"@);
    assert(u.subrange(8, 8int + path.len()) =~= with_slashes(path));
}

/// A window shows a folder if its address is the folder's, with or without a
/// slash at the end and in whatever case; a window without an address shows
/// none.
pub proof fn law_windows_show_their_folder(w: ShellWindow, path: Seq<char>)
    ensures
        w.location is None ==> !shows_folder(w, path),
        w.location matches Some(l) ==> {
            &&& l@ == folder_url(path) ==> shows_folder(w, path)
            &&& l@ == without_slashes(folder_url(path)) ==> shows_folder(w, path)
            &&& l@ == lowercase(without_slashes(folder_url(path))) ==> shows_folder(w, path)
            &&& shows_folder(w, path) ==> lowercase(without_slashes(l@)) == lowercase(
                without_slashes(folder_url(path)),
            )
        },
        usable(w, path) == (shows_folder(w, path) && w.hwnd is Some && w.hwnd->0 != 0),
{
    if let Some(l) = w.location {
        let u = without_slashes(folder_url(path));
        law_slashes_at_the_end_go(folder_url(path));
        assert(without_slashes(u) == u);
        let v = lowercase(u);
        assert(lowercase(v) =~= v) by {
            assert forall|i: int| 0 <= i < u.len() implies lowercase(v)[i] == v[i] by {
                crate::text::law_small_letters(u[i], u);
            }
        }
        if u.len() > 0 {
            let c = u[u.len() - 1];
            assert(u.last() == c && c != '/');
            lemma_lower_is_no_slash(c);
            assert(v.last() == crate::text::ascii_lower(c));
        }
        assert(without_slashes(v) == v);
    }
}

proof fn lemma_lower_is_no_slash(c: char)
    requires
        c != '/',
    ensures
        crate::text::ascii_lower(c) != '/',
{
}

/// Whether a path is among some.
pub open spec fn among(paths: Seq<String>, path: Seq<char>) -> bool {
    exists|k: int| 0 <= k < paths.len() && (#[trigger] paths[k])@ == path
}

/// Of the history exactly the captures that were moved away go; every other
/// stays.
pub proof fn law_other_files_stay_in_the_history(
    s: Seq<HistoryEntry>,
    paths: Seq<String>,
    e: HistoryEntry,
)
    ensures
        without_all(s, paths).contains(e) == (s.contains(e) && !among(paths, e.path@)),
        paths.len() == 0 ==> without_all(s, paths) == s,
        paths.len() == 1 ==> without_all(s, paths) == without(s, paths[0]@),
    decreases paths.len(),
{
    if paths.len() > 0 {
        let d = paths.drop_last();
        let last = paths.last()@;
        law_other_files_stay_in_the_history(s, d, e);
        history::law_removing_filters_by_path(without_all(s, d), last, e);
        if among(d, e.path@) {
            let k = choose|k: int| 0 <= k < d.len() && (#[trigger] d[k])@ == e.path@;
            assert(paths[k]@ == e.path@);
        }
        if among(paths, e.path@) {
            let k = choose|k: int| 0 <= k < paths.len() && (#[trigger] paths[k])@ == e.path@;
            if k < d.len() {
                assert(d[k]@ == e.path@);
            }
        }
        if last == e.path@ {
            assert(paths[paths.len() - 1]@ == e.path@);
        }
    }
}

} // verus!

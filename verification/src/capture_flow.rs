//! The capture flows: what happens between a hotkey and the thumbnail, and in
//! which order.

use vstd::prelude::*;

use crate::capture::ImageBuf;
use crate::clipboard::{set_image_and_file, ClipboardItem};
use crate::encoding::{
    base64_bytes, base64_fits, base64_text, decoded_png, encode_base64, is_png, opaque, png_bytes,
    read_back, scalable, scaled_pixels,
};
use crate::filename::{
    encode_png, expanded, is_time, is_video_stamp, preview_png, preview_size, text_of, timestamp,
    video_path, video_path_at,
};
use crate::history::{self, FileFacts, HistoryEntry, HistoryState};
use crate::monitors::Rect;
use crate::notifier::{payload, ToastPayload};
use crate::overlay::Selection;
use crate::scene::{half, half_of};
use crate::settings::{fell_back, resolved_dir, LastArea, Settings};
use crate::text::{chars_of, decimal, decimal_of, string_of, trim, trimmed};

verus! {

/// Milliseconds for the screen to settle after the app's windows are hidden.
pub const SETTLE_MS: u64 = 50;

/// The longest side of a thumbnail's preview.
pub const PREVIEW_DIM: u32 = 512;

/// How the main window is shown again.
#[derive(Clone, Copy, Debug, PartialEq, Eq, Structural)]
pub enum Restore {
    Nothing,
    /// Minimized, without being activated.
    MinimizedNoActivate,
    /// As it was, without being activated.
    NoActivate,
    /// Shown by the window toolkit, where the native handle is not known.
    Plain,
}

/// What is known of the main window when a flow ends: how it was before the
/// flow hid it, and whether the window and its native handle are there.
#[derive(Clone, Copy, Debug, PartialEq, Eq, Structural)]
pub struct MainWindow {
    pub was_visible: bool,
    pub was_minimized: bool,
    pub has_window: bool,
    pub has_handle: bool,
}

/// How the main window comes back: in its previous state, and only if it was
/// visible.
pub open spec fn restored(main: MainWindow) -> Restore {
    if !main.was_visible || !main.has_window {
        Restore::Nothing
    } else if !main.has_handle {
        Restore::Plain
    } else if main.was_minimized {
        Restore::MinimizedNoActivate
    } else {
        Restore::NoActivate
    }
}

/// Shows the main window again in its previous state without activating it, so
/// that focus stays in the app the user was working in.
pub fn restore_main_window(
    was_visible: bool,
    was_minimized: bool,
    has_window: bool,
    has_handle: bool,
) -> (r: Restore)
    ensures
        r == restored(MainWindow { was_visible, was_minimized, has_window, has_handle }),
{
    if !was_visible || !has_window {
        Restore::Nothing
    } else if !has_handle {
        Restore::Plain
    } else if was_minimized {
        Restore::MinimizedNoActivate
    } else {
        Restore::NoActivate
    }
}

/// What was hidden for a capture: whether the main window was visible, and
/// whether it was minimized. What cannot be found out counts as no.
pub fn hide_for_capture(visible: Option<bool>, minimized: Option<bool>) -> (r: (bool, bool))
    ensures
        r.0 == (visible == Some(true)),
        r.1 == (minimized == Some(true)),
{
    (
        match visible {
            Some(v) => v,
            None => false,
        },
        match minimized {
            Some(m) => m,
            None => false,
        },
    )
}

/// How a flow opens the overlay.
#[derive(Clone, Copy, Debug)]
pub struct OverlayRequest {
    pub editor_enabled: bool,
    pub delay_secs: u32,
    pub initial: Option<Rect>,
}

/// A normal capture.
pub fn run(settings: &Settings) -> (r: OverlayRequest)
    ensures
        r.editor_enabled == settings.show_editor_after_capture,
        r.delay_secs == settings.capture_delay_secs,
        r.initial is None,
{
    OverlayRequest {
        editor_enabled: settings.show_editor_after_capture,
        delay_secs: settings.capture_delay_secs,
        initial: None,
    }
}

/// A capture of the last area: the overlay opens on the region that was
/// captured before, or as usual where there is none.
pub fn run_last_area(settings: &Settings) -> (r: OverlayRequest)
    requires
        settings.last_area matches Some(a) ==> a.on_screen(),
    ensures
        r.editor_enabled == settings.show_editor_after_capture,
        r.delay_secs == settings.capture_delay_secs,
        match settings.last_area {
            Some(a) => r.initial matches Some(q) && a.covers(q),
            None => r.initial is None,
        },
{
    OverlayRequest {
        editor_enabled: settings.show_editor_after_capture,
        delay_secs: settings.capture_delay_secs,
        initial: match settings.last_area {
            Some(a) => Some(a.rect()),
            None => None,
        },
    }
}

/// Whether a flow opens the overlay plainly: no editor, no delay, and nothing
/// remembered.
pub open spec fn is_plain(r: OverlayRequest) -> bool {
    !r.editor_enabled && r.delay_secs == 0 && r.initial is None
}

/// A text capture.
pub fn run_text() -> (r: OverlayRequest)
    ensures
        is_plain(r),
        !r.editor_enabled && r.delay_secs == 0 && r.initial is None,
{
    OverlayRequest { editor_enabled: false, delay_secs: 0, initial: None }
}

/// A video capture: while a recording is running there is nothing but a hint.
pub fn run_video(recording_active: bool) -> (r: Result<OverlayRequest, ToastPayload>)
    ensures
        match r {
            Ok(q) => !recording_active && is_plain(q),
            Err(t) => recording_active && t.says(
                "info"@,
                "A recording is already active — stop it first."@,
            ),
        },
{
    if recording_active {
        return Err(payload("info", "A recording is already active — stop it first."));
    }
    Ok(OverlayRequest { editor_enabled: false, delay_secs: 0, initial: None })
}

/// What follows the overlay of an image capture.
#[derive(Clone, Copy, Debug)]
pub enum AfterOverlay {
    Capture(Selection),
    /// Cancelled: the main window comes back, and the thumbnail too if it was
    /// there before.
    Cancelled { show_thumbnail: bool },
}

pub fn after_overlay(sel: Option<Selection>, thumbnail_was_visible: bool) -> (r: AfterOverlay)
    ensures
        r == (match sel {
            Some(s) => AfterOverlay::Capture(s),
            None => AfterOverlay::Cancelled { show_thumbnail: thumbnail_was_visible },
        }),
{
    match sel {
        Some(s) => AfterOverlay::Capture(s),
        None => AfterOverlay::Cancelled { show_thumbnail: thumbnail_was_visible },
    }
}

/// The flows that a hotkey can start.
#[derive(Clone, Copy, Debug, PartialEq, Eq, Structural)]
pub enum Flow {
    Image,
    LastArea,
    Text,
    Video,
}

/// What the user is told when a flow breaks down. The main window is shown
/// again; the thumbnail is not, since it may still hold an older capture.
pub fn breakdown(flow: Flow) -> (p: ToastPayload)
    ensures
        p.says(
            "error"@,
            match flow {
                Flow::Image | Flow::LastArea => "Capture failed unexpectedly"@,
                Flow::Text => "Text capture failed unexpectedly"@,
                Flow::Video => "Video capture failed unexpectedly"@,
            },
        ),
{
    payload(
        "error",
        match flow {
            Flow::Image | Flow::LastArea => "Capture failed unexpectedly",
            Flow::Text => "Text capture failed unexpectedly",
            Flow::Video => "Video capture failed unexpectedly",
        },
    )
}

/// A capture that is ready to be saved.
pub struct Prepared {
    /// The region to remember for the next "last area" capture.
    pub last_area: LastArea,
    /// The directory that the capture goes to.
    pub dir: String,
    /// What the user is told when that is not the configured directory.
    pub warning: Option<ToastPayload>,
    /// The file's content, unless it could not be made.
    pub png: Option<Vec<u8>>,
}

/// What the user is told when the configured directory cannot be used.
pub open spec fn fallback_text() -> Seq<char> {
    "Screenshot folder is not writable — using Pictures\\SnapDrop."@
}

/// The directory of a capture, and the warning that goes with it.
fn target_dir(settings: &Settings, profile: Option<&str>, writable: bool) -> (r: (
    String,
    Option<ToastPayload>,
))
    ensures
        r.0@ == (if writable {
            expanded(settings.screenshot_dir@, text_of(profile))
        } else {
            crate::filename::default_dir(text_of(profile))
        }),
        match r.1 {
            Some(t) => expanded(settings.screenshot_dir@, text_of(profile)) != r.0@ && t.says(
                "error"@,
                fallback_text(),
            ),
            None => expanded(settings.screenshot_dir@, text_of(profile)) == r.0@,
        },
{
    let dir = resolved_dir(settings, profile, writable);
    let warning = if fell_back(settings, profile, dir.as_str()) {
        Some(payload("error", "Screenshot folder is not writable — using Pictures\\SnapDrop."))
    } else {
        None
    };
    (dir, warning)
}

/// The end of a flow whose region could not be captured: the user is told, and
/// the main window comes back. Nothing is saved, remembered, copied or shown.
pub struct Failed {
    pub toast: ToastPayload,
    pub restore: Restore,
}

impl Failed {
    /// Whether this ends a flow that hid the given window.
    pub open spec fn ends(self, main: MainWindow) -> bool {
        &&& self.toast.says("error"@, "Couldn't capture screen region"@)
        &&& self.restore == restored(main)
    }
}

fn restore(main: &MainWindow) -> (r: Restore)
    ensures
        r == restored(*main),
{
    restore_main_window(main.was_visible, main.was_minimized, main.has_window, main.has_handle)
}

/// Ends a flow whose region could not be captured.
pub fn region_failed(main: &MainWindow) -> (f: Failed)
    ensures
        f.ends(*main),
        f.toast.kind@ == "error"@,
        f.toast.message@ == "Couldn't capture screen region"@,
{
    Failed { toast: payload("error", "Couldn't capture screen region"), restore: restore(main) }
}

/// The first half of an image capture: what was captured is encoded, and the
/// region is remembered. `writable` says whether the configured directory can
/// be written to. Without a picture the flow ends here.
pub fn prepare_capture(
    sel: &Selection,
    settings: &Settings,
    profile: Option<&str>,
    writable: bool,
    img: Option<&ImageBuf>,
    main: &MainWindow,
) -> (r: Result<Prepared, Failed>)
    requires
        img is Some ==> i32::MIN <= sel.rect.width() <= i32::MAX && i32::MIN <= sel.rect.height()
            <= i32::MAX,
        img matches Some(i) ==> i.wf(),
    ensures
        match (r, img) {
            (Err(f), None) => f.ends(*main),
            (Ok(p), Some(i)) => {
                &&& p.last_area.covers(sel.rect)
                &&& p.dir@ == (if writable {
                    expanded(settings.screenshot_dir@, text_of(profile))
                } else {
                    crate::filename::default_dir(text_of(profile))
                })
                &&& match p.warning {
                    Some(t) => expanded(settings.screenshot_dir@, text_of(profile)) != p.dir@
                        && t.says("error"@, fallback_text()),
                    None => expanded(settings.screenshot_dir@, text_of(profile)) == p.dir@,
                }
                &&& match p.png {
                    Some(png) => {
                        &&& i.width > 0 && i.height > 0
                        &&& png@ == png_bytes(opaque(i.bgra@), i.width, i.height)
                        &&& is_png(png@)
                        &&& decoded_png(png@) == read_back(opaque(i.bgra@), i.width, i.height)
                    },
                    None => i.width == 0 || i.height == 0,
                }
            },
            _ => false,
        },
{
    match img {
        None => Err(region_failed(main)),
        Some(i) => {
            let last_area = LastArea::of(&sel.rect);
            let (dir, warning) = target_dir(settings, profile, writable);
            let png = match encode_png(&i.bgra, i.width, i.height) {
                Ok(png) => Some(png),
                Err(_) => None,
            };
            Ok(Prepared { last_area, dir, warning, png })
        },
    }
}

/// The preview of a capture, for its thumbnail. `scaled` is the picture's size
/// scaled down to fit.
pub fn preview(img: &ImageBuf, scaled: (u32, u32)) -> (r: Option<Vec<u8>>)
    requires
        img.wf(),
        scalable(
            img.width,
            img.height,
            preview_size(img.width, img.height, PREVIEW_DIM, scaled).0,
            preview_size(img.width, img.height, PREVIEW_DIM, scaled).1,
        ),
    ensures
        ({
            let (tw, th) = preview_size(img.width, img.height, PREVIEW_DIM, scaled);
            &&& r is Some == (tw > 0 && th > 0)
            &&& r matches Some(png) ==> {
                let small = scaled_pixels(opaque(img.bgra@), img.width, img.height, tw, th);
                &&& png@ == png_bytes(small, tw, th)
                &&& is_png(png@)
                &&& decoded_png(png@) == read_back(small, tw, th)
                &&& small.len() == tw * th * 4
            }
        }),
{
    preview_png(&img.bgra, img.width, img.height, PREVIEW_DIM, scaled)
}

/// How a capture is shown to the user.
pub enum Presentation {
    /// In the annotation editor, with the full picture.
    Editor { path: Option<String>, full_b64: String, width: u32, height: u32, center: (i32, i32) },
    /// As a floating thumbnail, with a preview.
    Thumbnail {
        path: Option<String>,
        preview_b64: String,
        width: u32,
        height: u32,
        unsaved: bool,
        center: (i32, i32),
    },
}

/// What is left to do for a capture, in this order: tell of a failure, fill
/// the clipboard, store the history, show the capture, refresh the tray and
/// bring the main window back.
pub struct Finished {
    pub saved_path: Option<String>,
    pub toast: Option<ToastPayload>,
    pub clipboard: Option<Vec<ClipboardItem>>,
    pub history_changed: bool,
    pub presentation: Presentation,
    pub restore: Restore,
}

/// Whether a capture opens the editor: Ctrl turns the setting round.
pub open spec fn opens_editor(settings: Settings, sel: Selection) -> bool {
    settings.show_editor_after_capture != sel.ctrl_held
}

/// The middle of a rectangle.
pub open spec fn middle(r: Rect) -> (int, int) {
    (r.left + half(r.width()), r.top + half(r.height()))
}

fn middle_of(r: &Rect) -> (c: (i32, i32))
    ensures
        (c.0 as int, c.1 as int) == middle(*r),
{
    let w: i64 = r.right as i64 - r.left as i64;
    let h: i64 = r.bottom as i64 - r.top as i64;
    ((r.left as i64 + half_of(w)) as i32, (r.top as i64 + half_of(h)) as i32)
}

/// The Base64 text of a file, or nothing where there is none.
pub open spec fn b64_or_empty(png: Option<Seq<u8>>) -> Seq<char> {
    match png {
        Some(p) => base64_text(p),
        None => Seq::empty(),
    }
}

pub open spec fn bytes_of(png: Option<&Vec<u8>>) -> Option<Seq<u8>> {
    match png {
        Some(p) => Some(p@),
        None => None,
    }
}

fn encode_or_empty(png: Option<&Vec<u8>>) -> (s: String)
    requires
        png matches Some(p) ==> base64_fits(p@.len()),
    ensures
        s@ == b64_or_empty(bytes_of(png)),
        png matches Some(p) ==> base64_bytes(s@) == Some(p@),
{
    match png {
        Some(p) => encode_base64(p),
        None => {
            let s = String::new();
            assert(s@ =~= Seq::<char>::empty());
            s
        },
    }
}

/// Whether two optional texts are the same.
pub open spec fn same_path(a: Option<String>, b: Option<Seq<char>>) -> bool {
    match (a, b) {
        (Some(x), Some(y)) => x@ == y,
        (None, None) => true,
        _ => false,
    }
}

/// The path of a capture that was saved.
pub open spec fn saved(path: Seq<char>, png: Option<Seq<u8>>, written: bool) -> Option<
    Seq<char>,
> {
    if png is Some && written {
        Some(path)
    } else {
        None
    }
}

/// What a presentation shows.
pub open spec fn presents(
    p: Presentation,
    settings: Settings,
    sel: Selection,
    img: ImageBuf,
    path: Option<Seq<char>>,
    full: Option<Seq<u8>>,
    small: Option<Seq<u8>>,
) -> bool {
    match p {
        Presentation::Editor { path: q, full_b64, width, height, center } => {
            &&& opens_editor(settings, sel)
            &&& same_path(q, path)
            &&& full_b64@ == b64_or_empty(full)
            &&& full matches Some(p) ==> base64_bytes(full_b64@) == Some(p)
            &&& width == img.width && height == img.height
            &&& (center.0 as int, center.1 as int) == middle(sel.rect)
        },
        Presentation::Thumbnail { path: q, preview_b64, width, height, unsaved, center } => {
            &&& !opens_editor(settings, sel)
            &&& same_path(q, path)
            &&& preview_b64@ == b64_or_empty(small)
            &&& small matches Some(p) ==> base64_bytes(preview_b64@) == Some(p)
            &&& width == img.width && height == img.height
            &&& unsaved == (path is None)
            &&& (center.0 as int, center.1 as int) == middle(sel.rect)
        },
    }
}

/// The second half of an image capture. `path` is where the capture was to be
/// written, `written` whether it was, `file` what is known of the file then,
/// and `small` its preview. Clipboard and history never stand in the way of
/// the presentation.
pub fn finish_capture(
    sel: &Selection,
    settings: &Settings,
    img: &ImageBuf,
    png: Option<&Vec<u8>>,
    small: Option<&Vec<u8>>,
    path: &str,
    written: bool,
    file: &FileFacts,
    history: &mut HistoryState,
    main: &MainWindow,
) -> (r: Finished)
    requires
        img.width * img.height * 4 <= u32::MAX,
        img.height != 0x8000_0000,
        png matches Some(p) ==> base64_fits(p@.len()),
        small matches Some(p) ==> base64_fits(p@.len()),
    ensures
        ({
            let where_to = saved(path@, bytes_of(png), written);
            &&& same_path(r.saved_path, where_to)
            &&& match r.toast {
                Some(t) => where_to is None && t.says("error"@, "Couldn't save screenshot"@),
                None => where_to is Some,
            }
            &&& match r.clipboard {
                Some(items) => {
                    &&& settings.copy_to_clipboard
                    &&& items@.len() == 2
                    &&& items@[0].format == crate::clipboard::CF_DIBV5
                    &&& items@[0].bytes@ == crate::clipboard::dibv5_header(
                        img.width as int,
                        img.height as int,
                    ) + crate::clipboard::opaque_bgra(img.bgra@)
                    &&& items@[1].format == crate::clipboard::CF_HDROP
                    &&& items@[1].bytes@ == crate::clipboard::dropfiles_header()
                        + crate::clipboard::bytes_of(
                        crate::clipboard::name_list(
                            seq![
                                match where_to {
                                    Some(p) => p,
                                    None => "SnapDrop.png"@,
                                },
                            ],
                        ),
                    )
                },
                None => !settings.copy_to_clipboard,
            }
            &&& r.history_changed == (where_to is Some)
            &&& where_to is None ==> final(history).0@ == old(history).0@
            &&& where_to is Some ==> added(
                old(history).0@,
                final(history).0@,
                path@,
                *file,
                settings.max_history,
            )
            &&& presents(
                r.presentation,
                *settings,
                *sel,
                *img,
                where_to,
                bytes_of(png),
                bytes_of(small),
            )
            &&& r.restore == restored(*main)
        }),
{
    let ok = written && png.is_some();
    let saved_path: Option<String> = if ok {
        Some(path.to_owned())
    } else {
        None
    };
    let toast = if ok {
        None
    } else {
        Some(payload("error", "Couldn't save screenshot"))
    };
    let clipboard = if settings.copy_to_clipboard {
        let name: &str = if ok {
            path
        } else {
            "SnapDrop.png"
        };
        Some(set_image_and_file(&img.bgra, img.width, img.height, name))
    } else {
        None
    };
    if ok {
        let captured_at = timestamp();
        let entry_path = path.to_owned();
        history::add(history, entry_path, captured_at, file, settings.max_history);
    }
    let center: (i32, i32) = middle_of(&sel.rect);
    let presentation = if settings.show_editor_after_capture != sel.ctrl_held {
        Presentation::Editor {
            path: copy_path(&saved_path),
            full_b64: encode_or_empty(png),
            width: img.width,
            height: img.height,
            center,
        }
    } else {
        Presentation::Thumbnail {
            path: copy_path(&saved_path),
            preview_b64: encode_or_empty(small),
            width: img.width,
            height: img.height,
            unsaved: !ok,
            center,
        }
    };
    Finished {
        saved_path,
        toast,
        clipboard,
        history_changed: ok,
        presentation,
        restore: restore(main),
    }
}

fn copy_path(p: &Option<String>) -> (r: Option<String>)
    ensures
        match (p, r) {
            (Some(a), Some(b)) => b@ == a@,
            (None, None) => true,
            _ => false,
        },
{
    match p {
        Some(s) => Some(s.clone()),
        None => None,
    }
}

/// Whether a history became another by putting a fresh image in front: the
/// entry of a file, with what the file tells.
pub open spec fn added(
    before: Seq<HistoryEntry>,
    after: Seq<HistoryEntry>,
    path: Seq<char>,
    file: FileFacts,
    max_history: usize,
) -> bool {
    let e = after[0];
    &&& after == history::inserted(before, e, max_history)
    &&& e.path@ == path
    &&& is_time(e.captured_at@)
    &&& e.kind@ == "image"@
    &&& e.duration_secs == 0
    &&& e.size_bytes == (match file.size {
        Some(n) => n,
        None => 0,
    })
    &&& (e.width, e.height) == (match file.dimensions {
        Some(d) => d,
        None => (0u32, 0u32),
    })
}

/// What follows the recognition of text.
pub enum TextOutcome {
    Tell(ToastPayload),
    Copy(String),
}

/// The outcome of a text capture: a failure or an empty text is told, any
/// other text goes on the clipboard as it is.
pub fn text_recognized(found: Result<String, String>) -> (r: TextOutcome)
    ensures
        match found {
            Err(e) => r matches TextOutcome::Tell(t) && t.says("error"@, e@),
            Ok(text) => if trim(text@).len() == 0 {
                r matches TextOutcome::Tell(t) && t.says("info"@, "No text found in that region"@)
            } else {
                r matches TextOutcome::Copy(c) && c@ == text@
            },
        },
{
    match found {
        Err(e) => TextOutcome::Tell(payload("error", e.as_str())),
        Ok(text) => {
            let t = trimmed(&chars_of(text.as_str()));
            if t.len() == 0 {
                TextOutcome::Tell(payload("info", "No text found in that region"))
            } else {
                TextOutcome::Copy(text)
            }
        },
    }
}

/// How many characters of a copied text are shown.
pub const TEXT_PREVIEW: usize = 80;

/// What is said of a copied text: its length and its beginning.
pub open spec fn copied_text(text: Seq<char>) -> Seq<char> {
    let t = trim(text);
    let cut = t.len() > TEXT_PREVIEW;
    "Text copied ("@ + decimal(t.len()) + " chars): "@ + (if cut {
        t.take(TEXT_PREVIEW as int) + "…"@
    } else {
        t
    })
}

/// What the user is told after a text was put on the clipboard.
pub fn text_copied(text: &str, copied: Result<(), String>) -> (p: ToastPayload)
    ensures
        match copied {
            Ok(_) => p.says("success"@, copied_text(text@)),
            Err(e) => p.says("error"@, "Clipboard failed: "@ + e@),
        },
{
    match copied {
        Err(e) => {
            let mut m = "Clipboard failed: ".to_owned();
            m.append(e.as_str());
            payload("error", m.as_str())
        },
        Ok(_) => {
            let t = trimmed(&chars_of(text));
            let n: usize = t.len();
            let mut m = "Text copied (".to_owned();
            m.append(decimal_of(n as u64).as_str());
            m.append(" chars): ");
            if n > TEXT_PREVIEW {
                let mut head: Vec<char> = Vec::new();
                for i in 0..TEXT_PREVIEW
                    invariant
                        t@.len() > TEXT_PREVIEW,
                        head@ == t@.take(i as int),
                {
                    head.push(t[i]);
                    assert(head@ =~= t@.take(i + 1));
                }
                m.append(string_of(&head).as_str());
                m.append("…");
            } else {
                m.append(string_of(&t).as_str());
            }
            assert(m@ =~= copied_text(text@));
            payload("success", m.as_str())
        },
    }
}

/// A region that is ready to be recorded.
pub struct PreparedVideo {
    pub last_area: LastArea,
    pub dir: String,
    pub warning: Option<ToastPayload>,
    pub path: String,
    pub region: Rect,
}

/// What follows the overlay of a video capture: the region is remembered, and
/// the recording gets its path.
pub fn prepare_video(
    sel: &Selection,
    settings: &Settings,
    profile: Option<&str>,
    writable: bool,
) -> (r: PreparedVideo)
    requires
        i32::MIN <= sel.rect.width() <= i32::MAX,
        i32::MIN <= sel.rect.height() <= i32::MAX,
    ensures
        r.last_area.covers(sel.rect),
        r.region == sel.rect,
        r.dir@ == (if writable {
            expanded(settings.screenshot_dir@, text_of(profile))
        } else {
            crate::filename::default_dir(text_of(profile))
        }),
        match r.warning {
            Some(t) => expanded(settings.screenshot_dir@, text_of(profile)) != r.dir@ && t.says(
                "error"@,
                fallback_text(),
            ),
            None => expanded(settings.screenshot_dir@, text_of(profile)) == r.dir@,
        },
        exists|stamp: Seq<char>|
            is_video_stamp(stamp) && r.path@ == #[trigger] video_path_at(r.dir@, stamp),
{
    let last_area = LastArea::of(&sel.rect);
    let (dir, warning) = target_dir(settings, profile, writable);
    let path = video_path(dir.as_str());
    PreparedVideo { last_area, dir, warning, path, region: sel.rect }
}

/// Holding Ctrl turns the editor decision round, whatever it was.
pub proof fn law_ctrl_turns_the_editor_round(settings: Settings, sel: Selection)
    ensures
        opens_editor(settings, Selection { ctrl_held: !sel.ctrl_held, ..sel }) == !opens_editor(
            settings,
            sel,
        ),
        !sel.ctrl_held ==> opens_editor(settings, sel) == settings.show_editor_after_capture,
{
}

/// The middle of a rectangle lies in it.
pub proof fn law_middle_is_inside(r: Rect)
    requires
        r.left < r.right,
        r.top < r.bottom,
    ensures
        r.contains(middle(r).0, middle(r).1),
{
}

/// A main window that was visible comes back, minimized if it was, and never
/// takes the focus where its handle is known; one that was not visible, or is
/// gone, stays away.
pub proof fn law_the_main_window_comes_back(main: MainWindow)
    ensures
        !main.was_visible ==> restored(main) is Nothing,
        !main.has_window ==> restored(main) is Nothing,
        main.was_visible && main.has_window ==> !(restored(main) is Nothing),
        restored(main) is MinimizedNoActivate ==> main.was_minimized && main.has_handle,
        restored(main) is NoActivate ==> !main.was_minimized && main.has_handle,
        restored(main) is Plain ==> !main.has_handle,
{
}

/// The middle of a rectangle is as far from its left edge as from its right, and
/// as far from its top as from its bottom, up to one pixel.
pub proof fn law_the_middle_is_between_the_edges(r: Rect)
    ensures
        -1 <= 2 * middle(r).0 - (r.left + r.right) <= 1,
        -1 <= 2 * middle(r).1 - (r.top + r.bottom) <= 1,
{
}

/// A saved capture is the first entry of the history: with its path, as an
/// image, and with what its file tells.
pub proof fn law_captures_are_entered_first(
    before: Seq<HistoryEntry>,
    after: Seq<HistoryEntry>,
    path: Seq<char>,
    file: FileFacts,
    max_history: usize,
)
    requires
        added(before, after, path, file, max_history),
    ensures
        after.len() >= 1 && after[0].path@ == path,
        after[0].kind@ == "image"@,
        file.size matches Some(n) ==> after[0].size_bytes == n,
        file.dimensions matches Some(d) ==> after[0].width == d.0 && after[0].height == d.1,
        max_history >= 1 ==> after.len() <= max_history,
{
    history::law_adding_keeps_the_others_in_order(before, after[0], max_history);
}

/// A capture is shown in the editor or as a thumbnail, never both ways, with its
/// own size and the middle of the region; the thumbnail says that it is not
/// saved exactly if it has no path.
pub proof fn law_captures_are_shown(
    p: Presentation,
    settings: Settings,
    sel: Selection,
    img: ImageBuf,
    path: Option<Seq<char>>,
    full: Option<Seq<u8>>,
    small: Option<Seq<u8>>,
)
    requires
        presents(p, settings, sel, img, path, full, small),
    ensures
        p is Editor == (settings.show_editor_after_capture && !sel.ctrl_held
            || !settings.show_editor_after_capture && sel.ctrl_held),
        match p {
            Presentation::Editor { path: q, full_b64, width, height, center } => {
                &&& q is Some == path is Some
                &&& q is Some ==> q->0@ == path->0
                &&& width == img.width && height == img.height
                &&& full matches Some(b) ==> base64_bytes(full_b64@) == Some(b)
                &&& -1 <= 2 * center.0 - (sel.rect.left + sel.rect.right) <= 1
                &&& -1 <= 2 * center.1 - (sel.rect.top + sel.rect.bottom) <= 1
            },
            Presentation::Thumbnail { path: q, preview_b64, width, height, unsaved, center } => {
                &&& q is Some == path is Some
                &&& q is Some ==> q->0@ == path->0
                &&& width == img.width && height == img.height
                &&& unsaved == (path is None)
                &&& small matches Some(b) ==> base64_bytes(preview_b64@) == Some(b)
                &&& -1 <= 2 * center.0 - (sel.rect.left + sel.rect.right) <= 1
                &&& -1 <= 2 * center.1 - (sel.rect.top + sel.rect.bottom) <= 1
            },
        },
{
}

/// A capture has a path exactly if it was encoded and written.
pub proof fn law_saved_captures_have_their_path(
    path: Seq<char>,
    png: Option<Seq<u8>>,
    written: bool,
)
    ensures
        saved(path, png, written) is Some == (png is Some && written),
        saved(path, png, written) matches Some(p) ==> p == path,
{
}

/// What is said of a copied text tells how long it is without the blanks around
/// it, and shows all of it, or its beginning if it is long.
pub proof fn law_copied_text_is_shown(text: Seq<char>)
    ensures
        ({
            let t = trim(text);
            let said = copied_text(text);
            let head = "Text copied ("@ + decimal(t.len()) + " chars): "@;
            &&& crate::text::begins_with(said, head)
            &&& t.len() <= TEXT_PREVIEW ==> said.skip(head.len() as int) == t
            &&& t.len() > TEXT_PREVIEW ==> said.skip(head.len() as int).drop_last() == t.take(
                TEXT_PREVIEW as int,
            )
        }),
{
    reveal_strlit("…");
    let t = trim(text);
    let said = copied_text(text);
    let head = "Text copied ("@ + decimal(t.len()) + " chars): "@;
    assert(said.take(head.len() as int) =~= head);
    if t.len() <= TEXT_PREVIEW {
        assert(said.skip(head.len() as int) =~= t);
    } else {
        assert(said.skip(head.len() as int).drop_last() =~= t.take(TEXT_PREVIEW as int));
    }
}

/// A flow that opens the overlay plainly asks for no editor, no delay and no
/// remembered area.
pub proof fn law_plain_overlays(r: OverlayRequest)
    ensures
        is_plain(r) ==> !r.editor_enabled && r.delay_secs == 0 && r.initial is None,
{
}

/// A failed flow tells the user that the region could not be captured, and shows
/// the main window again if it was visible.
pub proof fn law_failed_flows(f: Failed, main: MainWindow)
    requires
        f.ends(main),
    ensures
        f.toast.kind@ == "error"@,
        f.toast.message@ == "Couldn't capture screen region"@,
        f.restore is Nothing == (!main.was_visible || !main.has_window),
{
}

} // verus!

//! The annotation editor: the capture that it shows, and what confirming or
//! cancelling does with it.

use vstd::prelude::*;

use crate::clipboard::{set_image_and_file, ClipboardItem};
use crate::encoding::{
    after_comma, base64_bytes, data_url, decode_base64, decode_rgba, decode_url, decoded_png,
    is_png, known_kind, make_data_url, opaque, swap_red_blue, swapped,
};
use crate::filename::{is_shot_stamp, next_filename, NameSearch};
use crate::monitors::{MonitorInfo, Rect};
use crate::notifier::{payload, ToastPayload};
use crate::settings::Settings;

verus! {

pub struct EditorPayload {
    /// Full-resolution PNG of the capture as a data URL.
    pub full: String,
    pub width: u32,
    pub height: u32,
}

pub struct ConfirmPayload {
    /// Full-resolution annotated PNG as a data URL.
    pub annotated: String,
}

/// The capture that the editor shows.
pub struct Pending {
    pub path: Option<String>,
    /// Full-resolution PNG as Base64.
    pub full_b64: String,
    pub width: u32,
    pub height: u32,
    pub center: (i32, i32),
}

pub struct EditorState {
    pub pending: Option<Pending>,
}

/// Whether the editor is visible: a window that is not there, or does not
/// tell, is not.
pub fn is_visible(window: Option<bool>) -> (r: bool)
    ensures
        r == (window == Some(true)),
{
    match window {
        Some(v) => v,
        None => false,
    }
}

/// What the editor shows of a capture.
pub open spec fn shows(p: EditorPayload, b64: Seq<char>, width: u32, height: u32) -> bool {
    p.full@ == data_url(b64) && p.width == width && p.height == height
}

/// Shows the editor for a fresh capture, whose picture is given as Base64.
pub fn show(
    st: &mut EditorState,
    path: Option<String>,
    full_b64: String,
    img_w: u32,
    img_h: u32,
    center: (i32, i32),
) -> (p: EditorPayload)
    ensures
        final(st).pending == Some(
            Pending { path, full_b64, width: img_w, height: img_h, center },
        ),
        shows(p, full_b64@, img_w, img_h),
{
    let full = make_data_url(full_b64.as_str());
    st.pending = Some(Pending { path, full_b64, width: img_w, height: img_h, center });
    EditorPayload { full, width: img_w, height: img_h }
}

/// The monitor that the editor covers: the one at the capture, else the one at
/// the origin.
pub fn editor_monitor(at_center: Option<MonitorInfo>, at_origin: Option<MonitorInfo>) -> (r: Option<
    MonitorInfo,
>)
    ensures
        r == (if at_center is Some {
            at_center
        } else {
            at_origin
        }),
{
    if at_center.is_some() {
        at_center
    } else {
        at_origin
    }
}

/// The editor's window: it covers the work area.
pub fn geometry(work: &Rect) -> (r: ((u32, u32), (i32, i32)))
    requires
        0 <= work.width() <= i32::MAX,
        0 <= work.height() <= i32::MAX,
    ensures
        r.0.0 == work.width() && r.0.1 == work.height(),
        r.1 == (work.left, work.top),
{
    (((work.right - work.left) as u32, (work.bottom - work.top) as u32), (work.left, work.top))
}

/// The pending capture, for an editor that has just opened.
pub fn get_pending_image(st: &EditorState) -> (r: Option<EditorPayload>)
    ensures
        match (st.pending, r) {
            (Some(p), Some(e)) => shows(e, p.full_b64@, p.width, p.height),
            (None, None) => true,
            _ => false,
        },
{
    match &st.pending {
        Some(p) => Some(
            EditorPayload {
                full: make_data_url(p.full_b64.as_str()),
                width: p.width,
                height: p.height,
            },
        ),
        None => None,
    }
}

/// A decoded picture as BGRA.
pub fn bgra_of(decoded: Option<(Vec<u8>, u32, u32)>) -> (r: Option<(Vec<u8>, u32, u32)>)
    ensures
        match (decoded, r) {
            (Some(d), Some(b)) => b.0@ == swapped(d.0@) && b.1 == d.1 && b.2 == d.2,
            (None, None) => true,
            _ => false,
        },
{
    match decoded {
        Some((rgba, w, h)) => Some((swap_red_blue(&rgba), w, h)),
        None => None,
    }
}

/// The picture in a PNG file, as BGRA.
pub open spec fn bgra_in(png: Seq<u8>) -> Option<(Seq<u8>, u32, u32)> {
    match decoded_png(png) {
        Some(d) => Some((swapped(d.0), d.1, d.2)),
        None => None,
    }
}

pub open spec fn picture_view(p: Option<(Vec<u8>, u32, u32)>) -> Option<(Seq<u8>, u32, u32)> {
    match p {
        Some(b) => Some((b.0@, b.1, b.2)),
        None => None,
    }
}

/// The pending capture as tightly-packed BGRA (for OCR): nothing where there is
/// none, or where its text or file cannot be read.
pub fn pending_bgra(st: &EditorState) -> (r: Option<(Vec<u8>, u32, u32)>)
    ensures
        match st.pending {
            None => r is None,
            Some(p) => match base64_bytes(p.full_b64@) {
                None => r is None,
                Some(png) => {
                    &&& is_png(png) ==> picture_view(r) == bgra_in(png)
                    &&& !known_kind(png) ==> r is None
                },
            },
        },
        r matches Some(b) ==> b.0@.len() == b.1 * b.2 * 4,
{
    match &st.pending {
        None => None,
        Some(p) => match decode_base64(p.full_b64.as_str()) {
            None => None,
            Some(png) => bgra_of(decode_rgba(&png)),
        },
    }
}

/// Takes the pending capture, if the editor is visible.
pub fn take_pending(st: &mut EditorState, visible: bool) -> (r: Option<Pending>)
    ensures
        r == (if visible {
            old(st).pending
        } else {
            None
        }),
        final(st).pending == (if visible {
            None
        } else {
            old(st).pending
        }),
{
    if !visible {
        return None;
    }
    st.pending.take()
}

/// What confirming the editor leads to.
pub enum Confirmed {
    /// Nothing was pending, or the editor was not visible.
    Skipped,
    /// The annotated picture could not be read: the user is told, and the
    /// capture is shown as it is.
    Unreadable(ToastPayload, Pending),
    /// The annotated file is to be written over the capture's own; one that
    /// was never saved gets a fresh name.
    Save(Vec<u8>, Pending),
}

/// The editor was confirmed with an annotated picture.
pub fn on_confirmed(st: &mut EditorState, visible: bool, payload_in: &ConfirmPayload) -> (r:
    Confirmed)
    ensures
        final(st).pending == (if visible {
            None
        } else {
            old(st).pending
        }),
        match (visible, old(st).pending) {
            (true, Some(p)) => match base64_bytes(after_comma(payload_in.annotated@)) {
                None => r matches Confirmed::Unreadable(t, q) && q == p && t.says(
                    "error"@,
                    "Couldn't process the annotated image"@,
                ),
                Some(bytes) => r matches Confirmed::Save(b, q) && q == p && b@ == bytes,
            },
            _ => r is Skipped,
        },
{
    match take_pending(st, visible) {
        None => Confirmed::Skipped,
        Some(p) => {
            match decode_url(payload_in.annotated.as_str()) {
                None => Confirmed::Unreadable(
                    payload("error", "Couldn't process the annotated image"),
                    p,
                ),
                Some(bytes) => Confirmed::Save(bytes, p),
            }
        },
    }
}

/// Where the annotated file goes: over the capture's own, or, for a capture that
/// was never saved, to a fresh name in a directory, which is searched for.
pub fn annotated_target(pending: &Pending, dir: &str) -> (r: Result<String, NameSearch>)
    ensures
        match (pending.path, r) {
            (Some(p), Ok(target)) => target@ == p@,
            (None, Err(search)) => search.dir@ == dir@ && search.n == 0 && is_shot_stamp(
                search.stamp@,
            ),
            _ => false,
        },
{
    match &pending.path {
        Some(p) => Ok(p.clone()),
        None => Err(next_filename(dir)),
    }
}

/// Takes the outcome of writing the annotated file: the path that it was
/// saved at, or what the user is told.
pub fn annotated_saved(path: &str, written: bool) -> (r: Result<String, ToastPayload>)
    ensures
        match r {
            Ok(p) => written && p@ == path@,
            Err(t) => !written && t.says("error"@, "Couldn't save annotated screenshot"@),
        },
{
    if written {
        Ok(path.to_owned())
    } else {
        Err(payload("error", "Couldn't save annotated screenshot"))
    }
}

/// What an annotated capture puts on the clipboard, if it is copied there:
/// the picture as it was read back from its file, and the file.
pub fn annotated_clipboard(
    settings: &Settings,
    saved_path: Option<&str>,
    opened: Option<(&Vec<u8>, u32, u32)>,
) -> (r: Option<Vec<ClipboardItem>>)
    requires
        opened matches Some(o) ==> o.1 * o.2 * 4 <= u32::MAX && o.2 != 0x8000_0000,
    ensures
        r is Some == (settings.copy_to_clipboard && saved_path is Some && opened is Some),
        r matches Some(items) ==> {
            let o = opened->0;
            &&& items@.len() == 2
            &&& items@[0].format == crate::clipboard::CF_DIBV5
            &&& items@[0].bytes@ == crate::clipboard::dibv5_header(o.1 as int, o.2 as int)
                + crate::clipboard::opaque_bgra(swapped(o.0@))
            &&& items@[1].format == crate::clipboard::CF_HDROP
            &&& items@[1].bytes@ == crate::clipboard::dropfiles_header()
                + crate::clipboard::bytes_of(
                crate::clipboard::name_list(seq![saved_path->0@]),
            )
        },
{
    if !settings.copy_to_clipboard {
        return None;
    }
    match (saved_path, opened) {
        (Some(path), Some((rgba, w, h))) => Some(
            set_image_and_file(&swap_red_blue(rgba), w, h, path),
        ),
        _ => None,
    }
}

/// The editor was cancelled: the capture that it showed is handed out.
pub fn on_cancelled(st: &mut EditorState, visible: bool) -> (r: Option<Pending>)
    ensures
        r == (if visible {
            old(st).pending
        } else {
            None
        }),
        final(st).pending == (if visible {
            None
        } else {
            old(st).pending
        }),
{
    take_pending(st, visible)
}

/// How the thumbnail shows a capture after the editor has closed.
pub enum AfterEditor {
    /// From its file, near the place of the capture.
    Reload(String, (i32, i32)),
    /// As an unsaved capture without a preview.
    Unsaved(u32, u32, (i32, i32)),
}

pub fn finish(path: Option<String>, img_w: u32, img_h: u32, center: (i32, i32)) -> (r: AfterEditor)
    ensures
        r == (match path {
            Some(p) => AfterEditor::Reload(p, center),
            None => AfterEditor::Unsaved(img_w, img_h, center),
        }),
{
    match path {
        Some(p) => AfterEditor::Reload(p, center),
        None => AfterEditor::Unsaved(img_w, img_h, center),
    }
}

/// The editor hands out the capture that it was given: the picture is the
/// captured one, made opaque.
pub proof fn law_editor_keeps_the_picture(
    b64: Seq<char>,
    png: Seq<u8>,
    bgra: Seq<u8>,
    width: u32,
    height: u32,
    p: int,
)
    requires
        base64_bytes(b64) == Some(png),
        decoded_png(png) == Some((opaque(bgra), width, height)),
        0 <= p < bgra.len() / 4,
    ensures
        bgra_in(base64_bytes(b64)->0) == Some((swapped(opaque(bgra)), width, height)),
        crate::capture::px(swapped(opaque(bgra)), p) == (
            crate::capture::px(bgra, p).0,
            crate::capture::px(bgra, p).1,
            crate::capture::px(bgra, p).2,
            255u8,
        ),
{
}

/// The editor is shown the picture that it is given: its text is found again in
/// what it gets, with the picture's size.
pub proof fn law_the_editor_gets_the_picture(
    p: EditorPayload,
    b64: Seq<char>,
    width: u32,
    height: u32,
)
    requires
        shows(p, b64, width, height),
    ensures
        after_comma(p.full@) == b64,
        p.width == width && p.height == height,
{
    crate::encoding::law_data_url_round_trip(b64);
}

/// The picture in a file comes with blue first: of each of its pixels red and
/// blue change places, and nothing else changes.
pub proof fn law_pictures_come_with_blue_first(png: Seq<u8>, p: int)
    ensures
        bgra_in(png) is Some == decoded_png(png) is Some,
        decoded_png(png) matches Some(d) ==> {
            let b = bgra_in(png)->0;
            &&& b.1 == d.1 && b.2 == d.2
            &&& 0 <= p && 4 * p + 4 <= d.0.len() ==> b.0[4 * p] == d.0[4 * p + 2] && b.0[4 * p + 1]
                == d.0[4 * p + 1] && b.0[4 * p + 2] == d.0[4 * p] && b.0[4 * p + 3] == d.0[4 * p
                + 3]
        },
{
}

} // verus!

//! The life of the app: whether its main window and its event loop are still
//! alive, and what closing the window does.

use vstd::prelude::*;

use crate::text::same;

verus! {

/// A main window that has not been heard of for longer than this is stale.
pub const MAIN_STALE_MS: u64 = 10_000;

/// Seconds after the start at which the main window should have been heard of.
pub const READY_SECS: u64 = 6;

/// Seconds after a reload at which it is looked at again.
pub const RELOAD_SECS: u64 = 8;

/// Milliseconds between two pings of the event loop.
pub const PING_MS: u64 = 1500;

/// Milliseconds that the event loop has for a ping.
pub const PONG_MS: u64 = 250;

/// Milliseconds after which it is checked that a closed window is hidden.
pub const HIDE_CHECK_MS: u64 = 40;

/// What is known of the main window's page.
#[derive(Clone, Copy, Debug, PartialEq, Eq, Structural)]
pub struct MainRenderer {
    /// Whether the page has ever reported.
    pub ready: bool,
    /// When it last reported (milliseconds).
    pub last_heartbeat: u64,
}

impl MainRenderer {
    pub fn new() -> (r: MainRenderer)
        ensures
            r == (MainRenderer { ready: false, last_heartbeat: 0 }),
    {
        MainRenderer { ready: false, last_heartbeat: 0 }
    }
}

/// The page has reported, as it does when it is mounted and while it is alive.
/// Returns whether it is the first report.
pub fn note_main_renderer_ready(r: &mut MainRenderer, now: u64) -> (first: bool)
    ensures
        first == !old(r).ready,
        *final(r) == (MainRenderer { ready: true, last_heartbeat: now }),
{
    let first = !r.ready;
    r.ready = true;
    r.last_heartbeat = now;
    first
}

/// Whether a page with this last report, 0 for none, has stopped reporting, or
/// never has.
pub open spec fn stale(r: MainRenderer, now: u64) -> bool {
    r.last_heartbeat == 0 || now - r.last_heartbeat > MAIN_STALE_MS
}

pub fn is_main_renderer_stale(r: &MainRenderer, now: u64) -> (b: bool)
    ensures
        b == stale(*r, now),
{
    if r.last_heartbeat == 0 {
        return true;
    }
    now.saturating_sub(r.last_heartbeat) > MAIN_STALE_MS
}

/// A readable message of a panic, from its payload as one kind of text or the
/// other.
pub fn panic_message(literal: Option<&str>, string: Option<&str>) -> (r: String)
    ensures
        r@ == (match (literal, string) {
            (Some(s), _) => s@,
            (None, Some(s)) => s@,
            (None, None) => "unknown panic"@,
        }),
{
    match literal {
        Some(s) => s.to_owned(),
        None => match string {
            Some(s) => s.to_owned(),
            None => "unknown panic".to_owned(),
        },
    }
}

/// What is found out about the main window after the start.
#[derive(Clone, Copy, Debug, PartialEq, Eq, Structural)]
pub enum StartupCheck {
    Fine,
    /// Nothing was heard of the page: it is reloaded, once.
    Reload,
    /// It came up after the reload.
    Recovered,
    /// It did not.
    StillDead,
}

pub fn startup_check(r: &MainRenderer, reloaded: bool) -> (c: StartupCheck)
    ensures
        c == (if !reloaded {
            if r.ready {
                StartupCheck::Fine
            } else {
                StartupCheck::Reload
            }
        } else if r.ready {
            StartupCheck::Recovered
        } else {
            StartupCheck::StillDead
        }),
{
    if !reloaded {
        if r.ready {
            StartupCheck::Fine
        } else {
            StartupCheck::Reload
        }
    } else if r.ready {
        StartupCheck::Recovered
    } else {
        StartupCheck::StillDead
    }
}

/// What is reported of the event loop after a ping.
#[derive(Clone, Copy, Debug, PartialEq, Eq, Structural)]
pub enum LoopReport {
    Quiet,
    Unresponsive,
    StillUnresponsive(u32),
    Responsive,
}

/// Watches the event loop by pings.
#[derive(Clone, Copy, Debug, PartialEq, Eq, Structural)]
pub struct LoopWatch {
    /// Pings in a row that were not answered.
    pub missed: u32,
}

impl LoopWatch {
    pub fn new() -> (w: LoopWatch)
        ensures
            w.missed == 0,
    {
        LoopWatch { missed: 0 }
    }

    /// Takes the outcome of a ping: the loop's counter before and after it. A
    /// single miss is not reported; the second is, and each one after it, and
    /// that the loop has come back.
    pub fn tick(&mut self, before: u64, now: u64) -> (r: LoopReport)
        requires
            old(self).missed < u32::MAX,
        ensures
            final(self).missed == (if before == now {
                old(self).missed + 1
            } else {
                0
            }),
            r == (if before == now {
                if old(self).missed == 0 {
                    LoopReport::Quiet
                } else if old(self).missed == 1 {
                    LoopReport::Unresponsive
                } else {
                    LoopReport::StillUnresponsive((old(self).missed + 1) as u32)
                }
            } else if old(self).missed >= 2 {
                LoopReport::Responsive
            } else {
                LoopReport::Quiet
            }),
    {
        if before == now {
            self.missed = self.missed + 1;
            if self.missed == 2 {
                LoopReport::Unresponsive
            } else if self.missed >= 3 {
                LoopReport::StillUnresponsive(self.missed)
            } else {
                LoopReport::Quiet
            }
        } else {
            let was: u32 = self.missed;
            self.missed = 0;
            if was >= 2 {
                LoopReport::Responsive
            } else {
                LoopReport::Quiet
            }
        }
    }
}

/// Whether closing a window hides it to the tray instead: the main window, if
/// the user wants that.
pub fn close_requested(label: &str, close_to_tray: bool) -> (prevent: bool)
    ensures
        prevent == (label@ == "main"@ && close_to_tray),
{
    same(label, "main") && close_to_tray
}

/// Whether hiding a closed window has to be tried again: it is still visible,
/// or does not tell.
pub fn hide_again(visible: Option<bool>) -> (r: bool)
    ensures
        r == (visible != Some(false)),
{
    match visible {
        Some(v) => v,
        None => true,
    }
}

/// A page that has just reported is not stale, and stays so for a while.
pub proof fn law_reports_keep_the_page_fresh(at: u64, now: u64)
    requires
        at > 0,
        now <= at + MAIN_STALE_MS,
    ensures
        !stale(MainRenderer { ready: true, last_heartbeat: at }, now),
{
}

/// A page is stale once its last report is older than the limit, or was never
/// made.
pub proof fn law_silent_pages_are_stale(r: MainRenderer, now: u64)
    ensures
        r.last_heartbeat == 0 ==> stale(r, now),
        r.last_heartbeat + MAIN_STALE_MS < now ==> stale(r, now),
        r.last_heartbeat > 0 && now <= r.last_heartbeat + MAIN_STALE_MS ==> !stale(r, now),
{
}

} // verus!

//! Global hotkeys: reading and writing shortcuts, and what the hotkeys do.

use vstd::prelude::*;

use crate::notifier::{payload, ToastPayload};
use crate::settings::Settings;
use crate::text::{
    chars_of, join, joined, lacks, lemma_split_join, lemma_trim, lowercase, lowered,
    same, split, split_on, string_of, trim, trim_free, trimmed, views,
};

verus! {

#[derive(Clone, Copy, Debug, PartialEq, Eq, Structural)]
pub enum Code {
    KeyA,
    KeyB,
    KeyC,
    KeyD,
    KeyE,
    KeyF,
    KeyG,
    KeyH,
    KeyI,
    KeyJ,
    KeyK,
    KeyL,
    KeyM,
    KeyN,
    KeyO,
    KeyP,
    KeyQ,
    KeyR,
    KeyS,
    KeyT,
    KeyU,
    KeyV,
    KeyW,
    KeyX,
    KeyY,
    KeyZ,
    Digit0,
    Digit1,
    Digit2,
    Digit3,
    Digit4,
    Digit5,
    Digit6,
    Digit7,
    Digit8,
    Digit9,
    Backquote,
    Minus,
    Equal,
    BracketLeft,
    BracketRight,
    Backslash,
    Semicolon,
    Quote,
    Comma,
    Period,
    Slash,
    Space,
    Enter,
    Tab,
    Escape,
    Backspace,
    Delete,
    Home,
    End,
    PageUp,
    PageDown,
    Insert,
    ArrowUp,
    ArrowDown,
    ArrowLeft,
    ArrowRight,
    F1,
    F2,
    F3,
    F4,
    F5,
    F6,
    F7,
    F8,
    F9,
    F10,
    F11,
    F12,
    F13,
    F14,
    F15,
    F16,
    F17,
    F18,
    F19,
    F20,
    F21,
    F22,
    F23,
    F24,
}

/// The key that a single character names.
pub open spec fn char_key(c: char) -> Option<Code> {
    if c == 'a' {
        Some(Code::KeyA)
    } else if c == 'b' {
        Some(Code::KeyB)
    } else if c == 'c' {
        Some(Code::KeyC)
    } else if c == 'd' {
        Some(Code::KeyD)
    } else if c == 'e' {
        Some(Code::KeyE)
    } else if c == 'f' {
        Some(Code::KeyF)
    } else if c == 'g' {
        Some(Code::KeyG)
    } else if c == 'h' {
        Some(Code::KeyH)
    } else if c == 'i' {
        Some(Code::KeyI)
    } else if c == 'j' {
        Some(Code::KeyJ)
    } else if c == 'k' {
        Some(Code::KeyK)
    } else if c == 'l' {
        Some(Code::KeyL)
    } else if c == 'm' {
        Some(Code::KeyM)
    } else if c == 'n' {
        Some(Code::KeyN)
    } else if c == 'o' {
        Some(Code::KeyO)
    } else if c == 'p' {
        Some(Code::KeyP)
    } else if c == 'q' {
        Some(Code::KeyQ)
    } else if c == 'r' {
        Some(Code::KeyR)
    } else if c == 's' {
        Some(Code::KeyS)
    } else if c == 't' {
        Some(Code::KeyT)
    } else if c == 'u' {
        Some(Code::KeyU)
    } else if c == 'v' {
        Some(Code::KeyV)
    } else if c == 'w' {
        Some(Code::KeyW)
    } else if c == 'x' {
        Some(Code::KeyX)
    } else if c == 'y' {
        Some(Code::KeyY)
    } else if c == 'z' {
        Some(Code::KeyZ)
    } else if c == '0' {
        Some(Code::Digit0)
    } else if c == '1' {
        Some(Code::Digit1)
    } else if c == '2' {
        Some(Code::Digit2)
    } else if c == '3' {
        Some(Code::Digit3)
    } else if c == '4' {
        Some(Code::Digit4)
    } else if c == '5' {
        Some(Code::Digit5)
    } else if c == '6' {
        Some(Code::Digit6)
    } else if c == '7' {
        Some(Code::Digit7)
    } else if c == '8' {
        Some(Code::Digit8)
    } else if c == '9' {
        Some(Code::Digit9)
    } else if c == '`' {
        Some(Code::Backquote)
    } else if c == '-' {
        Some(Code::Minus)
    } else if c == '=' {
        Some(Code::Equal)
    } else if c == '[' {
        Some(Code::BracketLeft)
    } else if c == ']' {
        Some(Code::BracketRight)
    } else if c == '\\' {
        Some(Code::Backslash)
    } else if c == ';' {
        Some(Code::Semicolon)
    } else if c == '\'' {
        Some(Code::Quote)
    } else if c == ',' {
        Some(Code::Comma)
    } else if c == '.' {
        Some(Code::Period)
    } else if c == '/' {
        Some(Code::Slash)
    } else {
        None
    }
}

/// The key that a name of several characters stands for.
pub open spec fn word_key(s: Seq<char>) -> Option<Code> {
    if s == "space"@ {
        Some(Code::Space)
    } else if s == "enter"@ {
        Some(Code::Enter)
    } else if s == "tab"@ {
        Some(Code::Tab)
    } else if s == "escape"@ {
        Some(Code::Escape)
    } else if s == "esc"@ {
        Some(Code::Escape)
    } else if s == "backspace"@ {
        Some(Code::Backspace)
    } else if s == "delete"@ {
        Some(Code::Delete)
    } else if s == "home"@ {
        Some(Code::Home)
    } else if s == "end"@ {
        Some(Code::End)
    } else if s == "pageup"@ {
        Some(Code::PageUp)
    } else if s == "pagedown"@ {
        Some(Code::PageDown)
    } else if s == "insert"@ {
        Some(Code::Insert)
    } else if s == "up"@ {
        Some(Code::ArrowUp)
    } else if s == "arrowup"@ {
        Some(Code::ArrowUp)
    } else if s == "down"@ {
        Some(Code::ArrowDown)
    } else if s == "arrowdown"@ {
        Some(Code::ArrowDown)
    } else if s == "left"@ {
        Some(Code::ArrowLeft)
    } else if s == "arrowleft"@ {
        Some(Code::ArrowLeft)
    } else if s == "right"@ {
        Some(Code::ArrowRight)
    } else if s == "arrowright"@ {
        Some(Code::ArrowRight)
    } else if s == "f1"@ {
        Some(Code::F1)
    } else if s == "f2"@ {
        Some(Code::F2)
    } else if s == "f3"@ {
        Some(Code::F3)
    } else if s == "f4"@ {
        Some(Code::F4)
    } else if s == "f5"@ {
        Some(Code::F5)
    } else if s == "f6"@ {
        Some(Code::F6)
    } else if s == "f7"@ {
        Some(Code::F7)
    } else if s == "f8"@ {
        Some(Code::F8)
    } else if s == "f9"@ {
        Some(Code::F9)
    } else if s == "f10"@ {
        Some(Code::F10)
    } else if s == "f11"@ {
        Some(Code::F11)
    } else if s == "f12"@ {
        Some(Code::F12)
    } else if s == "f13"@ {
        Some(Code::F13)
    } else if s == "f14"@ {
        Some(Code::F14)
    } else if s == "f15"@ {
        Some(Code::F15)
    } else if s == "f16"@ {
        Some(Code::F16)
    } else if s == "f17"@ {
        Some(Code::F17)
    } else if s == "f18"@ {
        Some(Code::F18)
    } else if s == "f19"@ {
        Some(Code::F19)
    } else if s == "f20"@ {
        Some(Code::F20)
    } else if s == "f21"@ {
        Some(Code::F21)
    } else if s == "f22"@ {
        Some(Code::F22)
    } else if s == "f23"@ {
        Some(Code::F23)
    } else if s == "f24"@ {
        Some(Code::F24)
    } else {
        None
    }
}

/// The key of a name in lower case.
pub open spec fn key_named(s: Seq<char>) -> Option<Code> {
    if s.len() == 1 {
        char_key(s[0])
    } else {
        word_key(s)
    }
}

fn code_from_char(c: char) -> (r: Option<Code>)
    ensures
        r == char_key(c),
{
    if c == 'a' {
        Some(Code::KeyA)
    } else if c == 'b' {
        Some(Code::KeyB)
    } else if c == 'c' {
        Some(Code::KeyC)
    } else if c == 'd' {
        Some(Code::KeyD)
    } else if c == 'e' {
        Some(Code::KeyE)
    } else if c == 'f' {
        Some(Code::KeyF)
    } else if c == 'g' {
        Some(Code::KeyG)
    } else if c == 'h' {
        Some(Code::KeyH)
    } else if c == 'i' {
        Some(Code::KeyI)
    } else if c == 'j' {
        Some(Code::KeyJ)
    } else if c == 'k' {
        Some(Code::KeyK)
    } else if c == 'l' {
        Some(Code::KeyL)
    } else if c == 'm' {
        Some(Code::KeyM)
    } else if c == 'n' {
        Some(Code::KeyN)
    } else if c == 'o' {
        Some(Code::KeyO)
    } else if c == 'p' {
        Some(Code::KeyP)
    } else if c == 'q' {
        Some(Code::KeyQ)
    } else if c == 'r' {
        Some(Code::KeyR)
    } else if c == 's' {
        Some(Code::KeyS)
    } else if c == 't' {
        Some(Code::KeyT)
    } else if c == 'u' {
        Some(Code::KeyU)
    } else if c == 'v' {
        Some(Code::KeyV)
    } else if c == 'w' {
        Some(Code::KeyW)
    } else if c == 'x' {
        Some(Code::KeyX)
    } else if c == 'y' {
        Some(Code::KeyY)
    } else if c == 'z' {
        Some(Code::KeyZ)
    } else if c == '0' {
        Some(Code::Digit0)
    } else if c == '1' {
        Some(Code::Digit1)
    } else if c == '2' {
        Some(Code::Digit2)
    } else if c == '3' {
        Some(Code::Digit3)
    } else if c == '4' {
        Some(Code::Digit4)
    } else if c == '5' {
        Some(Code::Digit5)
    } else if c == '6' {
        Some(Code::Digit6)
    } else if c == '7' {
        Some(Code::Digit7)
    } else if c == '8' {
        Some(Code::Digit8)
    } else if c == '9' {
        Some(Code::Digit9)
    } else if c == '`' {
        Some(Code::Backquote)
    } else if c == '-' {
        Some(Code::Minus)
    } else if c == '=' {
        Some(Code::Equal)
    } else if c == '[' {
        Some(Code::BracketLeft)
    } else if c == ']' {
        Some(Code::BracketRight)
    } else if c == '\\' {
        Some(Code::Backslash)
    } else if c == ';' {
        Some(Code::Semicolon)
    } else if c == '\'' {
        Some(Code::Quote)
    } else if c == ',' {
        Some(Code::Comma)
    } else if c == '.' {
        Some(Code::Period)
    } else if c == '/' {
        Some(Code::Slash)
    } else {
        None
    }
}

fn code_from_word(name: &str) -> (r: Option<Code>)
    ensures
        r == word_key(name@),
{
    if same(name, "space") {
        Some(Code::Space)
    } else if same(name, "enter") {
        Some(Code::Enter)
    } else if same(name, "tab") {
        Some(Code::Tab)
    } else if same(name, "escape") {
        Some(Code::Escape)
    } else if same(name, "esc") {
        Some(Code::Escape)
    } else if same(name, "backspace") {
        Some(Code::Backspace)
    } else if same(name, "delete") {
        Some(Code::Delete)
    } else if same(name, "home") {
        Some(Code::Home)
    } else if same(name, "end") {
        Some(Code::End)
    } else if same(name, "pageup") {
        Some(Code::PageUp)
    } else if same(name, "pagedown") {
        Some(Code::PageDown)
    } else if same(name, "insert") {
        Some(Code::Insert)
    } else if same(name, "up") {
        Some(Code::ArrowUp)
    } else if same(name, "arrowup") {
        Some(Code::ArrowUp)
    } else if same(name, "down") {
        Some(Code::ArrowDown)
    } else if same(name, "arrowdown") {
        Some(Code::ArrowDown)
    } else if same(name, "left") {
        Some(Code::ArrowLeft)
    } else if same(name, "arrowleft") {
        Some(Code::ArrowLeft)
    } else if same(name, "right") {
        Some(Code::ArrowRight)
    } else if same(name, "arrowright") {
        Some(Code::ArrowRight)
    } else if same(name, "f1") {
        Some(Code::F1)
    } else if same(name, "f2") {
        Some(Code::F2)
    } else if same(name, "f3") {
        Some(Code::F3)
    } else if same(name, "f4") {
        Some(Code::F4)
    } else if same(name, "f5") {
        Some(Code::F5)
    } else if same(name, "f6") {
        Some(Code::F6)
    } else if same(name, "f7") {
        Some(Code::F7)
    } else if same(name, "f8") {
        Some(Code::F8)
    } else if same(name, "f9") {
        Some(Code::F9)
    } else if same(name, "f10") {
        Some(Code::F10)
    } else if same(name, "f11") {
        Some(Code::F11)
    } else if same(name, "f12") {
        Some(Code::F12)
    } else if same(name, "f13") {
        Some(Code::F13)
    } else if same(name, "f14") {
        Some(Code::F14)
    } else if same(name, "f15") {
        Some(Code::F15)
    } else if same(name, "f16") {
        Some(Code::F16)
    } else if same(name, "f17") {
        Some(Code::F17)
    } else if same(name, "f18") {
        Some(Code::F18)
    } else if same(name, "f19") {
        Some(Code::F19)
    } else if same(name, "f20") {
        Some(Code::F20)
    } else if same(name, "f21") {
        Some(Code::F21)
    } else if same(name, "f22") {
        Some(Code::F22)
    } else if same(name, "f23") {
        Some(Code::F23)
    } else if same(name, "f24") {
        Some(Code::F24)
    } else {
        None
    }
}

pub fn code_from_name(name: &Vec<char>) -> (r: Option<Code>)
    ensures
        r == key_named(name@),
{
    if name.len() == 1 {
        code_from_char(name[0])
    } else {
        code_from_word(string_of(name).as_str())
    }
}

/// The name under which a key is shown.
pub open spec fn key_name(code: Code) -> Seq<char> {
    match code {
        Code::KeyA => "a"@,
        Code::KeyB => "b"@,
        Code::KeyC => "c"@,
        Code::KeyD => "d"@,
        Code::KeyE => "e"@,
        Code::KeyF => "f"@,
        Code::KeyG => "g"@,
        Code::KeyH => "h"@,
        Code::KeyI => "i"@,
        Code::KeyJ => "j"@,
        Code::KeyK => "k"@,
        Code::KeyL => "l"@,
        Code::KeyM => "m"@,
        Code::KeyN => "n"@,
        Code::KeyO => "o"@,
        Code::KeyP => "p"@,
        Code::KeyQ => "q"@,
        Code::KeyR => "r"@,
        Code::KeyS => "s"@,
        Code::KeyT => "t"@,
        Code::KeyU => "u"@,
        Code::KeyV => "v"@,
        Code::KeyW => "w"@,
        Code::KeyX => "x"@,
        Code::KeyY => "y"@,
        Code::KeyZ => "z"@,
        Code::Digit0 => "0"@,
        Code::Digit1 => "1"@,
        Code::Digit2 => "2"@,
        Code::Digit3 => "3"@,
        Code::Digit4 => "4"@,
        Code::Digit5 => "5"@,
        Code::Digit6 => "6"@,
        Code::Digit7 => "7"@,
        Code::Digit8 => "8"@,
        Code::Digit9 => "9"@,
        Code::Backquote => "`"@,
        Code::Minus => "-"@,
        Code::Equal => "="@,
        Code::BracketLeft => "["@,
        Code::BracketRight => "]"@,
        Code::Backslash => "\\"@,
        Code::Semicolon => ";"@,
        Code::Quote => "'"@,
        Code::Comma => ","@,
        Code::Period => "."@,
        Code::Slash => "/"@,
        Code::Space => "Space"@,
        Code::Enter => "Enter"@,
        Code::Tab => "Tab"@,
        Code::Escape => "Esc"@,
        Code::Backspace => "Backspace"@,
        Code::Delete => "Delete"@,
        Code::Home => "Home"@,
        Code::End => "End"@,
        Code::PageUp => "PageUp"@,
        Code::PageDown => "PageDown"@,
        Code::Insert => "Insert"@,
        Code::ArrowUp => "Up"@,
        Code::ArrowDown => "Down"@,
        Code::ArrowLeft => "Left"@,
        Code::ArrowRight => "Right"@,
        Code::F1 => "F1"@,
        Code::F2 => "F2"@,
        Code::F3 => "F3"@,
        Code::F4 => "F4"@,
        Code::F5 => "F5"@,
        Code::F6 => "F6"@,
        Code::F7 => "F7"@,
        Code::F8 => "F8"@,
        Code::F9 => "F9"@,
        Code::F10 => "F10"@,
        Code::F11 => "F11"@,
        Code::F12 => "F12"@,
        Code::F13 => "F13"@,
        Code::F14 => "F14"@,
        Code::F15 => "F15"@,
        Code::F16 => "F16"@,
        Code::F17 => "F17"@,
        Code::F18 => "F18"@,
        Code::F19 => "F19"@,
        Code::F20 => "F20"@,
        Code::F21 => "F21"@,
        Code::F22 => "F22"@,
        Code::F23 => "F23"@,
        Code::F24 => "F24"@,
    }
}

pub fn name_from_code(code: Code) -> (r: &'static str)
    ensures
        r@ == key_name(code),
{
    match code {
        Code::KeyA => "a",
        Code::KeyB => "b",
        Code::KeyC => "c",
        Code::KeyD => "d",
        Code::KeyE => "e",
        Code::KeyF => "f",
        Code::KeyG => "g",
        Code::KeyH => "h",
        Code::KeyI => "i",
        Code::KeyJ => "j",
        Code::KeyK => "k",
        Code::KeyL => "l",
        Code::KeyM => "m",
        Code::KeyN => "n",
        Code::KeyO => "o",
        Code::KeyP => "p",
        Code::KeyQ => "q",
        Code::KeyR => "r",
        Code::KeyS => "s",
        Code::KeyT => "t",
        Code::KeyU => "u",
        Code::KeyV => "v",
        Code::KeyW => "w",
        Code::KeyX => "x",
        Code::KeyY => "y",
        Code::KeyZ => "z",
        Code::Digit0 => "0",
        Code::Digit1 => "1",
        Code::Digit2 => "2",
        Code::Digit3 => "3",
        Code::Digit4 => "4",
        Code::Digit5 => "5",
        Code::Digit6 => "6",
        Code::Digit7 => "7",
        Code::Digit8 => "8",
        Code::Digit9 => "9",
        Code::Backquote => "`",
        Code::Minus => "-",
        Code::Equal => "=",
        Code::BracketLeft => "[",
        Code::BracketRight => "]",
        Code::Backslash => "\\",
        Code::Semicolon => ";",
        Code::Quote => "'",
        Code::Comma => ",",
        Code::Period => ".",
        Code::Slash => "/",
        Code::Space => "Space",
        Code::Enter => "Enter",
        Code::Tab => "Tab",
        Code::Escape => "Esc",
        Code::Backspace => "Backspace",
        Code::Delete => "Delete",
        Code::Home => "Home",
        Code::End => "End",
        Code::PageUp => "PageUp",
        Code::PageDown => "PageDown",
        Code::Insert => "Insert",
        Code::ArrowUp => "Up",
        Code::ArrowDown => "Down",
        Code::ArrowLeft => "Left",
        Code::ArrowRight => "Right",
        Code::F1 => "F1",
        Code::F2 => "F2",
        Code::F3 => "F3",
        Code::F4 => "F4",
        Code::F5 => "F5",
        Code::F6 => "F6",
        Code::F7 => "F7",
        Code::F8 => "F8",
        Code::F9 => "F9",
        Code::F10 => "F10",
        Code::F11 => "F11",
        Code::F12 => "F12",
        Code::F13 => "F13",
        Code::F14 => "F14",
        Code::F15 => "F15",
        Code::F16 => "F16",
        Code::F17 => "F17",
        Code::F18 => "F18",
        Code::F19 => "F19",
        Code::F20 => "F20",
        Code::F21 => "F21",
        Code::F22 => "F22",
        Code::F23 => "F23",
        Code::F24 => "F24",
    }
}

/// A modifier key.
#[derive(Clone, Copy, Debug, PartialEq, Eq, Structural)]
pub enum Modifier {
    Control,
    Shift,
    Alt,
    Super,
}

/// The modifiers of a shortcut.
#[derive(Clone, Copy, Debug, PartialEq, Eq, Structural)]
pub struct Modifiers {
    pub ctrl: bool,
    pub shift: bool,
    pub alt: bool,
    pub win: bool,
}

impl Modifiers {
    pub const CONTROL: Modifier = Modifier::Control;

    pub const SHIFT: Modifier = Modifier::Shift;

    pub const ALT: Modifier = Modifier::Alt;

    pub const SUPER: Modifier = Modifier::Super;

    pub open spec fn has(self, m: Modifier) -> bool {
        match m {
            Modifier::Control => self.ctrl,
            Modifier::Shift => self.shift,
            Modifier::Alt => self.alt,
            Modifier::Super => self.win,
        }
    }

    pub fn contains(&self, m: Modifier) -> (r: bool)
        ensures
            r == self.has(m),
    {
        match m {
            Modifier::Control => self.ctrl,
            Modifier::Shift => self.shift,
            Modifier::Alt => self.alt,
            Modifier::Super => self.win,
        }
    }
}

#[derive(Clone, Copy, Debug, PartialEq, Eq, Structural)]
pub struct Shortcut {
    pub mods: Modifiers,
    pub key: Code,
}

/// The modifier that a word in lower case names.
pub open spec fn modifier_named(s: Seq<char>) -> Option<Modifier> {
    if s == "ctrl"@ || s == "control"@ {
        Some(Modifier::Control)
    } else if s == "shift"@ {
        Some(Modifier::Shift)
    } else if s == "alt"@ {
        Some(Modifier::Alt)
    } else if s == "super"@ || s == "win"@ || s == "cmd"@ {
        Some(Modifier::Super)
    } else {
        None
    }
}

pub open spec fn is_modifier(s: Seq<char>) -> bool {
    modifier_named(s) is Some
}

fn modifier_from_word(name: &str) -> (r: Option<Modifier>)
    ensures
        r == modifier_named(name@),
{
    if same(name, "ctrl") || same(name, "control") {
        Some(Modifier::Control)
    } else if same(name, "shift") {
        Some(Modifier::Shift)
    } else if same(name, "alt") {
        Some(Modifier::Alt)
    } else if same(name, "super") || same(name, "win") || same(name, "cmd") {
        Some(Modifier::Super)
    } else {
        None
    }
}

/// The modifiers with one more.
pub open spec fn with_modifier(mods: Modifiers, m: Modifier) -> Modifiers {
    Modifiers {
        ctrl: mods.ctrl || m is Control,
        shift: mods.shift || m is Shift,
        alt: mods.alt || m is Alt,
        win: mods.win || m is Super,
    }
}

pub open spec fn no_modifiers() -> Modifiers {
    Modifiers { ctrl: false, shift: false, alt: false, win: false }
}

/// What has been read of a shortcut: its modifiers and its key, or why it is
/// none.
pub type Reading = Result<(Modifiers, Option<Code>), Seq<char>>;

/// What a part of a shortcut adds to what was read before it.
pub open spec fn read_part(before: Reading, part: Seq<char>, whole: Seq<char>) -> Reading {
    let p = lowercase(trim(part));
    match before {
        Err(e) => Err(e),
        Ok((mods, code)) => match modifier_named(p) {
            Some(m) => Ok((with_modifier(mods, m), code)),
            None => if p.len() == 0 {
                Ok((mods, code))
            } else {
                match key_named(p) {
                    None => Err("unknown key: "@ + p),
                    Some(c) => if code is Some {
                        Err("multiple keys in shortcut: "@ + whole)
                    } else {
                        Ok((mods, Some(c)))
                    },
                }
            },
        },
    }
}

/// What is read of the parts of a shortcut, from left to right.
pub open spec fn read_parts(parts: Seq<Seq<char>>, whole: Seq<char>) -> Reading
    decreases parts.len(),
{
    if parts.len() == 0 {
        Ok((no_modifiers(), None))
    } else {
        read_part(read_parts(parts.drop_last(), whole), parts.last(), whole)
    }
}

/// The shortcut that a text names, or why it names none.
pub open spec fn parsed(s: Seq<char>) -> Result<Shortcut, Seq<char>> {
    match read_parts(split(s, '+'), s) {
        Err(e) => Err(e),
        Ok((mods, code)) => match code {
            None => Err("missing key in shortcut: "@ + s),
            Some(key) => Ok(Shortcut { mods, key }),
        },
    }
}

proof fn lemma_failed_reading(parts: Seq<Seq<char>>, whole: Seq<char>, i: int)
    requires
        0 <= i <= parts.len(),
        read_parts(parts.take(i), whole) is Err,
    ensures
        read_parts(parts, whole) == read_parts(parts.take(i), whole),
    decreases parts.len() - i,
{
    if i < parts.len() {
        assert(parts.take(i + 1).drop_last() =~= parts.take(i));
        lemma_failed_reading(parts, whole, i + 1);
    } else {
        assert(parts.take(i) =~= parts);
    }
}

/// Reads a shortcut such as "Ctrl+Shift+4". Case and blanks do not matter.
pub fn parse_shortcut(s: &str) -> (r: Result<Shortcut, String>)
    ensures
        match r {
            Ok(sc) => parsed(s@) == Ok::<Shortcut, Seq<char>>(sc),
            Err(e) => parsed(s@) == Err::<Shortcut, Seq<char>>(e@),
        },
{
    let parts = split_on(&chars_of(s), '+');
    let ghost all = split(s@, '+');
    let mut mods = Modifiers { ctrl: false, shift: false, alt: false, win: false };
    let mut code: Option<Code> = None;
    for i in 0..parts.len()
        invariant
            all == split(s@, '+'),
            views(parts@) == all,
            read_parts(all.take(i as int), s@) == Ok::<(Modifiers, Option<Code>), Seq<char>>(
                (mods, code),
            ),
    {
        proof {
            assert(all.take(i + 1).drop_last() =~= all.take(i as int));
            assert(all.take(i + 1).last() == views(parts@)[i as int]);
            assert(views(parts@)[i as int] == parts@[i as int]@);
        }
        let p = lowered(&trimmed(&parts[i]));
        let word = string_of(&p);
        match modifier_from_word(word.as_str()) {
            Some(m) => {
                match m {
                    Modifier::Control => {
                        mods.ctrl = true;
                    },
                    Modifier::Shift => {
                        mods.shift = true;
                    },
                    Modifier::Alt => {
                        mods.alt = true;
                    },
                    Modifier::Super => {
                        mods.win = true;
                    },
                }
            },
            None => {
                if p.len() > 0 {
                    match code_from_name(&p) {
                        None => {
                            let mut e = "unknown key: ".to_owned();
                            e.append(word.as_str());
                            proof {
                                lemma_failed_reading(all, s@, i + 1);
                            }
                            return Err(e);
                        },
                        Some(c) => {
                            if code.is_some() {
                                let mut e = "multiple keys in shortcut: ".to_owned();
                                e.append(s);
                                proof {
                                    lemma_failed_reading(all, s@, i + 1);
                                }
                                return Err(e);
                            }
                            code = Some(c);
                        },
                    }
                }
            },
        }
    }
    assert(all.take(all.len() as int) =~= all);
    match code {
        None => {
            let mut e = "missing key in shortcut: ".to_owned();
            e.append(s);
            Err(e)
        },
        Some(key) => Ok(Shortcut { mods, key }),
    }
}

/// The parts in which a shortcut is written: its modifiers, in a fixed order,
/// and its key.
pub open spec fn shown_parts(sc: Shortcut) -> Seq<Seq<char>> {
    (if sc.mods.ctrl {
        seq!["Ctrl"@]
    } else {
        seq![]
    }) + (if sc.mods.shift {
        seq!["Shift"@]
    } else {
        seq![]
    }) + (if sc.mods.alt {
        seq!["Alt"@]
    } else {
        seq![]
    }) + (if sc.mods.win {
        seq!["Win"@]
    } else {
        seq![]
    }) + seq![key_name(sc.key)]
}

/// A shortcut as it is shown and stored.
pub open spec fn shown(sc: Shortcut) -> Seq<char> {
    join(shown_parts(sc), "+"@)
}

fn push_word(parts: &mut Vec<Vec<char>>, word: &str)
    ensures
        views(final(parts)@) == views(old(parts)@).push(word@),
{
    parts.push(chars_of(word));
    assert(views(parts@) =~= views(old(parts)@).push(word@));
}

pub fn shortcut_to_string(sc: &Shortcut) -> (r: String)
    ensures
        r@ == shown(*sc),
{
    let mut parts: Vec<Vec<char>> = Vec::new();
    if sc.mods.contains(Modifiers::CONTROL) {
        push_word(&mut parts, "Ctrl");
    }
    if sc.mods.contains(Modifiers::SHIFT) {
        push_word(&mut parts, "Shift");
    }
    if sc.mods.contains(Modifiers::ALT) {
        push_word(&mut parts, "Alt");
    }
    if sc.mods.contains(Modifiers::SUPER) {
        push_word(&mut parts, "Win");
    }
    push_word(&mut parts, name_from_code(sc.key));
    assert(views(parts@) =~= shown_parts(*sc));
    joined(&parts, "+")
}

proof fn lemma_modifier_words()
    ensures
        "ctrl"@ == seq!['c', 't', 'r', 'l'],
        "control"@ == seq!['c', 'o', 'n', 't', 'r', 'o', 'l'],
        "shift"@ == seq!['s', 'h', 'i', 'f', 't'],
        "alt"@ == seq!['a', 'l', 't'],
        "super"@ == seq!['s', 'u', 'p', 'e', 'r'],
        "win"@ == seq!['w', 'i', 'n'],
        "cmd"@ == seq!['c', 'm', 'd'],
{
    reveal_strlit("ctrl");
    reveal_strlit("control");
    reveal_strlit("shift");
    reveal_strlit("alt");
    reveal_strlit("super");
    reveal_strlit("win");
    reveal_strlit("cmd");
    assert("ctrl"@ =~= seq!['c', 't', 'r', 'l']);
    assert("control"@ =~= seq!['c', 'o', 'n', 't', 'r', 'o', 'l']);
    assert("shift"@ =~= seq!['s', 'h', 'i', 'f', 't']);
    assert("alt"@ =~= seq!['a', 'l', 't']);
    assert("super"@ =~= seq!['s', 'u', 'p', 'e', 'r']);
    assert("win"@ =~= seq!['w', 'i', 'n']);
    assert("cmd"@ =~= seq!['c', 'm', 'd']);
}

/// Whether the name of a key can stand in a shortcut: it is no modifier, has no
/// plus sign and no white space at its ends.
pub open spec fn plain_name(s: Seq<char>) -> bool {
    &&& s.len() > 0
    &&& trim_free(s)
    &&& lacks(s, '+')
    &&& !is_modifier(lowercase(s))
}

proof fn lemma_short_name(code: Code)
    requires
        key_name(code).len() == 1,
    ensures
        key_named(lowercase(key_name(code))) == Some(code),
        plain_name(key_name(code)),
{
    lemma_modifier_words();
    let s = key_name(code);
    let n = lowercase(s);
    assert(n.len() == 1);
    match code {
        Code::KeyA => {
            reveal_strlit("a");
            assert(s[0] == 'a' && n[0] == 'a');
        },
        Code::KeyB => {
            reveal_strlit("b");
            assert(s[0] == 'b' && n[0] == 'b');
        },
        Code::KeyC => {
            reveal_strlit("c");
            assert(s[0] == 'c' && n[0] == 'c');
        },
        Code::KeyD => {
            reveal_strlit("d");
            assert(s[0] == 'd' && n[0] == 'd');
        },
        Code::KeyE => {
            reveal_strlit("e");
            assert(s[0] == 'e' && n[0] == 'e');
        },
        Code::KeyF => {
            reveal_strlit("f");
            assert(s[0] == 'f' && n[0] == 'f');
        },
        Code::KeyG => {
            reveal_strlit("g");
            assert(s[0] == 'g' && n[0] == 'g');
        },
        Code::KeyH => {
            reveal_strlit("h");
            assert(s[0] == 'h' && n[0] == 'h');
        },
        Code::KeyI => {
            reveal_strlit("i");
            assert(s[0] == 'i' && n[0] == 'i');
        },
        Code::KeyJ => {
            reveal_strlit("j");
            assert(s[0] == 'j' && n[0] == 'j');
        },
        Code::KeyK => {
            reveal_strlit("k");
            assert(s[0] == 'k' && n[0] == 'k');
        },
        Code::KeyL => {
            reveal_strlit("l");
            assert(s[0] == 'l' && n[0] == 'l');
        },
        Code::KeyM => {
            reveal_strlit("m");
            assert(s[0] == 'm' && n[0] == 'm');
        },
        Code::KeyN => {
            reveal_strlit("n");
            assert(s[0] == 'n' && n[0] == 'n');
        },
        Code::KeyO => {
            reveal_strlit("o");
            assert(s[0] == 'o' && n[0] == 'o');
        },
        Code::KeyP => {
            reveal_strlit("p");
            assert(s[0] == 'p' && n[0] == 'p');
        },
        Code::KeyQ => {
            reveal_strlit("q");
            assert(s[0] == 'q' && n[0] == 'q');
        },
        Code::KeyR => {
            reveal_strlit("r");
            assert(s[0] == 'r' && n[0] == 'r');
        },
        Code::KeyS => {
            reveal_strlit("s");
            assert(s[0] == 's' && n[0] == 's');
        },
        Code::KeyT => {
            reveal_strlit("t");
            assert(s[0] == 't' && n[0] == 't');
        },
        Code::KeyU => {
            reveal_strlit("u");
            assert(s[0] == 'u' && n[0] == 'u');
        },
        Code::KeyV => {
            reveal_strlit("v");
            assert(s[0] == 'v' && n[0] == 'v');
        },
        Code::KeyW => {
            reveal_strlit("w");
            assert(s[0] == 'w' && n[0] == 'w');
        },
        Code::KeyX => {
            reveal_strlit("x");
            assert(s[0] == 'x' && n[0] == 'x');
        },
        Code::KeyY => {
            reveal_strlit("y");
            assert(s[0] == 'y' && n[0] == 'y');
        },
        Code::KeyZ => {
            reveal_strlit("z");
            assert(s[0] == 'z' && n[0] == 'z');
        },
        Code::Digit0 => {
            reveal_strlit("0");
            assert(s[0] == '0' && n[0] == '0');
        },
        Code::Digit1 => {
            reveal_strlit("1");
            assert(s[0] == '1' && n[0] == '1');
        },
        Code::Digit2 => {
            reveal_strlit("2");
            assert(s[0] == '2' && n[0] == '2');
        },
        Code::Digit3 => {
            reveal_strlit("3");
            assert(s[0] == '3' && n[0] == '3');
        },
        Code::Digit4 => {
            reveal_strlit("4");
            assert(s[0] == '4' && n[0] == '4');
        },
        Code::Digit5 => {
            reveal_strlit("5");
            assert(s[0] == '5' && n[0] == '5');
        },
        Code::Digit6 => {
            reveal_strlit("6");
            assert(s[0] == '6' && n[0] == '6');
        },
        Code::Digit7 => {
            reveal_strlit("7");
            assert(s[0] == '7' && n[0] == '7');
        },
        Code::Digit8 => {
            reveal_strlit("8");
            assert(s[0] == '8' && n[0] == '8');
        },
        Code::Digit9 => {
            reveal_strlit("9");
            assert(s[0] == '9' && n[0] == '9');
        },
        Code::Backquote => {
            reveal_strlit("`");
            assert(s[0] == '`' && n[0] == '`');
        },
        Code::Minus => {
            reveal_strlit("-");
            assert(s[0] == '-' && n[0] == '-');
        },
        Code::Equal => {
            reveal_strlit("=");
            assert(s[0] == '=' && n[0] == '=');
        },
        Code::BracketLeft => {
            reveal_strlit("[");
            assert(s[0] == '[' && n[0] == '[');
        },
        Code::BracketRight => {
            reveal_strlit("]");
            assert(s[0] == ']' && n[0] == ']');
        },
        Code::Backslash => {
            reveal_strlit("\\");
            assert(s[0] == '\\' && n[0] == '\\');
        },
        Code::Semicolon => {
            reveal_strlit(";");
            assert(s[0] == ';' && n[0] == ';');
        },
        Code::Quote => {
            reveal_strlit("'");
            assert(s[0] == '\'' && n[0] == '\'');
        },
        Code::Comma => {
            reveal_strlit(",");
            assert(s[0] == ',' && n[0] == ',');
        },
        Code::Period => {
            reveal_strlit(".");
            assert(s[0] == '.' && n[0] == '.');
        },
        Code::Slash => {
            reveal_strlit("/");
            assert(s[0] == '/' && n[0] == '/');
        },
        _ => {
            reveal_strlit("Space");
            reveal_strlit("Enter");
            reveal_strlit("Tab");
            reveal_strlit("Esc");
            reveal_strlit("Backspace");
            reveal_strlit("Delete");
            reveal_strlit("Home");
            reveal_strlit("End");
            reveal_strlit("PageUp");
            reveal_strlit("PageDown");
            reveal_strlit("Insert");
            reveal_strlit("Up");
            reveal_strlit("Down");
            reveal_strlit("Left");
            reveal_strlit("Right");
            reveal_strlit("F1");
            reveal_strlit("F2");
            reveal_strlit("F3");
            reveal_strlit("F4");
            reveal_strlit("F5");
            reveal_strlit("F6");
            reveal_strlit("F7");
            reveal_strlit("F8");
            reveal_strlit("F9");
            reveal_strlit("F10");
            reveal_strlit("F11");
            reveal_strlit("F12");
            reveal_strlit("F13");
            reveal_strlit("F14");
            reveal_strlit("F15");
            reveal_strlit("F16");
            reveal_strlit("F17");
            reveal_strlit("F18");
            reveal_strlit("F19");
            reveal_strlit("F20");
            reveal_strlit("F21");
            reveal_strlit("F22");
            reveal_strlit("F23");
            reveal_strlit("F24");
        },
    }
}

proof fn lemma_long_name(code: Code)
    requires
        key_name(code).len() != 1,
    ensures
        key_named(lowercase(key_name(code))) == Some(code),
        plain_name(key_name(code)),
{
    lemma_modifier_words();
    let s = key_name(code);
    let n = lowercase(s);
    reveal_strlit("space");
    reveal_strlit("enter");
    reveal_strlit("tab");
    reveal_strlit("escape");
    reveal_strlit("esc");
    reveal_strlit("backspace");
    reveal_strlit("delete");
    reveal_strlit("home");
    reveal_strlit("end");
    reveal_strlit("pageup");
    reveal_strlit("pagedown");
    reveal_strlit("insert");
    reveal_strlit("up");
    reveal_strlit("arrowup");
    reveal_strlit("down");
    reveal_strlit("arrowdown");
    reveal_strlit("left");
    reveal_strlit("arrowleft");
    reveal_strlit("right");
    reveal_strlit("arrowright");
    reveal_strlit("f1");
    reveal_strlit("f2");
    reveal_strlit("f3");
    reveal_strlit("f4");
    reveal_strlit("f5");
    reveal_strlit("f6");
    reveal_strlit("f7");
    reveal_strlit("f8");
    reveal_strlit("f9");
    reveal_strlit("f10");
    reveal_strlit("f11");
    reveal_strlit("f12");
    reveal_strlit("f13");
    reveal_strlit("f14");
    reveal_strlit("f15");
    reveal_strlit("f16");
    reveal_strlit("f17");
    reveal_strlit("f18");
    reveal_strlit("f19");
    reveal_strlit("f20");
    reveal_strlit("f21");
    reveal_strlit("f22");
    reveal_strlit("f23");
    reveal_strlit("f24");
    match code {
        Code::Space => {
            reveal_strlit("Space");
            assert(n =~= "space"@);
            assert(n[0] == 's' && n[1] == 'p' && n[2] == 'a' && n[3] == 'c' && n[4] == 'e');
        },
        Code::Enter => {
            reveal_strlit("Enter");
            assert(n =~= "enter"@);
            assert(n[0] == 'e' && n[1] == 'n' && n[2] == 't' && n[3] == 'e' && n[4] == 'r');
        },
        Code::Tab => {
            reveal_strlit("Tab");
            assert(n =~= "tab"@);
            assert(n[0] == 't' && n[1] == 'a' && n[2] == 'b');
        },
        Code::Escape => {
            reveal_strlit("Esc");
            assert(n =~= "esc"@);
            assert(n[0] == 'e' && n[1] == 's' && n[2] == 'c');
        },
        Code::Backspace => {
            reveal_strlit("Backspace");
            assert(n =~= "backspace"@);
            assert(n[0] == 'b' && n[1] == 'a' && n[2] == 'c' && n[3] == 'k' && n[4] == 's' && n[5] == 'p' && n[6] == 'a' && n[7] == 'c' && n[8] == 'e');
        },
        Code::Delete => {
            reveal_strlit("Delete");
            assert(n =~= "delete"@);
            assert(n[0] == 'd' && n[1] == 'e' && n[2] == 'l' && n[3] == 'e' && n[4] == 't' && n[5] == 'e');
        },
        Code::Home => {
            reveal_strlit("Home");
            assert(n =~= "home"@);
            assert(n[0] == 'h' && n[1] == 'o' && n[2] == 'm' && n[3] == 'e');
        },
        Code::End => {
            reveal_strlit("End");
            assert(n =~= "end"@);
            assert(n[0] == 'e' && n[1] == 'n' && n[2] == 'd');
        },
        Code::PageUp => {
            reveal_strlit("PageUp");
            assert(n =~= "pageup"@);
            assert(n[0] == 'p' && n[1] == 'a' && n[2] == 'g' && n[3] == 'e' && n[4] == 'u' && n[5] == 'p');
        },
        Code::PageDown => {
            reveal_strlit("PageDown");
            assert(n =~= "pagedown"@);
            assert(n[0] == 'p' && n[1] == 'a' && n[2] == 'g' && n[3] == 'e' && n[4] == 'd' && n[5] == 'o' && n[6] == 'w' && n[7] == 'n');
        },
        Code::Insert => {
            reveal_strlit("Insert");
            assert(n =~= "insert"@);
            assert(n[0] == 'i' && n[1] == 'n' && n[2] == 's' && n[3] == 'e' && n[4] == 'r' && n[5] == 't');
        },
        Code::ArrowUp => {
            reveal_strlit("Up");
            assert(n =~= "up"@);
            assert(n[0] == 'u' && n[1] == 'p');
        },
        Code::ArrowDown => {
            reveal_strlit("Down");
            assert(n =~= "down"@);
            assert(n[0] == 'd' && n[1] == 'o' && n[2] == 'w' && n[3] == 'n');
        },
        Code::ArrowLeft => {
            reveal_strlit("Left");
            assert(n =~= "left"@);
            assert(n[0] == 'l' && n[1] == 'e' && n[2] == 'f' && n[3] == 't');
        },
        Code::ArrowRight => {
            reveal_strlit("Right");
            assert(n =~= "right"@);
            assert(n[0] == 'r' && n[1] == 'i' && n[2] == 'g' && n[3] == 'h' && n[4] == 't');
        },
        Code::F1 => {
            reveal_strlit("F1");
            assert(n =~= "f1"@);
            assert(n[0] == 'f' && n[1] == '1');
        },
        Code::F2 => {
            reveal_strlit("F2");
            assert(n =~= "f2"@);
            assert(n[0] == 'f' && n[1] == '2');
        },
        Code::F3 => {
            reveal_strlit("F3");
            assert(n =~= "f3"@);
            assert(n[0] == 'f' && n[1] == '3');
        },
        Code::F4 => {
            reveal_strlit("F4");
            assert(n =~= "f4"@);
            assert(n[0] == 'f' && n[1] == '4');
        },
        Code::F5 => {
            reveal_strlit("F5");
            assert(n =~= "f5"@);
            assert(n[0] == 'f' && n[1] == '5');
        },
        Code::F6 => {
            reveal_strlit("F6");
            assert(n =~= "f6"@);
            assert(n[0] == 'f' && n[1] == '6');
        },
        Code::F7 => {
            reveal_strlit("F7");
            assert(n =~= "f7"@);
            assert(n[0] == 'f' && n[1] == '7');
        },
        Code::F8 => {
            reveal_strlit("F8");
            assert(n =~= "f8"@);
            assert(n[0] == 'f' && n[1] == '8');
        },
        Code::F9 => {
            reveal_strlit("F9");
            assert(n =~= "f9"@);
            assert(n[0] == 'f' && n[1] == '9');
        },
        Code::F10 => {
            reveal_strlit("F10");
            assert(n =~= "f10"@);
            assert(n[0] == 'f' && n[1] == '1' && n[2] == '0');
        },
        Code::F11 => {
            reveal_strlit("F11");
            assert(n =~= "f11"@);
            assert(n[0] == 'f' && n[1] == '1' && n[2] == '1');
        },
        Code::F12 => {
            reveal_strlit("F12");
            assert(n =~= "f12"@);
            assert(n[0] == 'f' && n[1] == '1' && n[2] == '2');
        },
        Code::F13 => {
            reveal_strlit("F13");
            assert(n =~= "f13"@);
            assert(n[0] == 'f' && n[1] == '1' && n[2] == '3');
        },
        Code::F14 => {
            reveal_strlit("F14");
            assert(n =~= "f14"@);
            assert(n[0] == 'f' && n[1] == '1' && n[2] == '4');
        },
        Code::F15 => {
            reveal_strlit("F15");
            assert(n =~= "f15"@);
            assert(n[0] == 'f' && n[1] == '1' && n[2] == '5');
        },
        Code::F16 => {
            reveal_strlit("F16");
            assert(n =~= "f16"@);
            assert(n[0] == 'f' && n[1] == '1' && n[2] == '6');
        },
        Code::F17 => {
            reveal_strlit("F17");
            assert(n =~= "f17"@);
            assert(n[0] == 'f' && n[1] == '1' && n[2] == '7');
        },
        Code::F18 => {
            reveal_strlit("F18");
            assert(n =~= "f18"@);
            assert(n[0] == 'f' && n[1] == '1' && n[2] == '8');
        },
        Code::F19 => {
            reveal_strlit("F19");
            assert(n =~= "f19"@);
            assert(n[0] == 'f' && n[1] == '1' && n[2] == '9');
        },
        Code::F20 => {
            reveal_strlit("F20");
            assert(n =~= "f20"@);
            assert(n[0] == 'f' && n[1] == '2' && n[2] == '0');
        },
        Code::F21 => {
            reveal_strlit("F21");
            assert(n =~= "f21"@);
            assert(n[0] == 'f' && n[1] == '2' && n[2] == '1');
        },
        Code::F22 => {
            reveal_strlit("F22");
            assert(n =~= "f22"@);
            assert(n[0] == 'f' && n[1] == '2' && n[2] == '2');
        },
        Code::F23 => {
            reveal_strlit("F23");
            assert(n =~= "f23"@);
            assert(n[0] == 'f' && n[1] == '2' && n[2] == '3');
        },
        Code::F24 => {
            reveal_strlit("F24");
            assert(n =~= "f24"@);
            assert(n[0] == 'f' && n[1] == '2' && n[2] == '4');
        },
        _ => {
            reveal_strlit("a");
            reveal_strlit("b");
            reveal_strlit("c");
            reveal_strlit("d");
            reveal_strlit("e");
            reveal_strlit("f");
            reveal_strlit("g");
            reveal_strlit("h");
            reveal_strlit("i");
            reveal_strlit("j");
            reveal_strlit("k");
            reveal_strlit("l");
            reveal_strlit("m");
            reveal_strlit("n");
            reveal_strlit("o");
            reveal_strlit("p");
            reveal_strlit("q");
            reveal_strlit("r");
            reveal_strlit("s");
            reveal_strlit("t");
            reveal_strlit("u");
            reveal_strlit("v");
            reveal_strlit("w");
            reveal_strlit("x");
            reveal_strlit("y");
            reveal_strlit("z");
            reveal_strlit("0");
            reveal_strlit("1");
            reveal_strlit("2");
            reveal_strlit("3");
            reveal_strlit("4");
            reveal_strlit("5");
            reveal_strlit("6");
            reveal_strlit("7");
            reveal_strlit("8");
            reveal_strlit("9");
            reveal_strlit("`");
            reveal_strlit("-");
            reveal_strlit("=");
            reveal_strlit("[");
            reveal_strlit("]");
            reveal_strlit("\\");
            reveal_strlit(";");
            reveal_strlit("'");
            reveal_strlit(",");
            reveal_strlit(".");
            reveal_strlit("/");
        },
    }
}

/// Reading the shown name of a key gives the key back.
pub proof fn law_key_names_are_read_back(code: Code)
    ensures
        key_named(lowercase(key_name(code))) == Some(code),
        plain_name(key_name(code)),
{
    if key_name(code).len() == 1 {
        lemma_short_name(code);
    } else {
        lemma_long_name(code);
    }
}

proof fn lemma_read_one_more(parts: Seq<Seq<char>>, part: Seq<char>, whole: Seq<char>)
    ensures
        read_parts(parts.push(part), whole) == read_part(read_parts(parts, whole), part, whole),
{
    assert(parts.push(part).drop_last() =~= parts);
}

proof fn lemma_modifier_parts()
    ensures
        modifier_named(lowercase(trim("Ctrl"@))) == Some(Modifier::Control),
        modifier_named(lowercase(trim("Shift"@))) == Some(Modifier::Shift),
        modifier_named(lowercase(trim("Alt"@))) == Some(Modifier::Alt),
        modifier_named(lowercase(trim("Win"@))) == Some(Modifier::Super),
        lacks("Ctrl"@, '+') && lacks("Shift"@, '+') && lacks("Alt"@, '+') && lacks("Win"@, '+'),
{
    lemma_modifier_words();
    reveal_strlit("Ctrl");
    reveal_strlit("Shift");
    reveal_strlit("Alt");
    reveal_strlit("Win");
    lemma_trim("Ctrl"@);
    lemma_trim("Shift"@);
    lemma_trim("Alt"@);
    lemma_trim("Win"@);
    assert(lowercase("Ctrl"@) =~= "ctrl"@);
    assert(lowercase("Shift"@) =~= "shift"@);
    assert(lowercase("Alt"@) =~= "alt"@);
    assert(lowercase("Win"@) =~= "win"@);
    assert("shift"@[0] == 's' && "ctrl"@[0] == 'c');
    assert("alt"@[0] == 'a' && "win"@[0] == 'w' && "cmd"@[0] == 'c');
    assert("super"@[1] == 'u' && "shift"@[1] == 'h');
}

/// A shortcut that is written down and read again is the same shortcut.
pub proof fn law_shortcuts_are_read_back(sc: Shortcut)
    ensures
        parsed(shown(sc)) == Ok::<Shortcut, Seq<char>>(sc),
{
    let w = shown(sc);
    let m = sc.mods;
    let p0 = Seq::<Seq<char>>::empty();
    lemma_modifier_parts();
    law_key_names_are_read_back(sc.key);
    lemma_trim(key_name(sc.key));
    lemma_read_one_more(p0, "Ctrl"@, w);
    let p1 = if m.ctrl {
        p0.push("Ctrl"@)
    } else {
        p0
    };
    assert(read_parts(p1, w) == Ok::<(Modifiers, Option<Code>), Seq<char>>(
        (Modifiers { ctrl: m.ctrl, ..no_modifiers() }, None),
    ));
    lemma_read_one_more(p1, "Shift"@, w);
    let p2 = if m.shift {
        p1.push("Shift"@)
    } else {
        p1
    };
    assert(read_parts(p2, w) == Ok::<(Modifiers, Option<Code>), Seq<char>>(
        (Modifiers { ctrl: m.ctrl, shift: m.shift, ..no_modifiers() }, None),
    ));
    lemma_read_one_more(p2, "Alt"@, w);
    let p3 = if m.alt {
        p2.push("Alt"@)
    } else {
        p2
    };
    assert(read_parts(p3, w) == Ok::<(Modifiers, Option<Code>), Seq<char>>(
        (Modifiers { ctrl: m.ctrl, shift: m.shift, alt: m.alt, win: false }, None),
    ));
    lemma_read_one_more(p3, "Win"@, w);
    let p4 = if m.win {
        p3.push("Win"@)
    } else {
        p3
    };
    assert(read_parts(p4, w) == Ok::<(Modifiers, Option<Code>), Seq<char>>((m, None)));
    lemma_read_one_more(p4, key_name(sc.key), w);
    let p5 = p4.push(key_name(sc.key));
    assert(lowercase(key_name(sc.key)).len() > 0);
    assert(read_parts(p5, w) == Ok::<(Modifiers, Option<Code>), Seq<char>>((m, Some(sc.key))));
    assert(p5 =~= shown_parts(sc));
    reveal_strlit("+");
    assert("+"@ =~= seq!['+']);
    assert forall|k: int| 0 <= k < p5.len() implies lacks(#[trigger] p5[k], '+') by {
    }
    lemma_split_join(p5, '+');
}

/// The hotkey that starts a capture, where one is registered.
pub struct CurrentShortcut(pub Option<Shortcut>);

/// The shortcut that captures a region unless another is set: Ctrl+Shift+4.
pub open spec fn default_shortcut() -> Shortcut {
    Shortcut {
        mods: Modifiers { ctrl: true, shift: true, alt: false, win: false },
        key: Code::Digit4,
    }
}

/// The shortcut in force: none before one was set.
pub fn current(state: Option<&CurrentShortcut>) -> (r: Option<Shortcut>)
    ensures
        r == (match state {
            Some(s) => s.0,
            None => None,
        }),
{
    match state {
        Some(s) => s.0,
        None => None,
    }
}

/// The shortcut to register at startup: the configured one, or the default
/// where that cannot be read.
pub fn init(settings: &Settings) -> (r: CurrentShortcut)
    ensures
        r.0 == Some(
            match parsed(settings.hotkey@) {
                Ok(sc) => sc,
                Err(_) => default_shortcut(),
            },
        ),
{
    match parse_shortcut(settings.hotkey.as_str()) {
        Ok(sc) => CurrentShortcut(Some(sc)),
        Err(_) => CurrentShortcut(
            Some(
                Shortcut {
                    mods: Modifiers { ctrl: true, shift: true, alt: false, win: false },
                    key: Code::Digit4,
                },
            ),
        ),
    }
}

/// What the user is told when another app holds the hotkey.
pub fn conflict_toast(sc: &Shortcut) -> (p: ToastPayload)
    ensures
        p.says(
            "error"@,
            "Hotkey "@ + shown(*sc)
                + " is already in use by another app. Choose another in Settings."@,
        ),
{
    let mut m = "Hotkey ".to_owned();
    m.append(shortcut_to_string(sc).as_str());
    m.append(" is already in use by another app. Choose another in Settings.");
    payload("error", m.as_str())
}

/// Claims the capture flow: only one capture runs at a time. Returns whether
/// the caller is to run it.
pub fn trigger_capture(capturing: &mut bool) -> (start: bool)
    ensures
        *final(capturing),
        start == !*old(capturing),
{
    let start = !*capturing;
    *capturing = true;
    start
}

/// Gives the capture flow free again.
pub fn capture_done(capturing: &mut bool)
    ensures
        !*final(capturing),
{
    *capturing = false;
}

/// A change of the hotkey: what to unregister, and what to register.
#[derive(Clone, Copy, Debug)]
pub struct HotkeyChange {
    pub unregister: Option<Shortcut>,
    pub register: Shortcut,
}

/// The change to another hotkey. The old one goes first, so that registering
/// the same key again succeeds. A text that names no shortcut changes nothing.
pub fn plan_change(state: &CurrentShortcut, hotkey_str: &str) -> (r: Result<HotkeyChange, String>)
    ensures
        match r {
            Ok(c) => parsed(hotkey_str@) == Ok::<Shortcut, Seq<char>>(c.register) && c.unregister
                == state.0,
            Err(e) => parsed(hotkey_str@) == Err::<Shortcut, Seq<char>>(e@),
        },
{
    match parse_shortcut(hotkey_str) {
        Ok(sc) => Ok(HotkeyChange { unregister: state.0, register: sc }),
        Err(e) => Err(e),
    }
}

/// Takes the outcome of registering another hotkey: it is in force, or the old
/// one stays, and is to be registered again.
pub fn apply_settings(
    state: &mut CurrentShortcut,
    change: &HotkeyChange,
    hotkey_str: &str,
    registered: Result<(), String>,
) -> (r: (Option<Shortcut>, Result<(), String>))
    ensures
        match registered {
            Ok(_) => final(state).0 == Some(change.register) && r.0 is None && r.1 is Ok,
            Err(e) => {
                &&& final(state).0 == old(state).0
                &&& r.0 == change.unregister
                &&& r.1 matches Err(m) && m@ == "Could not register "@ + hotkey_str@ + ": "@ + e@
            },
        },
{
    match registered {
        Ok(_) => {
            state.0 = Some(change.register);
            (None, Ok(()))
        },
        Err(e) => {
            let mut m = "Could not register ".to_owned();
            m.append(hotkey_str);
            m.append(": ");
            m.append(e.as_str());
            (change.unregister, Err(m))
        },
    }
}

/// What pausing or resuming does to the hotkey.
#[derive(Clone, Copy, Debug, PartialEq, Eq, Structural)]
pub enum PauseAction {
    Unregister(Shortcut),
    Register(Shortcut),
    Nothing,
}

pub fn pause(state: &CurrentShortcut, paused: bool) -> (r: PauseAction)
    ensures
        r == (match state.0 {
            Some(sc) => if paused {
                PauseAction::Unregister(sc)
            } else {
                PauseAction::Register(sc)
            },
            None => PauseAction::Nothing,
        }),
{
    match state.0 {
        Some(sc) => if paused {
            PauseAction::Unregister(sc)
        } else {
            PauseAction::Register(sc)
        },
        None => PauseAction::Nothing,
    }
}

/// What the global Esc key does. It is never seen by the windows, so it goes
/// to whatever it would have dismissed there.
#[derive(Clone, Copy, Debug, PartialEq, Eq, Structural)]
pub enum EscAction {
    CancelOverlay,
    CancelEditor,
    HideThumbnail,
    Nothing,
}

pub fn esc_pressed(
    pressed: bool,
    overlay_running: bool,
    editor_visible: bool,
    thumbnail_visible: bool,
) -> (r: EscAction)
    ensures
        r == (if !pressed {
            EscAction::Nothing
        } else if overlay_running {
            EscAction::CancelOverlay
        } else if editor_visible {
            EscAction::CancelEditor
        } else if thumbnail_visible {
            EscAction::HideThumbnail
        } else {
            EscAction::Nothing
        }),
{
    if !pressed {
        EscAction::Nothing
    } else if overlay_running {
        EscAction::CancelOverlay
    } else if editor_visible {
        EscAction::CancelEditor
    } else if thumbnail_visible {
        EscAction::HideThumbnail
    } else {
        EscAction::Nothing
    }
}

/// Claims the Esc hotkey, once: returns the shortcut to register, or nothing
/// where it is registered already.
pub fn register_esc_hotkey(registered: &mut bool) -> (r: Option<Shortcut>)
    ensures
        *final(registered),
        r == (if *old(registered) {
            None
        } else {
            Some(Shortcut { mods: no_modifiers(), key: Code::Escape })
        }),
{
    if *registered {
        return None;
    }
    *registered = true;
    Some(
        Shortcut {
            mods: Modifiers { ctrl: false, shift: false, alt: false, win: false },
            key: Code::Escape,
        },
    )
}

/// Takes the outcome of registering the Esc hotkey: after a failure it can be
/// tried again.
pub fn esc_registered(registered: &mut bool, ok: bool)
    ensures
        *final(registered) == (*old(registered) && ok),
{
    *registered = *registered && ok;
}

/// Letters and digits name the keys that they are printed on.
pub proof fn law_letters_and_digits_name_their_keys()
    ensures
        char_key('a') == Some(Code::KeyA),
        char_key('b') == Some(Code::KeyB),
        char_key('c') == Some(Code::KeyC),
        char_key('d') == Some(Code::KeyD),
        char_key('e') == Some(Code::KeyE),
        char_key('f') == Some(Code::KeyF),
        char_key('g') == Some(Code::KeyG),
        char_key('h') == Some(Code::KeyH),
        char_key('i') == Some(Code::KeyI),
        char_key('j') == Some(Code::KeyJ),
        char_key('k') == Some(Code::KeyK),
        char_key('l') == Some(Code::KeyL),
        char_key('m') == Some(Code::KeyM),
        char_key('n') == Some(Code::KeyN),
        char_key('o') == Some(Code::KeyO),
        char_key('p') == Some(Code::KeyP),
        char_key('q') == Some(Code::KeyQ),
        char_key('r') == Some(Code::KeyR),
        char_key('s') == Some(Code::KeyS),
        char_key('t') == Some(Code::KeyT),
        char_key('u') == Some(Code::KeyU),
        char_key('v') == Some(Code::KeyV),
        char_key('w') == Some(Code::KeyW),
        char_key('x') == Some(Code::KeyX),
        char_key('y') == Some(Code::KeyY),
        char_key('z') == Some(Code::KeyZ),
        char_key('0') == Some(Code::Digit0),
        char_key('1') == Some(Code::Digit1),
        char_key('2') == Some(Code::Digit2),
        char_key('3') == Some(Code::Digit3),
        char_key('4') == Some(Code::Digit4),
        char_key('5') == Some(Code::Digit5),
        char_key('6') == Some(Code::Digit6),
        char_key('7') == Some(Code::Digit7),
        char_key('8') == Some(Code::Digit8),
        char_key('9') == Some(Code::Digit9),
{
}

/// The other keys are shown under the names that are printed on them.
pub proof fn law_other_keys_are_shown_by_name()
    ensures
        key_name(Code::Space) == "Space"@,
        key_name(Code::Enter) == "Enter"@,
        key_name(Code::Tab) == "Tab"@,
        key_name(Code::Escape) == "Esc"@,
        key_name(Code::Backspace) == "Backspace"@,
        key_name(Code::Delete) == "Delete"@,
        key_name(Code::Home) == "Home"@,
        key_name(Code::End) == "End"@,
        key_name(Code::PageUp) == "PageUp"@,
        key_name(Code::PageDown) == "PageDown"@,
        key_name(Code::Insert) == "Insert"@,
        key_name(Code::ArrowUp) == "Up"@,
        key_name(Code::ArrowDown) == "Down"@,
        key_name(Code::ArrowLeft) == "Left"@,
        key_name(Code::ArrowRight) == "Right"@,
        key_name(Code::F1) == "F1"@,
        key_name(Code::F2) == "F2"@,
        key_name(Code::F3) == "F3"@,
        key_name(Code::F4) == "F4"@,
        key_name(Code::F5) == "F5"@,
        key_name(Code::F6) == "F6"@,
        key_name(Code::F7) == "F7"@,
        key_name(Code::F8) == "F8"@,
        key_name(Code::F9) == "F9"@,
        key_name(Code::F10) == "F10"@,
        key_name(Code::F11) == "F11"@,
        key_name(Code::F12) == "F12"@,
        key_name(Code::F13) == "F13"@,
        key_name(Code::F14) == "F14"@,
        key_name(Code::F15) == "F15"@,
        key_name(Code::F16) == "F16"@,
        key_name(Code::F17) == "F17"@,
        key_name(Code::F18) == "F18"@,
        key_name(Code::F19) == "F19"@,
        key_name(Code::F20) == "F20"@,
        key_name(Code::F21) == "F21"@,
        key_name(Code::F22) == "F22"@,
        key_name(Code::F23) == "F23"@,
        key_name(Code::F24) == "F24"@,
{
}

/// What a further part of a shortcut does: the name of a modifier holds it and
/// changes nothing else, the name of a key is taken if there is none yet, and
/// anything else is refused; an empty part does nothing.
pub proof fn law_parts_are_read_one_by_one(
    parts: Seq<Seq<char>>,
    part: Seq<char>,
    whole: Seq<char>,
    mods: Modifiers,
    code: Option<Code>,
)
    requires
        read_parts(parts, whole) == Ok::<(Modifiers, Option<Code>), Seq<char>>((mods, code)),
    ensures
        ({
            let word = lowercase(trim(part));
            let r = read_parts(parts.push(part), whole);
            &&& word == "ctrl"@ || word == "control"@ ==> (r matches Ok((m, c)) && c == code && m.ctrl
                && m.shift == mods.shift && m.alt == mods.alt && m.win == mods.win)
            &&& word == "shift"@ ==> (r matches Ok((m, c)) && c == code && m.shift && m.ctrl
                == mods.ctrl && m.alt == mods.alt && m.win == mods.win)
            &&& word == "alt"@ ==> (r matches Ok((m, c)) && c == code && m.alt && m.ctrl == mods.ctrl
                && m.shift == mods.shift && m.win == mods.win)
            &&& word == "win"@ || word == "super"@ || word == "cmd"@ ==> (r matches Ok((m, c)) && c
                == code && m.win && m.ctrl == mods.ctrl && m.shift == mods.shift && m.alt
                == mods.alt)
            &&& word.len() == 0 ==> (r matches Ok((m, c)) && c == code && m == mods)
            &&& word.len() == 1 && char_key(word[0]) is Some ==> if code is Some {
                r is Err
            } else {
                r matches Ok((m, c)) && m == mods && c == char_key(word[0])
            }
            &&& word.len() == 1 && char_key(word[0]) is None ==> r is Err
        }),
{
    lemma_read_one_more(parts, part, whole);
    lemma_modifier_words();
    assert("ctrl"@.len() == 4 && "control"@.len() == 7 && "shift"@.len() == 5 && "alt"@.len() == 3);
    assert("super"@.len() == 5 && "win"@.len() == 3 && "cmd"@.len() == 3);
    assert("shift"@[1] == 'h' && "super"@[1] == 'u');
    assert("alt"@[0] == 'a' && "win"@[0] == 'w' && "cmd"@[0] == 'c');
}

/// A shortcut has a key: a text that names none is refused, and so is every text
/// once one of its parts is.
pub proof fn law_shortcuts_have_one_key(s: Seq<char>)
    ensures
        parsed(s) matches Ok(sc) ==> read_parts(split(s, '+'), s) == Ok::<
            (Modifiers, Option<Code>),
            Seq<char>,
        >((sc.mods, Some(sc.key))),
        read_parts(split(s, '+'), s) is Err ==> parsed(s) is Err,
        (read_parts(split(s, '+'), s) matches Ok((m, c)) && c is None) ==> parsed(s) is Err,
{
}

/// A shortcut is written with its modifiers before its key, each once.
pub proof fn law_shortcuts_are_written_in_order(sc: Shortcut)
    ensures
        shown_parts(sc).last() == key_name(sc.key),
        sc.mods.ctrl ==> shown_parts(sc)[0] == "Ctrl"@,
        !sc.mods.ctrl && sc.mods.shift ==> shown_parts(sc)[0] == "Shift"@,
        !sc.mods.ctrl && !sc.mods.shift && sc.mods.alt ==> shown_parts(sc)[0] == "Alt"@,
        !sc.mods.ctrl && !sc.mods.shift && !sc.mods.alt && sc.mods.win ==> shown_parts(sc)[0]
            == "Win"@,
        shown_parts(sc).len() == 1 + (if sc.mods.ctrl {
            1int
        } else {
            0
        }) + (if sc.mods.shift {
            1int
        } else {
            0
        }) + (if sc.mods.alt {
            1int
        } else {
            0
        }) + (if sc.mods.win {
            1int
        } else {
            0
        }),
        sc.mods.has(Modifier::Control) == sc.mods.ctrl,
        sc.mods.has(Modifier::Shift) == sc.mods.shift,
        sc.mods.has(Modifier::Alt) == sc.mods.alt,
        sc.mods.has(Modifier::Super) == sc.mods.win,
{
}

} // verus!

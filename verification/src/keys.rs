//! Keys as the client sees them, the bytes a key sends to a terminal,
//! and how a key is written in the status bar and in messages.

use vstd::prelude::*;
use vstd::utf8::encode_scalar;

use crate::text::{decimal, push_decimal};

verus! {

/// A media key.
#[derive(Debug, Clone, Copy, PartialEq, Eq, Structural)]
pub enum MediaKeyCode {
    Play,
    Pause,
    PlayPause,
    Reverse,
    Stop,
    FastForward,
    Rewind,
    TrackNext,
    TrackPrevious,
    Record,
    LowerVolume,
    RaiseVolume,
    MuteVolume,
}

/// A modifier key pressed on its own.
#[derive(Debug, Clone, Copy, PartialEq, Eq, Structural)]
pub enum ModifierKeyCode {
    LeftShift,
    LeftControl,
    LeftAlt,
    LeftSuper,
    LeftHyper,
    LeftMeta,
    RightShift,
    RightControl,
    RightAlt,
    RightSuper,
    RightHyper,
    RightMeta,
    IsoLevel3Shift,
    IsoLevel5Shift,
}

/// A key.
#[derive(Debug, Clone, Copy, PartialEq, Eq, Structural)]
pub enum KeyCode {
    Backspace,
    Enter,
    Left,
    Right,
    Up,
    Down,
    Home,
    End,
    PageUp,
    PageDown,
    Tab,
    BackTab,
    Delete,
    Insert,
    /// A function key: `F(1)` is F1.
    F(u8),
    /// A character key.
    Char(char),
    Null,
    Esc,
    CapsLock,
    ScrollLock,
    NumLock,
    PrintScreen,
    Pause,
    Menu,
    KeypadBegin,
    Media(MediaKeyCode),
    Modifier(ModifierKeyCode),
}

/// The bits of the modifiers held with a key: shift, control, alt, super,
/// hyper and meta, in that order from the lowest bit.
pub const SHIFT: u8 = 0b0000_0001;
pub const CONTROL: u8 = 0b0000_0010;
pub const ALT: u8 = 0b0000_0100;

/// A key press: the key and the modifiers held with it.
#[derive(Debug, Clone, Copy, PartialEq, Eq, Structural)]
pub struct KeyEvent {
    pub code: KeyCode,
    pub modifiers: u8,
}

impl KeyEvent {
    /// A key press with the given modifiers.
    pub fn new(code: KeyCode, modifiers: u8) -> (k: KeyEvent)
        ensures
            k.code == code,
            k.modifiers == modifiers,
    {
        KeyEvent { code: code, modifiers: modifiers }
    }
}

/// The key is a character held with control and nothing else.
pub open spec fn is_control_char(key: KeyEvent) -> bool {
    key.modifiers == CONTROL && key.code is Char
}

/// How a media key is named in debug output.
pub open spec fn media_key_name(k: MediaKeyCode) -> Seq<char> {
    match k {
        MediaKeyCode::Play => "Play"@,
        MediaKeyCode::Pause => "Pause"@,
        MediaKeyCode::PlayPause => "PlayPause"@,
        MediaKeyCode::Reverse => "Reverse"@,
        MediaKeyCode::Stop => "Stop"@,
        MediaKeyCode::FastForward => "FastForward"@,
        MediaKeyCode::Rewind => "Rewind"@,
        MediaKeyCode::TrackNext => "TrackNext"@,
        MediaKeyCode::TrackPrevious => "TrackPrevious"@,
        MediaKeyCode::Record => "Record"@,
        MediaKeyCode::LowerVolume => "LowerVolume"@,
        MediaKeyCode::RaiseVolume => "RaiseVolume"@,
        MediaKeyCode::MuteVolume => "MuteVolume"@,
    }
}

/// How a modifier key is named in debug output.
pub open spec fn modifier_key_name(k: ModifierKeyCode) -> Seq<char> {
    match k {
        ModifierKeyCode::LeftShift => "LeftShift"@,
        ModifierKeyCode::LeftControl => "LeftControl"@,
        ModifierKeyCode::LeftAlt => "LeftAlt"@,
        ModifierKeyCode::LeftSuper => "LeftSuper"@,
        ModifierKeyCode::LeftHyper => "LeftHyper"@,
        ModifierKeyCode::LeftMeta => "LeftMeta"@,
        ModifierKeyCode::RightShift => "RightShift"@,
        ModifierKeyCode::RightControl => "RightControl"@,
        ModifierKeyCode::RightAlt => "RightAlt"@,
        ModifierKeyCode::RightSuper => "RightSuper"@,
        ModifierKeyCode::RightHyper => "RightHyper"@,
        ModifierKeyCode::RightMeta => "RightMeta"@,
        ModifierKeyCode::IsoLevel3Shift => "IsoLevel3Shift"@,
        ModifierKeyCode::IsoLevel5Shift => "IsoLevel5Shift"@,
    }
}

/// How a key that is not a character is named in debug output, such as
/// `PageUp`, `F(5)` or `Media(Play)`.
pub open spec fn key_code_name(k: KeyCode) -> Seq<char> {
    match k {
        KeyCode::Backspace => "Backspace"@,
        KeyCode::Enter => "Enter"@,
        KeyCode::Left => "Left"@,
        KeyCode::Right => "Right"@,
        KeyCode::Up => "Up"@,
        KeyCode::Down => "Down"@,
        KeyCode::Home => "Home"@,
        KeyCode::End => "End"@,
        KeyCode::PageUp => "PageUp"@,
        KeyCode::PageDown => "PageDown"@,
        KeyCode::Tab => "Tab"@,
        KeyCode::BackTab => "BackTab"@,
        KeyCode::Delete => "Delete"@,
        KeyCode::Insert => "Insert"@,
        KeyCode::Null => "Null"@,
        KeyCode::Esc => "Esc"@,
        KeyCode::CapsLock => "CapsLock"@,
        KeyCode::ScrollLock => "ScrollLock"@,
        KeyCode::NumLock => "NumLock"@,
        KeyCode::PrintScreen => "PrintScreen"@,
        KeyCode::Pause => "Pause"@,
        KeyCode::Menu => "Menu"@,
        KeyCode::KeypadBegin => "KeypadBegin"@,
        KeyCode::F(n) => "F("@ + decimal(n as nat) + ")"@,
        KeyCode::Char(c) => seq![c],
        KeyCode::Media(m) => "Media("@ + media_key_name(m) + ")"@,
        KeyCode::Modifier(m) => "Modifier("@ + modifier_key_name(m) + ")"@,
    }
}

fn media_key_str(k: MediaKeyCode) -> (r: &'static str)
    ensures
        r@ == media_key_name(k),
{
    match k {
        MediaKeyCode::Play => "Play",
        MediaKeyCode::Pause => "Pause",
        MediaKeyCode::PlayPause => "PlayPause",
        MediaKeyCode::Reverse => "Reverse",
        MediaKeyCode::Stop => "Stop",
        MediaKeyCode::FastForward => "FastForward",
        MediaKeyCode::Rewind => "Rewind",
        MediaKeyCode::TrackNext => "TrackNext",
        MediaKeyCode::TrackPrevious => "TrackPrevious",
        MediaKeyCode::Record => "Record",
        MediaKeyCode::LowerVolume => "LowerVolume",
        MediaKeyCode::RaiseVolume => "RaiseVolume",
        MediaKeyCode::MuteVolume => "MuteVolume",
    }
}

fn modifier_key_str(k: ModifierKeyCode) -> (r: &'static str)
    ensures
        r@ == modifier_key_name(k),
{
    match k {
        ModifierKeyCode::LeftShift => "LeftShift",
        ModifierKeyCode::LeftControl => "LeftControl",
        ModifierKeyCode::LeftAlt => "LeftAlt",
        ModifierKeyCode::LeftSuper => "LeftSuper",
        ModifierKeyCode::LeftHyper => "LeftHyper",
        ModifierKeyCode::LeftMeta => "LeftMeta",
        ModifierKeyCode::RightShift => "RightShift",
        ModifierKeyCode::RightControl => "RightControl",
        ModifierKeyCode::RightAlt => "RightAlt",
        ModifierKeyCode::RightSuper => "RightSuper",
        ModifierKeyCode::RightHyper => "RightHyper",
        ModifierKeyCode::RightMeta => "RightMeta",
        ModifierKeyCode::IsoLevel3Shift => "IsoLevel3Shift",
        ModifierKeyCode::IsoLevel5Shift => "IsoLevel5Shift",
    }
}

/// The name of a key that is not a character, as debug output writes it.
fn key_code_text(k: KeyCode) -> (r: String)
    requires
        !(k is Char),
    ensures
        r@ == key_code_name(k),
{
    match k {
        KeyCode::Backspace => String::from_str("Backspace"),
        KeyCode::Enter => String::from_str("Enter"),
        KeyCode::Left => String::from_str("Left"),
        KeyCode::Right => String::from_str("Right"),
        KeyCode::Up => String::from_str("Up"),
        KeyCode::Down => String::from_str("Down"),
        KeyCode::Home => String::from_str("Home"),
        KeyCode::End => String::from_str("End"),
        KeyCode::PageUp => String::from_str("PageUp"),
        KeyCode::PageDown => String::from_str("PageDown"),
        KeyCode::Tab => String::from_str("Tab"),
        KeyCode::BackTab => String::from_str("BackTab"),
        KeyCode::Delete => String::from_str("Delete"),
        KeyCode::Insert => String::from_str("Insert"),
        KeyCode::Null => String::from_str("Null"),
        KeyCode::Esc => String::from_str("Esc"),
        KeyCode::CapsLock => String::from_str("CapsLock"),
        KeyCode::ScrollLock => String::from_str("ScrollLock"),
        KeyCode::NumLock => String::from_str("NumLock"),
        KeyCode::PrintScreen => String::from_str("PrintScreen"),
        KeyCode::Pause => String::from_str("Pause"),
        KeyCode::Menu => String::from_str("Menu"),
        KeyCode::KeypadBegin => String::from_str("KeypadBegin"),
        KeyCode::F(n) => {
            let mut r = String::from_str("F(");
            push_decimal(&mut r, n as u128);
            r.append(")");
            r
        },
        KeyCode::Media(m) => {
            let mut r = String::from_str("Media(");
            r.append(media_key_str(m));
            r.append(")");
            r
        },
        KeyCode::Modifier(m) => {
            let mut r = String::from_str("Modifier(");
            r.append(modifier_key_str(m));
            r.append(")");
            r
        },
        KeyCode::Char(c) => String::new(),
    }
}


// ─── Characters ─────────────────────────────────────────────────────────────

/// The character in upper case when it is an ASCII lower-case letter.
pub open spec fn ascii_upper(c: char) -> char {
    if 97 <= (c as u32) <= 122 {
        ((c as u32) - 32) as char
    } else {
        c
    }
}

/// The character in upper case when it is an ASCII lower-case letter.
pub fn to_ascii_upper(c: char) -> (r: char)
    ensures
        r == ascii_upper(c),
{
    if 'a' <= c && c <= 'z' {
        ((c as u8) - 32) as char
    } else {
        c
    }
}

/// A string of one character.
pub fn char_string(c: char) -> (s: String)
    ensures
        s@ == seq![c],
{
    let mut s = String::new();
    s.push(c);
    assert(s@ =~= seq![c]);
    s
}

// ─── How keys are written ───────────────────────────────────────────────────

/// How a key is shown in a message: `^X` for a character held with
/// control, the character itself, or the key's name.
pub open spec fn key_label(key: KeyEvent) -> Seq<char> {
    if is_control_char(key) {
        seq!['^', ascii_upper(key.code->Char_0)]
    } else {
        key_code_name(key.code)
    }
}

/// How a key is shown in a message: `^X` for a character held with
/// control, the character itself, or the key's name.
pub fn key_display(key: &KeyEvent) -> (s: String)
    ensures
        s@ == key_label(*key),
{
    if key.modifiers == CONTROL {
        if let KeyCode::Char(c) = key.code {
            let mut s = String::from_str("^");
            s.push(to_ascii_upper(c));
            proof { reveal_strlit("^"); }
            assert(s@ =~= seq!['^', ascii_upper(c)]);
            return s;
        }
    }
    match key.code {
        KeyCode::Char(c) => char_string(c),
        other => key_code_text(other),
    }
}

/// How a key is shown among the pending keys of the status bar: like
/// `key_label`, but escape and enter are written `<Esc>` and `<Enter>`.
pub open spec fn key_event_label(key: KeyEvent) -> Seq<char> {
    if is_control_char(key) {
        seq!['^', ascii_upper(key.code->Char_0)]
    } else {
        match key.code {
            KeyCode::Esc => "<Esc>"@,
            KeyCode::Enter => "<Enter>"@,
            _ => key_code_name(key.code),
        }
    }
}

/// How a key is shown among the pending keys of the status bar.
pub fn key_event_display(key: &KeyEvent) -> (s: String)
    ensures
        s@ == key_event_label(*key),
{
    if key.modifiers == CONTROL {
        if let KeyCode::Char(c) = key.code {
            let mut s = String::from_str("^");
            s.push(to_ascii_upper(c));
            proof { reveal_strlit("^"); }
            assert(s@ =~= seq!['^', ascii_upper(c)]);
            return s;
        }
    }
    match key.code {
        KeyCode::Char(c) => char_string(c),
        KeyCode::Esc => String::from_str("<Esc>"),
        KeyCode::Enter => String::from_str("<Enter>"),
        other => key_code_text(other),
    }
}

// ─── What a key sends to a terminal ─────────────────────────────────────────

/// The byte that a character held with control sends: the low byte of the
/// character, counted from `a` as 1, wrapping around.
pub open spec fn control_byte(c: char) -> u8 {
    (((c as u8) as int + 160) % 256) as u8
}

/// The bytes a key sends to the pane's terminal, if it sends any: a
/// character held with control sends its control byte, any other
/// character its UTF-8 encoding, and the editing and cursor keys their
/// usual terminal sequences.
pub open spec fn key_bytes(key: KeyEvent) -> Option<Seq<u8>> {
    match key.code {
        KeyCode::Char(c) => if key.modifiers == CONTROL {
            Some(seq![control_byte(c)])
        } else {
            Some(encode_scalar(c as u32))
        },
        KeyCode::Enter => Some(seq![13u8]),
        KeyCode::Backspace => Some(seq![127u8]),
        KeyCode::Tab => Some(seq![9u8]),
        KeyCode::Esc => Some(seq![27u8]),
        KeyCode::Up => Some(seq![27u8, 91u8, 65u8]),
        KeyCode::Down => Some(seq![27u8, 91u8, 66u8]),
        KeyCode::Right => Some(seq![27u8, 91u8, 67u8]),
        KeyCode::Left => Some(seq![27u8, 91u8, 68u8]),
        KeyCode::Home => Some(seq![27u8, 91u8, 72u8]),
        KeyCode::End => Some(seq![27u8, 91u8, 70u8]),
        KeyCode::Delete => Some(seq![27u8, 91u8, 51u8, 126u8]),
        KeyCode::PageUp => Some(seq![27u8, 91u8, 53u8, 126u8]),
        KeyCode::PageDown => Some(seq![27u8, 91u8, 54u8, 126u8]),
        _ => None,
    }
}

/// The UTF-8 encoding of a character.
pub fn encode_char(c: char) -> (bytes: Vec<u8>)
    ensures
        bytes@ == encode_scalar(c as u32),
{
    let v = c as u32;
    proof { vstd::utf8::char_is_scalar(c); }
    let bytes = if v <= 0x7F {
        vec![(v & 0x7F) as u8]
    } else if v <= 0x7FF {
        vec![0xC0 | ((v >> 6) & 0x1F) as u8, 0x80 | (v & 0x3F) as u8]
    } else if v <= 0xFFFF {
        vec![0xE0 | ((v >> 12) & 0x0F) as u8, 0x80 | ((v >> 6) & 0x3F) as u8, 0x80 | (v & 0x3F) as u8]
    } else {
        vec![
            0xF0 | ((v >> 18) & 0x7) as u8,
            0x80 | ((v >> 12) & 0x3F) as u8,
            0x80 | ((v >> 6) & 0x3F) as u8,
            0x80 | (v & 0x3F) as u8,
        ]
    };
    assert(bytes@ =~= encode_scalar(v));
    bytes
}

/// The bytes a key sends to the pane's terminal, if it sends any.
pub fn key_to_bytes(key: &KeyEvent) -> (r: Option<Vec<u8>>)
    ensures
        match key_bytes(*key) {
            Some(b) => r matches Some(v) && v@ == b,
            None => r is None,
        },
{
    match key.code {
        KeyCode::Char(c) => {
            if key.modifiers == CONTROL {
                let byte = (c as u8).wrapping_sub(97).wrapping_add(1);
                assert(byte == control_byte(c));
                Some(vec![byte])
            } else {
                Some(encode_char(c))
            }
        },
        KeyCode::Enter => Some(vec![13u8]),
        KeyCode::Backspace => Some(vec![127u8]),
        KeyCode::Tab => Some(vec![9u8]),
        KeyCode::Esc => Some(vec![27u8]),
        KeyCode::Up => Some(vec![27u8, 91u8, 65u8]),
        KeyCode::Down => Some(vec![27u8, 91u8, 66u8]),
        KeyCode::Right => Some(vec![27u8, 91u8, 67u8]),
        KeyCode::Left => Some(vec![27u8, 91u8, 68u8]),
        KeyCode::Home => Some(vec![27u8, 91u8, 72u8]),
        KeyCode::End => Some(vec![27u8, 91u8, 70u8]),
        KeyCode::Delete => Some(vec![27u8, 91u8, 51u8, 126u8]),
        KeyCode::PageUp => Some(vec![27u8, 91u8, 53u8, 126u8]),
        KeyCode::PageDown => Some(vec![27u8, 91u8, 54u8, 126u8]),
        _ => None,
    }
}

} // verus!

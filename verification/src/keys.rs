//! The portable key identifiers and their Win32 virtual-key codes.
use vstd::prelude::*;

use crate::event::DecodeError;

verus! {

/// A key of the keyboard.
#[derive(Clone, Copy, Debug, PartialEq, Eq, Structural)]
pub enum Keys {
    Backspace,
    Enter,
    Tab,
    Shift,
    Control,

    Pause,
    Capital,

    Escape,

    Convert,
    Nonconvert,
    Accept,
    Modechange,

    Space,
    Prior,
    Next,
    End,
    Home,
    Left,
    Up,
    Right,
    Down,
    Select,
    Print,
    Execute,
    Snapshot,
    Insert,
    Delete,
    Help,

    A,
    B,
    C,
    D,
    E,
    F,
    G,
    H,
    I,
    J,
    K,
    L,
    M,
    N,
    O,
    P,
    Q,
    R,
    S,
    T,
    U,
    V,
    W,
    X,
    Y,
    Z,

    LWin,
    RWin,
    Apps,

    Sleep,

    Numpad0,
    Numpad1,
    Numpad2,
    Numpad3,
    Numpad4,
    Numpad5,
    Numpad6,
    Numpad7,
    Numpad8,
    Numpad9,
    Multiply,
    Add,
    Separator,
    Subtract,
    Decimal,
    Divide,
    F1,
    F2,
    F3,
    F4,
    F5,
    F6,
    F7,
    F8,
    F9,
    F10,
    F11,
    F12,
    F13,
    F14,
    F15,
    F16,
    F17,
    F18,
    F19,
    F20,
    F21,
    F22,
    F23,
    F24,

    Numlock,
    Scroll,

    NumpadEqual,

    LShift,
    RShift,
    LControl,
    RControl,
    LMenu,
    RMenu,

    Semicolon,
    Plus,
    Comma,
    Minus,
    Period,
    Slash,
    Grave,
}

impl Keys {
    /// The Win32 virtual-key code that stands for this key.
    pub open spec fn virtual_key(self) -> usize {
        match self {
            Keys::Backspace => 0x08,
            Keys::Enter => 0x0D,
            Keys::Tab => 0x09,
            Keys::Shift => 0x10,
            Keys::Control => 0x11,

            Keys::Pause => 0x13,
            Keys::Capital => 0x14,

            Keys::Escape => 0x1B,

            Keys::Convert => 0x1C,
            Keys::Nonconvert => 0x1D,
            Keys::Accept => 0x1E,
            Keys::Modechange => 0x1F,

            Keys::Space => 0x20,
            Keys::Prior => 0x21,
            Keys::Next => 0x22,
            Keys::End => 0x23,
            Keys::Home => 0x24,
            Keys::Left => 0x25,
            Keys::Up => 0x26,
            Keys::Right => 0x27,
            Keys::Down => 0x28,
            Keys::Select => 0x29,
            Keys::Print => 0x2A,
            Keys::Execute => 0x2B,
            Keys::Snapshot => 0x2C,
            Keys::Insert => 0x2D,
            Keys::Delete => 0x2E,
            Keys::Help => 0x2F,

            Keys::A => 0x41,
            Keys::B => 0x42,
            Keys::C => 0x43,
            Keys::D => 0x44,
            Keys::E => 0x45,
            Keys::F => 0x46,
            Keys::G => 0x47,
            Keys::H => 0x48,
            Keys::I => 0x49,
            Keys::J => 0x4A,
            Keys::K => 0x4B,
            Keys::L => 0x4C,
            Keys::M => 0x4D,
            Keys::N => 0x4E,
            Keys::O => 0x4F,
            Keys::P => 0x50,
            Keys::Q => 0x51,
            Keys::R => 0x52,
            Keys::S => 0x53,
            Keys::T => 0x54,
            Keys::U => 0x55,
            Keys::V => 0x56,
            Keys::W => 0x57,
            Keys::X => 0x58,
            Keys::Y => 0x59,
            Keys::Z => 0x5A,

            Keys::LWin => 0x5B,
            Keys::RWin => 0x5C,
            Keys::Apps => 0x5D,

            Keys::Sleep => 0x5F,

            Keys::Numpad0 => 0x60,
            Keys::Numpad1 => 0x61,
            Keys::Numpad2 => 0x62,
            Keys::Numpad3 => 0x63,
            Keys::Numpad4 => 0x64,
            Keys::Numpad5 => 0x65,
            Keys::Numpad6 => 0x66,
            Keys::Numpad7 => 0x67,
            Keys::Numpad8 => 0x68,
            Keys::Numpad9 => 0x69,
            Keys::Multiply => 0x6A,
            Keys::Add => 0x6B,
            Keys::Separator => 0x6C,
            Keys::Subtract => 0x6D,
            Keys::Decimal => 0x6E,
            Keys::Divide => 0x6F,
            Keys::F1 => 0x70,
            Keys::F2 => 0x71,
            Keys::F3 => 0x72,
            Keys::F4 => 0x73,
            Keys::F5 => 0x74,
            Keys::F6 => 0x75,
            Keys::F7 => 0x76,
            Keys::F8 => 0x77,
            Keys::F9 => 0x78,
            Keys::F10 => 0x79,
            Keys::F11 => 0x7A,
            Keys::F12 => 0x7B,
            Keys::F13 => 0x7C,
            Keys::F14 => 0x7D,
            Keys::F15 => 0x7E,
            Keys::F16 => 0x7F,
            Keys::F17 => 0x80,
            Keys::F18 => 0x81,
            Keys::F19 => 0x82,
            Keys::F20 => 0x83,
            Keys::F21 => 0x84,
            Keys::F22 => 0x85,
            Keys::F23 => 0x86,
            Keys::F24 => 0x87,

            Keys::Numlock => 0x90,
            Keys::Scroll => 0x91,

            Keys::NumpadEqual => 0x92,

            Keys::LShift => 0xA0,
            Keys::RShift => 0xA1,
            Keys::LControl => 0xA2,
            Keys::RControl => 0xA3,
            Keys::LMenu => 0xA4,
            Keys::RMenu => 0xA5,

            Keys::Semicolon => 0xBA,
            Keys::Plus => 0xBB,
            Keys::Comma => 0xBC,
            Keys::Minus => 0xBD,
            Keys::Period => 0xBE,
            Keys::Slash => 0xBF,
            Keys::Grave => 0xC0,
        }
    }

    /// Whether `code` is the virtual-key code of some key. The codes in use
    /// lie in ten blocks.
    pub open spec fn is_virtual_key(code: usize) -> bool {
        ||| 0x08 <= code <= 0x09
        ||| code == 0x0D
        ||| 0x10 <= code <= 0x11
        ||| 0x13 <= code <= 0x14
        ||| 0x1B <= code <= 0x2F
        ||| 0x41 <= code <= 0x5D
        ||| 0x5F <= code <= 0x87
        ||| 0x90 <= code <= 0x92
        ||| 0xA0 <= code <= 0xA5
        ||| 0xBA <= code <= 0xC0
    }

    /// The key that the virtual-key code `code` stands for, if it stands for
    /// one.
    pub open spec fn of_virtual_key(code: usize) -> Option<Keys> {
        match code {
            0x08 => Some(Keys::Backspace),
            0x0D => Some(Keys::Enter),
            0x09 => Some(Keys::Tab),
            0x10 => Some(Keys::Shift),
            0x11 => Some(Keys::Control),

            0x13 => Some(Keys::Pause),
            0x14 => Some(Keys::Capital),

            0x1B => Some(Keys::Escape),

            0x1C => Some(Keys::Convert),
            0x1D => Some(Keys::Nonconvert),
            0x1E => Some(Keys::Accept),
            0x1F => Some(Keys::Modechange),

            0x20 => Some(Keys::Space),
            0x21 => Some(Keys::Prior),
            0x22 => Some(Keys::Next),
            0x23 => Some(Keys::End),
            0x24 => Some(Keys::Home),
            0x25 => Some(Keys::Left),
            0x26 => Some(Keys::Up),
            0x27 => Some(Keys::Right),
            0x28 => Some(Keys::Down),
            0x29 => Some(Keys::Select),
            0x2A => Some(Keys::Print),
            0x2B => Some(Keys::Execute),
            0x2C => Some(Keys::Snapshot),
            0x2D => Some(Keys::Insert),
            0x2E => Some(Keys::Delete),
            0x2F => Some(Keys::Help),

            0x41 => Some(Keys::A),
            0x42 => Some(Keys::B),
            0x43 => Some(Keys::C),
            0x44 => Some(Keys::D),
            0x45 => Some(Keys::E),
            0x46 => Some(Keys::F),
            0x47 => Some(Keys::G),
            0x48 => Some(Keys::H),
            0x49 => Some(Keys::I),
            0x4A => Some(Keys::J),
            0x4B => Some(Keys::K),
            0x4C => Some(Keys::L),
            0x4D => Some(Keys::M),
            0x4E => Some(Keys::N),
            0x4F => Some(Keys::O),
            0x50 => Some(Keys::P),
            0x51 => Some(Keys::Q),
            0x52 => Some(Keys::R),
            0x53 => Some(Keys::S),
            0x54 => Some(Keys::T),
            0x55 => Some(Keys::U),
            0x56 => Some(Keys::V),
            0x57 => Some(Keys::W),
            0x58 => Some(Keys::X),
            0x59 => Some(Keys::Y),
            0x5A => Some(Keys::Z),

            0x5B => Some(Keys::LWin),
            0x5C => Some(Keys::RWin),
            0x5D => Some(Keys::Apps),

            0x5F => Some(Keys::Sleep),

            0x60 => Some(Keys::Numpad0),
            0x61 => Some(Keys::Numpad1),
            0x62 => Some(Keys::Numpad2),
            0x63 => Some(Keys::Numpad3),
            0x64 => Some(Keys::Numpad4),
            0x65 => Some(Keys::Numpad5),
            0x66 => Some(Keys::Numpad6),
            0x67 => Some(Keys::Numpad7),
            0x68 => Some(Keys::Numpad8),
            0x69 => Some(Keys::Numpad9),
            0x6A => Some(Keys::Multiply),
            0x6B => Some(Keys::Add),
            0x6C => Some(Keys::Separator),
            0x6D => Some(Keys::Subtract),
            0x6E => Some(Keys::Decimal),
            0x6F => Some(Keys::Divide),
            0x70 => Some(Keys::F1),
            0x71 => Some(Keys::F2),
            0x72 => Some(Keys::F3),
            0x73 => Some(Keys::F4),
            0x74 => Some(Keys::F5),
            0x75 => Some(Keys::F6),
            0x76 => Some(Keys::F7),
            0x77 => Some(Keys::F8),
            0x78 => Some(Keys::F9),
            0x79 => Some(Keys::F10),
            0x7A => Some(Keys::F11),
            0x7B => Some(Keys::F12),
            0x7C => Some(Keys::F13),
            0x7D => Some(Keys::F14),
            0x7E => Some(Keys::F15),
            0x7F => Some(Keys::F16),
            0x80 => Some(Keys::F17),
            0x81 => Some(Keys::F18),
            0x82 => Some(Keys::F19),
            0x83 => Some(Keys::F20),
            0x84 => Some(Keys::F21),
            0x85 => Some(Keys::F22),
            0x86 => Some(Keys::F23),
            0x87 => Some(Keys::F24),

            0x90 => Some(Keys::Numlock),
            0x91 => Some(Keys::Scroll),

            0x92 => Some(Keys::NumpadEqual),

            0xA0 => Some(Keys::LShift),
            0xA1 => Some(Keys::RShift),
            0xA2 => Some(Keys::LControl),
            0xA3 => Some(Keys::RControl),
            0xA4 => Some(Keys::LMenu),
            0xA5 => Some(Keys::RMenu),

            0xBA => Some(Keys::Semicolon),
            0xBB => Some(Keys::Plus),
            0xBC => Some(Keys::Comma),
            0xBD => Some(Keys::Minus),
            0xBE => Some(Keys::Period),
            0xBF => Some(Keys::Slash),
            0xC0 => Some(Keys::Grave),
            _ => None,
        }
    }

    /// The key's name as a sequence of characters.
    pub open spec fn name(self) -> Seq<char> {
        match self {
            Keys::Backspace => "Backspace"@,
            Keys::Enter => "Enter"@,
            Keys::Tab => "Tab"@,
            Keys::Shift => "Shift"@,
            Keys::Control => "Control"@,

            Keys::Pause => "Pause"@,
            Keys::Capital => "Capital"@,

            Keys::Escape => "Escape"@,

            Keys::Convert => "Convert"@,
            Keys::Nonconvert => "Nonconvert"@,
            Keys::Accept => "Accept"@,
            Keys::Modechange => "Modechange"@,

            Keys::Space => "Space"@,
            Keys::Prior => "Prior"@,
            Keys::Next => "Next"@,
            Keys::End => "End"@,
            Keys::Home => "Home"@,
            Keys::Left => "Left"@,
            Keys::Up => "Up"@,
            Keys::Right => "Right"@,
            Keys::Down => "Down"@,
            Keys::Select => "Select"@,
            Keys::Print => "Print"@,
            Keys::Execute => "Execute"@,
            Keys::Snapshot => "Snapshot"@,
            Keys::Insert => "Insert"@,
            Keys::Delete => "Delete"@,
            Keys::Help => "Help"@,

            Keys::A => "A"@,
            Keys::B => "B"@,
            Keys::C => "C"@,
            Keys::D => "D"@,
            Keys::E => "E"@,
            Keys::F => "F"@,
            Keys::G => "G"@,
            Keys::H => "H"@,
            Keys::I => "I"@,
            Keys::J => "J"@,
            Keys::K => "K"@,
            Keys::L => "L"@,
            Keys::M => "M"@,
            Keys::N => "N"@,
            Keys::O => "O"@,
            Keys::P => "P"@,
            Keys::Q => "Q"@,
            Keys::R => "R"@,
            Keys::S => "S"@,
            Keys::T => "T"@,
            Keys::U => "U"@,
            Keys::V => "V"@,
            Keys::W => "W"@,
            Keys::X => "X"@,
            Keys::Y => "Y"@,
            Keys::Z => "Z"@,

            Keys::LWin => "LWin"@,
            Keys::RWin => "RWin"@,
            Keys::Apps => "Apps"@,

            Keys::Sleep => "Sleep"@,

            Keys::Numpad0 => "Numpad0"@,
            Keys::Numpad1 => "Numpad1"@,
            Keys::Numpad2 => "Numpad2"@,
            Keys::Numpad3 => "Numpad3"@,
            Keys::Numpad4 => "Numpad4"@,
            Keys::Numpad5 => "Numpad5"@,
            Keys::Numpad6 => "Numpad6"@,
            Keys::Numpad7 => "Numpad7"@,
            Keys::Numpad8 => "Numpad8"@,
            Keys::Numpad9 => "Numpad9"@,
            Keys::Multiply => "Multiply"@,
            Keys::Add => "Add"@,
            Keys::Separator => "Separator"@,
            Keys::Subtract => "Subtract"@,
            Keys::Decimal => "Decimal"@,
            Keys::Divide => "Divide"@,
            Keys::F1 => "F1"@,
            Keys::F2 => "F2"@,
            Keys::F3 => "F3"@,
            Keys::F4 => "F4"@,
            Keys::F5 => "F5"@,
            Keys::F6 => "F6"@,
            Keys::F7 => "F7"@,
            Keys::F8 => "F8"@,
            Keys::F9 => "F9"@,
            Keys::F10 => "F10"@,
            Keys::F11 => "F11"@,
            Keys::F12 => "F12"@,
            Keys::F13 => "F13"@,
            Keys::F14 => "F14"@,
            Keys::F15 => "F15"@,
            Keys::F16 => "F16"@,
            Keys::F17 => "F17"@,
            Keys::F18 => "F18"@,
            Keys::F19 => "F19"@,
            Keys::F20 => "F20"@,
            Keys::F21 => "F21"@,
            Keys::F22 => "F22"@,
            Keys::F23 => "F23"@,
            Keys::F24 => "F24"@,

            Keys::Numlock => "Numlock"@,
            Keys::Scroll => "Scroll"@,

            Keys::NumpadEqual => "NumpadEqual"@,

            Keys::LShift => "LShift"@,
            Keys::RShift => "RShift"@,
            Keys::LControl => "LControl"@,
            Keys::RControl => "RControl"@,
            Keys::LMenu => "LMenu"@,
            Keys::RMenu => "RMenu"@,

            Keys::Semicolon => "Semicolon"@,
            Keys::Plus => "Plus"@,
            Keys::Comma => "Comma"@,
            Keys::Minus => "Minus"@,
            Keys::Period => "Period"@,
            Keys::Slash => "Slash"@,
            Keys::Grave => "Grave"@,
        }
    }

    /// No two keys share a virtual-key code, so a code names at most one key.
    pub proof fn lemma_virtual_key_is_injective(a: Keys, b: Keys)
        requires
            a.virtual_key() == b.virtual_key(),
        ensures
            a == b,
    {
    }

    /// Decoding the code of a key gives that key back, and a code is decoded
    /// to no other key than the one that has it.
    pub proof fn lemma_of_virtual_key(k: Keys, code: usize)
        ensures
            Keys::of_virtual_key(k.virtual_key()) == Some(k),
            Keys::of_virtual_key(code) == Some(k) <==> k.virtual_key() == code,
    {
    }

    /// The codes that are decoded are those that `is_virtual_key` accepts.
    pub proof fn lemma_is_virtual_key(code: usize)
        ensures
            Keys::of_virtual_key(code) is Some <==> Keys::is_virtual_key(code),
    {
    }

    /// Every key has a virtual-key code that `is_virtual_key` accepts.
    pub proof fn lemma_every_key_has_a_virtual_key(k: Keys)
        ensures
            Keys::is_virtual_key(k.virtual_key()),
    {
    }

    /// Decodes a Win32 virtual-key code. A code that no key has is reported as
    /// `UnrecognizedKeyCode`.
    pub fn try_from_usize(s: usize) -> (r: Result<Keys, DecodeError>)
        ensures
            r == match Keys::of_virtual_key(s) {
                Some(k) => Ok::<Keys, DecodeError>(k),
                None => Err::<Keys, DecodeError>(DecodeError::UnrecognizedKeyCode),
            },
            r is Ok <==> Keys::is_virtual_key(s),
            r matches Ok(k) ==> k.virtual_key() == s,
    {
        let key = match s {
            0x08 => Keys::Backspace,
            0x0D => Keys::Enter,
            0x09 => Keys::Tab,
            0x10 => Keys::Shift,
            0x11 => Keys::Control,

            0x13 => Keys::Pause,
            0x14 => Keys::Capital,

            0x1B => Keys::Escape,

            0x1C => Keys::Convert,
            0x1D => Keys::Nonconvert,
            0x1E => Keys::Accept,
            0x1F => Keys::Modechange,

            0x20 => Keys::Space,
            0x21 => Keys::Prior,
            0x22 => Keys::Next,
            0x23 => Keys::End,
            0x24 => Keys::Home,
            0x25 => Keys::Left,
            0x26 => Keys::Up,
            0x27 => Keys::Right,
            0x28 => Keys::Down,
            0x29 => Keys::Select,
            0x2A => Keys::Print,
            0x2B => Keys::Execute,
            0x2C => Keys::Snapshot,
            0x2D => Keys::Insert,
            0x2E => Keys::Delete,
            0x2F => Keys::Help,

            0x41 => Keys::A,
            0x42 => Keys::B,
            0x43 => Keys::C,
            0x44 => Keys::D,
            0x45 => Keys::E,
            0x46 => Keys::F,
            0x47 => Keys::G,
            0x48 => Keys::H,
            0x49 => Keys::I,
            0x4A => Keys::J,
            0x4B => Keys::K,
            0x4C => Keys::L,
            0x4D => Keys::M,
            0x4E => Keys::N,
            0x4F => Keys::O,
            0x50 => Keys::P,
            0x51 => Keys::Q,
            0x52 => Keys::R,
            0x53 => Keys::S,
            0x54 => Keys::T,
            0x55 => Keys::U,
            0x56 => Keys::V,
            0x57 => Keys::W,
            0x58 => Keys::X,
            0x59 => Keys::Y,
            0x5A => Keys::Z,

            0x5B => Keys::LWin,
            0x5C => Keys::RWin,
            0x5D => Keys::Apps,

            0x5F => Keys::Sleep,

            0x60 => Keys::Numpad0,
            0x61 => Keys::Numpad1,
            0x62 => Keys::Numpad2,
            0x63 => Keys::Numpad3,
            0x64 => Keys::Numpad4,
            0x65 => Keys::Numpad5,
            0x66 => Keys::Numpad6,
            0x67 => Keys::Numpad7,
            0x68 => Keys::Numpad8,
            0x69 => Keys::Numpad9,
            0x6A => Keys::Multiply,
            0x6B => Keys::Add,
            0x6C => Keys::Separator,
            0x6D => Keys::Subtract,
            0x6E => Keys::Decimal,
            0x6F => Keys::Divide,
            0x70 => Keys::F1,
            0x71 => Keys::F2,
            0x72 => Keys::F3,
            0x73 => Keys::F4,
            0x74 => Keys::F5,
            0x75 => Keys::F6,
            0x76 => Keys::F7,
            0x77 => Keys::F8,
            0x78 => Keys::F9,
            0x79 => Keys::F10,
            0x7A => Keys::F11,
            0x7B => Keys::F12,
            0x7C => Keys::F13,
            0x7D => Keys::F14,
            0x7E => Keys::F15,
            0x7F => Keys::F16,
            0x80 => Keys::F17,
            0x81 => Keys::F18,
            0x82 => Keys::F19,
            0x83 => Keys::F20,
            0x84 => Keys::F21,
            0x85 => Keys::F22,
            0x86 => Keys::F23,
            0x87 => Keys::F24,

            0x90 => Keys::Numlock,
            0x91 => Keys::Scroll,

            0x92 => Keys::NumpadEqual,

            0xA0 => Keys::LShift,
            0xA1 => Keys::RShift,
            0xA2 => Keys::LControl,
            0xA3 => Keys::RControl,
            0xA4 => Keys::LMenu,
            0xA5 => Keys::RMenu,

            0xBA => Keys::Semicolon,
            0xBB => Keys::Plus,
            0xBC => Keys::Comma,
            0xBD => Keys::Minus,
            0xBE => Keys::Period,
            0xBF => Keys::Slash,
            0xC0 => Keys::Grave,
            _ => {
                return Err(DecodeError::UnrecognizedKeyCode);
            },
        };
        Ok(key)
    }

    /// Decodes a Win32 virtual-key code that is known to name a key.
    pub fn from_usize(s: usize) -> (k: Keys)
        requires
            Keys::is_virtual_key(s),
        ensures
            Keys::of_virtual_key(s) == Some(k),
            k.virtual_key() == s,
    {
        match Keys::try_from_usize(s) {
            Ok(k) => k,
            Err(_) => vstd::pervasive::unreached(),
        }
    }

    /// The key's name.
    pub fn as_str(&self) -> (s: &str)
        ensures
            s@ == self.name(),
    {
        match self {
            Keys::Backspace => "Backspace",
            Keys::Enter => "Enter",
            Keys::Tab => "Tab",
            Keys::Shift => "Shift",
            Keys::Control => "Control",

            Keys::Pause => "Pause",
            Keys::Capital => "Capital",

            Keys::Escape => "Escape",

            Keys::Convert => "Convert",
            Keys::Nonconvert => "Nonconvert",
            Keys::Accept => "Accept",
            Keys::Modechange => "Modechange",

            Keys::Space => "Space",
            Keys::Prior => "Prior",
            Keys::Next => "Next",
            Keys::End => "End",
            Keys::Home => "Home",
            Keys::Left => "Left",
            Keys::Up => "Up",
            Keys::Right => "Right",
            Keys::Down => "Down",
            Keys::Select => "Select",
            Keys::Print => "Print",
            Keys::Execute => "Execute",
            Keys::Snapshot => "Snapshot",
            Keys::Insert => "Insert",
            Keys::Delete => "Delete",
            Keys::Help => "Help",

            Keys::A => "A",
            Keys::B => "B",
            Keys::C => "C",
            Keys::D => "D",
            Keys::E => "E",
            Keys::F => "F",
            Keys::G => "G",
            Keys::H => "H",
            Keys::I => "I",
            Keys::J => "J",
            Keys::K => "K",
            Keys::L => "L",
            Keys::M => "M",
            Keys::N => "N",
            Keys::O => "O",
            Keys::P => "P",
            Keys::Q => "Q",
            Keys::R => "R",
            Keys::S => "S",
            Keys::T => "T",
            Keys::U => "U",
            Keys::V => "V",
            Keys::W => "W",
            Keys::X => "X",
            Keys::Y => "Y",
            Keys::Z => "Z",

            Keys::LWin => "LWin",
            Keys::RWin => "RWin",
            Keys::Apps => "Apps",

            Keys::Sleep => "Sleep",

            Keys::Numpad0 => "Numpad0",
            Keys::Numpad1 => "Numpad1",
            Keys::Numpad2 => "Numpad2",
            Keys::Numpad3 => "Numpad3",
            Keys::Numpad4 => "Numpad4",
            Keys::Numpad5 => "Numpad5",
            Keys::Numpad6 => "Numpad6",
            Keys::Numpad7 => "Numpad7",
            Keys::Numpad8 => "Numpad8",
            Keys::Numpad9 => "Numpad9",
            Keys::Multiply => "Multiply",
            Keys::Add => "Add",
            Keys::Separator => "Separator",
            Keys::Subtract => "Subtract",
            Keys::Decimal => "Decimal",
            Keys::Divide => "Divide",
            Keys::F1 => "F1",
            Keys::F2 => "F2",
            Keys::F3 => "F3",
            Keys::F4 => "F4",
            Keys::F5 => "F5",
            Keys::F6 => "F6",
            Keys::F7 => "F7",
            Keys::F8 => "F8",
            Keys::F9 => "F9",
            Keys::F10 => "F10",
            Keys::F11 => "F11",
            Keys::F12 => "F12",
            Keys::F13 => "F13",
            Keys::F14 => "F14",
            Keys::F15 => "F15",
            Keys::F16 => "F16",
            Keys::F17 => "F17",
            Keys::F18 => "F18",
            Keys::F19 => "F19",
            Keys::F20 => "F20",
            Keys::F21 => "F21",
            Keys::F22 => "F22",
            Keys::F23 => "F23",
            Keys::F24 => "F24",

            Keys::Numlock => "Numlock",
            Keys::Scroll => "Scroll",

            Keys::NumpadEqual => "NumpadEqual",

            Keys::LShift => "LShift",
            Keys::RShift => "RShift",
            Keys::LControl => "LControl",
            Keys::RControl => "RControl",
            Keys::LMenu => "LMenu",
            Keys::RMenu => "RMenu",

            Keys::Semicolon => "Semicolon",
            Keys::Plus => "Plus",
            Keys::Comma => "Comma",
            Keys::Minus => "Minus",
            Keys::Period => "Period",
            Keys::Slash => "Slash",
            Keys::Grave => "Grave",
        }
    }
}

} // verus!

//! The X11 side: the geometry of the window request, the keysym and button
//! tables, and how events from the server become portable events.
use vstd::prelude::*;

use crate::event::DecodeError;
use crate::event::Decoded;
use crate::event::MouseButton;
use crate::event::WindowEvent;
use crate::event::WindowInputEvent;
use crate::keys::Keys;

verus! {

pub const EVENT_MASK_KEY_PRESS: u32 = 0x0000_0001;

pub const EVENT_MASK_KEY_RELEASE: u32 = 0x0000_0002;

pub const EVENT_MASK_BUTTON_PRESS: u32 = 0x0000_0004;

pub const EVENT_MASK_BUTTON_RELEASE: u32 = 0x0000_0008;

pub const EVENT_MASK_POINTER_MOTION: u32 = 0x0000_0040;

pub const EVENT_MASK_EXPOSURE: u32 = 0x0000_8000;

pub const EVENT_MASK_STRUCTURE_NOTIFY: u32 = 0x0002_0000;

/// The events that the window asks the server for: keys, buttons, pointer
/// motion, exposure and changes of its own structure.
pub const EVENT_MASK: u32 = EVENT_MASK_KEY_PRESS | EVENT_MASK_KEY_RELEASE | EVENT_MASK_BUTTON_PRESS
    | EVENT_MASK_BUTTON_RELEASE | EVENT_MASK_POINTER_MOTION | EVENT_MASK_EXPOSURE
    | EVENT_MASK_STRUCTURE_NOTIFY;

/// The atom that names nothing.
pub const ATOM_NONE: u32 = 0;

/// Position and size of a window as the core protocol carries them.
#[derive(Clone, Copy, Debug, PartialEq, Eq, Structural)]
pub struct XGeometry {
    pub x: i16,
    pub y: i16,
    pub width: u16,
    pub height: u16,
}

/// The payload of a client message, in one of its three formats.
#[derive(Clone, Copy, Debug, PartialEq, Eq)]
pub enum ClientMessageData {
    Data8([u8; 20]),
    Data16([u16; 10]),
    Data32([u32; 5]),
}

/// One event from the server, reduced to what the translation reads.
#[derive(Clone, Copy, Debug, PartialEq, Eq)]
pub enum XEvent {
    /// A key went down; `keysym` is what the keyboard mapping gives for it.
    KeyPress { keysym: u32 },
    /// A key went up.
    KeyRelease { keysym: u32 },
    ButtonPress { detail: u8 },
    ButtonRelease { detail: u8 },
    /// The pointer moved; the position is relative to the window.
    MotionNotify { event_x: i16, event_y: i16 },
    /// The window was moved, sized or restacked.
    ConfigureNotify { width: u16, height: u16 },
    ClientMessage { data: ClientMessageData },
    /// Any other event.
    Other,
}

/// Whether position and size fit the fields of a window request.
pub open spec fn geometry_fits(x: i32, y: i32, width: i32, height: i32) -> bool {
    &&& i16::MIN <= x <= i16::MAX
    &&& i16::MIN <= y <= i16::MAX
    &&& 0 <= width <= u16::MAX
    &&& 0 <= height <= u16::MAX
}

/// Says whether position and size fit the fields of a window request.
pub fn geometry_is_in_range(x: i32, y: i32, width: i32, height: i32) -> (fits: bool)
    ensures
        fits == geometry_fits(x, y, width, height),
{
    -0x8000 <= x && x <= 0x7FFF && -0x8000 <= y && y <= 0x7FFF && 0 <= width && width <= 0xFFFF
        && 0 <= height && height <= 0xFFFF
}

/// Converts a position and size that fit to the fields of a window request.
pub fn window_geometry(x: i32, y: i32, width: i32, height: i32) -> (geometry: XGeometry)
    requires
        geometry_fits(x, y, width, height),
    ensures
        geometry.x == x,
        geometry.y == y,
        geometry.width == width,
        geometry.height == height,
{
    XGeometry { x: x as i16, y: y as i16, width: width as u16, height: height as u16 }
}

/// Converts position and size to the fields of a window request, if they fit.
pub fn try_window_geometry(x: i32, y: i32, width: i32, height: i32) -> (geometry: Option<
    XGeometry,
>)
    ensures
        geometry is Some <==> geometry_fits(x, y, width, height),
        geometry matches Some(g) ==> g.x == x && g.y == y && g.width == width && g.height
            == height,
{
    if geometry_is_in_range(x, y, width, height) {
        Some(window_geometry(x, y, width, height))
    } else {
        None
    }
}

/// The shift level at which a keycode is looked up in the keyboard mapping:
/// the upper level for an even keycode, the lower for an odd one.
pub open spec fn shift_level(x_keycode: u8) -> i32 {
    if x_keycode % 2 == 0 {
        1
    } else {
        0
    }
}

/// Chooses the shift level for the lookup of `x_keycode`.
pub fn keysym_level(x_keycode: u8) -> (level: i32)
    ensures
        level == shift_level(x_keycode),
{
    let bit: u8 = x_keycode & 1;
    proof {
        assert((bit == 0) == (x_keycode % 2 == 0)) by (bit_vector)
            requires
                bit == x_keycode & 1,
        ;
    }
    if bit == 0 {
        1
    } else {
        0
    }
}

/// Whether `keysym` stands for `key`. A letter has two keysyms, one for each
/// case; some keys have none.
pub open spec fn keysym_names(keysym: u32, key: Keys) -> bool {
    match key {
        Keys::Backspace => keysym == 0xFF08,
        Keys::Enter => keysym == 0xFF0D,
        Keys::Tab => keysym == 0xFF09,
        Keys::Shift => false,
        Keys::Control => false,

        Keys::Pause => keysym == 0xFF13,
        Keys::Capital => keysym == 0xFFE5,

        Keys::Escape => keysym == 0xFF1B,

        Keys::Convert => false,
        Keys::Nonconvert => false,
        Keys::Accept => false,
        Keys::Modechange => keysym == 0xFF7E,

        Keys::Space => keysym == 0x20,
        Keys::Prior => keysym == 0xFF55,
        Keys::Next => keysym == 0xFF56,
        Keys::End => keysym == 0xFF57,
        Keys::Home => keysym == 0xFF50,
        Keys::Left => keysym == 0xFF51,
        Keys::Up => keysym == 0xFF52,
        Keys::Right => keysym == 0xFF53,
        Keys::Down => keysym == 0xFF54,
        Keys::Select => keysym == 0xFF60,
        Keys::Print => keysym == 0xFF61,
        Keys::Execute => keysym == 0xFF62,
        Keys::Snapshot => false,
        Keys::Insert => keysym == 0xFF63,
        Keys::Delete => keysym == 0xFFFF,
        Keys::Help => keysym == 0xFF6A,

        Keys::A => keysym == 0x61 || keysym == 0x41,
        Keys::B => keysym == 0x62 || keysym == 0x42,
        Keys::C => keysym == 0x63 || keysym == 0x43,
        Keys::D => keysym == 0x64 || keysym == 0x44,
        Keys::E => keysym == 0x65 || keysym == 0x45,
        Keys::F => keysym == 0x66 || keysym == 0x46,
        Keys::G => keysym == 0x67 || keysym == 0x47,
        Keys::H => keysym == 0x68 || keysym == 0x48,
        Keys::I => keysym == 0x69 || keysym == 0x49,
        Keys::J => keysym == 0x6A || keysym == 0x4A,
        Keys::K => keysym == 0x6B || keysym == 0x4B,
        Keys::L => keysym == 0x6C || keysym == 0x4C,
        Keys::M => keysym == 0x6D || keysym == 0x4D,
        Keys::N => keysym == 0x6E || keysym == 0x4E,
        Keys::O => keysym == 0x6F || keysym == 0x4F,
        Keys::P => keysym == 0x70 || keysym == 0x50,
        Keys::Q => keysym == 0x71 || keysym == 0x51,
        Keys::R => keysym == 0x72 || keysym == 0x52,
        Keys::S => keysym == 0x73 || keysym == 0x53,
        Keys::T => keysym == 0x74 || keysym == 0x54,
        Keys::U => keysym == 0x75 || keysym == 0x55,
        Keys::V => keysym == 0x76 || keysym == 0x56,
        Keys::W => keysym == 0x77 || keysym == 0x57,
        Keys::X => keysym == 0x78 || keysym == 0x58,
        Keys::Y => keysym == 0x79 || keysym == 0x59,
        Keys::Z => keysym == 0x7A || keysym == 0x5A,

        Keys::LWin => keysym == 0xFFEB,
        Keys::RWin => keysym == 0xFFEC,
        Keys::Apps => false,

        Keys::Sleep => false,

        Keys::Numpad0 => keysym == 0xFFB0,
        Keys::Numpad1 => keysym == 0xFFB1,
        Keys::Numpad2 => keysym == 0xFFB2,
        Keys::Numpad3 => keysym == 0xFFB3,
        Keys::Numpad4 => keysym == 0xFFB4,
        Keys::Numpad5 => keysym == 0xFFB5,
        Keys::Numpad6 => keysym == 0xFFB6,
        Keys::Numpad7 => keysym == 0xFFB7,
        Keys::Numpad8 => keysym == 0xFFB8,
        Keys::Numpad9 => keysym == 0xFFB9,
        Keys::Multiply => keysym == 0xD7,
        Keys::Add => keysym == 0xFFAB,
        Keys::Separator => keysym == 0xFFAC,
        Keys::Subtract => keysym == 0xFFAD,
        Keys::Decimal => keysym == 0xFFAE,
        Keys::Divide => keysym == 0xFFAF,
        Keys::F1 => keysym == 0xFFBE,
        Keys::F2 => keysym == 0xFFBF,
        Keys::F3 => keysym == 0xFFC0,
        Keys::F4 => keysym == 0xFFC1,
        Keys::F5 => keysym == 0xFFC2,
        Keys::F6 => keysym == 0xFFC3,
        Keys::F7 => keysym == 0xFFC4,
        Keys::F8 => keysym == 0xFFC5,
        Keys::F9 => keysym == 0xFFC6,
        Keys::F10 => keysym == 0xFFC7,
        Keys::F11 => keysym == 0xFFC8,
        Keys::F12 => keysym == 0xFFC9,
        Keys::F13 => keysym == 0xFFCA,
        Keys::F14 => keysym == 0xFFCB,
        Keys::F15 => keysym == 0xFFCC,
        Keys::F16 => keysym == 0xFFCD,
        Keys::F17 => keysym == 0xFFCE,
        Keys::F18 => keysym == 0xFFCF,
        Keys::F19 => keysym == 0xFFD0,
        Keys::F20 => keysym == 0xFFD1,
        Keys::F21 => keysym == 0xFFD2,
        Keys::F22 => keysym == 0xFFD3,
        Keys::F23 => keysym == 0xFFD4,
        Keys::F24 => keysym == 0xFFD5,

        Keys::Numlock => keysym == 0xFF7F,
        Keys::Scroll => keysym == 0xFF14,

        Keys::NumpadEqual => keysym == 0xFFBD,

        Keys::LShift => keysym == 0xFFE1,
        Keys::RShift => keysym == 0xFFE2,
        Keys::LControl => keysym == 0xFFE3,
        Keys::RControl => keysym == 0xFFE4,
        Keys::LMenu => false,
        Keys::RMenu => keysym == 0xFF67,

        Keys::Semicolon => keysym == 0x3B,
        Keys::Plus => keysym == 0x2B,
        Keys::Comma => keysym == 0x2C,
        Keys::Minus => keysym == 0x2D,
        Keys::Period => keysym == 0x2E,
        Keys::Slash => keysym == 0x2F,
        Keys::Grave => keysym == 0x60,
    }
}

/// Whether `keysym` stands for some key.
pub open spec fn is_keysym(keysym: u32) -> bool {
    ||| keysym == 0x20
    ||| 0x2B <= keysym <= 0x2F
    ||| keysym == 0x3B
    ||| 0x41 <= keysym <= 0x5A
    ||| 0x60 <= keysym <= 0x7A
    ||| keysym == 0xD7
    ||| 0xFF08 <= keysym <= 0xFF09
    ||| keysym == 0xFF0D
    ||| 0xFF13 <= keysym <= 0xFF14
    ||| keysym == 0xFF1B
    ||| 0xFF50 <= keysym <= 0xFF57
    ||| 0xFF60 <= keysym <= 0xFF63
    ||| keysym == 0xFF67
    ||| keysym == 0xFF6A
    ||| 0xFF7E <= keysym <= 0xFF7F
    ||| 0xFFAB <= keysym <= 0xFFB9
    ||| 0xFFBD <= keysym <= 0xFFD5
    ||| 0xFFE1 <= keysym <= 0xFFE5
    ||| 0xFFEB <= keysym <= 0xFFEC
    ||| keysym == 0xFFFF
}

/// The key that `keysym` stands for, if it stands for one.
pub open spec fn key_of_keysym(keysym: u32) -> Option<Keys> {
    match keysym {
        0xFF08 => Some(Keys::Backspace),
        0xFF0D => Some(Keys::Enter),
        0xFF09 => Some(Keys::Tab),

        0xFF13 => Some(Keys::Pause),
        0xFFE5 => Some(Keys::Capital),

        0xFF1B => Some(Keys::Escape),
        0xFF7E => Some(Keys::Modechange),

        0x20 => Some(Keys::Space),
        0xFF55 => Some(Keys::Prior),
        0xFF56 => Some(Keys::Next),
        0xFF57 => Some(Keys::End),
        0xFF50 => Some(Keys::Home),
        0xFF51 => Some(Keys::Left),
        0xFF52 => Some(Keys::Up),
        0xFF53 => Some(Keys::Right),
        0xFF54 => Some(Keys::Down),
        0xFF60 => Some(Keys::Select),
        0xFF61 => Some(Keys::Print),
        0xFF62 => Some(Keys::Execute),
        0xFF63 => Some(Keys::Insert),
        0xFFFF => Some(Keys::Delete),
        0xFF6A => Some(Keys::Help),

        0x61 | 0x41 => Some(Keys::A),
        0x62 | 0x42 => Some(Keys::B),
        0x63 | 0x43 => Some(Keys::C),
        0x64 | 0x44 => Some(Keys::D),
        0x65 | 0x45 => Some(Keys::E),
        0x66 | 0x46 => Some(Keys::F),
        0x67 | 0x47 => Some(Keys::G),
        0x68 | 0x48 => Some(Keys::H),
        0x69 | 0x49 => Some(Keys::I),
        0x6A | 0x4A => Some(Keys::J),
        0x6B | 0x4B => Some(Keys::K),
        0x6C | 0x4C => Some(Keys::L),
        0x6D | 0x4D => Some(Keys::M),
        0x6E | 0x4E => Some(Keys::N),
        0x6F | 0x4F => Some(Keys::O),
        0x70 | 0x50 => Some(Keys::P),
        0x71 | 0x51 => Some(Keys::Q),
        0x72 | 0x52 => Some(Keys::R),
        0x73 | 0x53 => Some(Keys::S),
        0x74 | 0x54 => Some(Keys::T),
        0x75 | 0x55 => Some(Keys::U),
        0x76 | 0x56 => Some(Keys::V),
        0x77 | 0x57 => Some(Keys::W),
        0x78 | 0x58 => Some(Keys::X),
        0x79 | 0x59 => Some(Keys::Y),
        0x7A | 0x5A => Some(Keys::Z),

        0xFFEB => Some(Keys::LWin),
        0xFFEC => Some(Keys::RWin),

        0xFFB0 => Some(Keys::Numpad0),
        0xFFB1 => Some(Keys::Numpad1),
        0xFFB2 => Some(Keys::Numpad2),
        0xFFB3 => Some(Keys::Numpad3),
        0xFFB4 => Some(Keys::Numpad4),
        0xFFB5 => Some(Keys::Numpad5),
        0xFFB6 => Some(Keys::Numpad6),
        0xFFB7 => Some(Keys::Numpad7),
        0xFFB8 => Some(Keys::Numpad8),
        0xFFB9 => Some(Keys::Numpad9),
        0xD7 => Some(Keys::Multiply),
        0xFFAB => Some(Keys::Add),
        0xFFAC => Some(Keys::Separator),
        0xFFAD => Some(Keys::Subtract),
        0xFFAE => Some(Keys::Decimal),
        0xFFAF => Some(Keys::Divide),
        0xFFBE => Some(Keys::F1),
        0xFFBF => Some(Keys::F2),
        0xFFC0 => Some(Keys::F3),
        0xFFC1 => Some(Keys::F4),
        0xFFC2 => Some(Keys::F5),
        0xFFC3 => Some(Keys::F6),
        0xFFC4 => Some(Keys::F7),
        0xFFC5 => Some(Keys::F8),
        0xFFC6 => Some(Keys::F9),
        0xFFC7 => Some(Keys::F10),
        0xFFC8 => Some(Keys::F11),
        0xFFC9 => Some(Keys::F12),
        0xFFCA => Some(Keys::F13),
        0xFFCB => Some(Keys::F14),
        0xFFCC => Some(Keys::F15),
        0xFFCD => Some(Keys::F16),
        0xFFCE => Some(Keys::F17),
        0xFFCF => Some(Keys::F18),
        0xFFD0 => Some(Keys::F19),
        0xFFD1 => Some(Keys::F20),
        0xFFD2 => Some(Keys::F21),
        0xFFD3 => Some(Keys::F22),
        0xFFD4 => Some(Keys::F23),
        0xFFD5 => Some(Keys::F24),

        0xFF7F => Some(Keys::Numlock),
        0xFF14 => Some(Keys::Scroll),

        0xFFBD => Some(Keys::NumpadEqual),

        0xFFE1 => Some(Keys::LShift),
        0xFFE2 => Some(Keys::RShift),
        0xFFE3 => Some(Keys::LControl),
        0xFFE4 => Some(Keys::RControl),
        0xFF67 => Some(Keys::RMenu),

        0x3B => Some(Keys::Semicolon),
        0x2B => Some(Keys::Plus),
        0x2C => Some(Keys::Comma),
        0x2D => Some(Keys::Minus),
        0x2E => Some(Keys::Period),
        0x2F => Some(Keys::Slash),
        0x60 => Some(Keys::Grave),
        _ => None,
    }
}

/// A keysym stands for at most one key.
pub proof fn lemma_keysym_names_one_key(keysym: u32, a: Keys, b: Keys)
    requires
        keysym_names(keysym, a),
        keysym_names(keysym, b),
    ensures
        a == b,
{
}

/// A keysym is decoded to the key that it stands for, and to no other.
pub proof fn lemma_key_of_keysym(keysym: u32, key: Keys)
    ensures
        key_of_keysym(keysym) == Some(key) <==> keysym_names(keysym, key),
{
}

/// The keysyms that are decoded are those that `is_keysym` accepts.
pub proof fn lemma_is_keysym(keysym: u32)
    ensures
        key_of_keysym(keysym) is Some <==> is_keysym(keysym),
{
}

/// The key event that a keysym stands for.
pub open spec fn key_event(keysym: u32, down: bool) -> Decoded {
    match key_of_keysym(keysym) {
        Some(key) => Ok(
            Some(
                WindowEvent::Input(
                    if down {
                        WindowInputEvent::KeyDown(key)
                    } else {
                        WindowInputEvent::KeyUp(key)
                    },
                ),
            ),
        ),
        None => Err(DecodeError::UnrecognizedKeyCode),
    }
}

/// The mouse button with the button code `detail`, if it is one of the three
/// that the library knows.
pub open spec fn button_of_code(detail: u8) -> Option<MouseButton> {
    if detail == 1 {
        Some(MouseButton::Left)
    } else if detail == 2 {
        Some(MouseButton::Middle)
    } else if detail == 3 {
        Some(MouseButton::Right)
    } else {
        None
    }
}

/// The button event that a button code stands for.
pub open spec fn button_event(detail: u8, down: bool) -> Decoded {
    match button_of_code(detail) {
        Some(button) => Ok(
            Some(
                WindowEvent::Input(
                    if down {
                        WindowInputEvent::MouseDown(button)
                    } else {
                        WindowInputEvent::MouseUp(button)
                    },
                ),
            ),
        ),
        None => Err(DecodeError::UnrecognizedButtonCode),
    }
}

/// Whether a client message asks to close the window: its payload is in the
/// 32-bit format and starts with the atom that the window registered for
/// deletion.
pub open spec fn is_delete_request(data: ClientMessageData, wm_del_window: u32) -> bool {
    data matches ClientMessageData::Data32(words) && words[0] == wm_del_window
}

/// What an event stands for: a portable event, nothing, or a code that cannot
/// be decoded. A configure notification stands for a `Resize` with the size it
/// reports, whether or not the size is new; the window decides what to report.
pub open spec fn decode(event: XEvent, wm_del_window: u32) -> Decoded {
    match event {
        XEvent::KeyPress { keysym } => key_event(keysym, true),
        XEvent::KeyRelease { keysym } => key_event(keysym, false),
        XEvent::ButtonPress { detail } => button_event(detail, true),
        XEvent::ButtonRelease { detail } => button_event(detail, false),
        XEvent::MotionNotify { event_x, event_y } => Ok(
            Some(WindowEvent::Input(WindowInputEvent::MouseMove(event_x, event_y))),
        ),
        XEvent::ConfigureNotify { width, height } => Ok(
            Some(WindowEvent::Resize(width as u32, height as u32)),
        ),
        XEvent::ClientMessage { data } => if is_delete_request(data, wm_del_window) {
            Ok(Some(WindowEvent::Close))
        } else {
            Ok(None)
        },
        XEvent::Other => Ok(None),
    }
}

/// Decodes a keysym. One that stands for no key is reported as
/// `UnrecognizedKeyCode`.
pub fn try_translate_key_code(keysym: u32) -> (r: Result<Keys, DecodeError>)
    ensures
        r == match key_of_keysym(keysym) {
            Some(k) => Ok::<Keys, DecodeError>(k),
            None => Err::<Keys, DecodeError>(DecodeError::UnrecognizedKeyCode),
        },
        r is Ok <==> is_keysym(keysym),
        r matches Ok(k) ==> keysym_names(keysym, k),
{
    let key = match keysym {
        0xFF08 => Keys::Backspace,
        0xFF0D => Keys::Enter,
        0xFF09 => Keys::Tab,

        0xFF13 => Keys::Pause,
        0xFFE5 => Keys::Capital,

        0xFF1B => Keys::Escape,
        0xFF7E => Keys::Modechange,

        0x20 => Keys::Space,
        0xFF55 => Keys::Prior,
        0xFF56 => Keys::Next,
        0xFF57 => Keys::End,
        0xFF50 => Keys::Home,
        0xFF51 => Keys::Left,
        0xFF52 => Keys::Up,
        0xFF53 => Keys::Right,
        0xFF54 => Keys::Down,
        0xFF60 => Keys::Select,
        0xFF61 => Keys::Print,
        0xFF62 => Keys::Execute,
        0xFF63 => Keys::Insert,
        0xFFFF => Keys::Delete,
        0xFF6A => Keys::Help,

        0x61 | 0x41 => Keys::A,
        0x62 | 0x42 => Keys::B,
        0x63 | 0x43 => Keys::C,
        0x64 | 0x44 => Keys::D,
        0x65 | 0x45 => Keys::E,
        0x66 | 0x46 => Keys::F,
        0x67 | 0x47 => Keys::G,
        0x68 | 0x48 => Keys::H,
        0x69 | 0x49 => Keys::I,
        0x6A | 0x4A => Keys::J,
        0x6B | 0x4B => Keys::K,
        0x6C | 0x4C => Keys::L,
        0x6D | 0x4D => Keys::M,
        0x6E | 0x4E => Keys::N,
        0x6F | 0x4F => Keys::O,
        0x70 | 0x50 => Keys::P,
        0x71 | 0x51 => Keys::Q,
        0x72 | 0x52 => Keys::R,
        0x73 | 0x53 => Keys::S,
        0x74 | 0x54 => Keys::T,
        0x75 | 0x55 => Keys::U,
        0x76 | 0x56 => Keys::V,
        0x77 | 0x57 => Keys::W,
        0x78 | 0x58 => Keys::X,
        0x79 | 0x59 => Keys::Y,
        0x7A | 0x5A => Keys::Z,

        0xFFEB => Keys::LWin,
        0xFFEC => Keys::RWin,

        0xFFB0 => Keys::Numpad0,
        0xFFB1 => Keys::Numpad1,
        0xFFB2 => Keys::Numpad2,
        0xFFB3 => Keys::Numpad3,
        0xFFB4 => Keys::Numpad4,
        0xFFB5 => Keys::Numpad5,
        0xFFB6 => Keys::Numpad6,
        0xFFB7 => Keys::Numpad7,
        0xFFB8 => Keys::Numpad8,
        0xFFB9 => Keys::Numpad9,
        0xD7 => Keys::Multiply,
        0xFFAB => Keys::Add,
        0xFFAC => Keys::Separator,
        0xFFAD => Keys::Subtract,
        0xFFAE => Keys::Decimal,
        0xFFAF => Keys::Divide,
        0xFFBE => Keys::F1,
        0xFFBF => Keys::F2,
        0xFFC0 => Keys::F3,
        0xFFC1 => Keys::F4,
        0xFFC2 => Keys::F5,
        0xFFC3 => Keys::F6,
        0xFFC4 => Keys::F7,
        0xFFC5 => Keys::F8,
        0xFFC6 => Keys::F9,
        0xFFC7 => Keys::F10,
        0xFFC8 => Keys::F11,
        0xFFC9 => Keys::F12,
        0xFFCA => Keys::F13,
        0xFFCB => Keys::F14,
        0xFFCC => Keys::F15,
        0xFFCD => Keys::F16,
        0xFFCE => Keys::F17,
        0xFFCF => Keys::F18,
        0xFFD0 => Keys::F19,
        0xFFD1 => Keys::F20,
        0xFFD2 => Keys::F21,
        0xFFD3 => Keys::F22,
        0xFFD4 => Keys::F23,
        0xFFD5 => Keys::F24,

        0xFF7F => Keys::Numlock,
        0xFF14 => Keys::Scroll,

        0xFFBD => Keys::NumpadEqual,

        0xFFE1 => Keys::LShift,
        0xFFE2 => Keys::RShift,
        0xFFE3 => Keys::LControl,
        0xFFE4 => Keys::RControl,
        0xFF67 => Keys::RMenu,

        0x3B => Keys::Semicolon,
        0x2B => Keys::Plus,
        0x2C => Keys::Comma,
        0x2D => Keys::Minus,
        0x2E => Keys::Period,
        0x2F => Keys::Slash,
        0x60 => Keys::Grave,
        _ => {
            return Err(DecodeError::UnrecognizedKeyCode);
        },
    };
    Ok(key)
}

/// Decodes a keysym that is known to stand for a key.
pub fn translate_key_code(keysym: u32) -> (key: Keys)
    requires
        is_keysym(keysym),
    ensures
        key_of_keysym(keysym) == Some(key),
        keysym_names(keysym, key),
{
    match try_translate_key_code(keysym) {
        Ok(key) => key,
        Err(_) => vstd::pervasive::unreached(),
    }
}

/// Decodes a button code. One that is neither left, middle nor right is
/// reported as `UnrecognizedButtonCode`.
pub fn try_translate_button(detail: u8) -> (r: Result<MouseButton, DecodeError>)
    ensures
        r == match button_of_code(detail) {
            Some(b) => Ok::<MouseButton, DecodeError>(b),
            None => Err::<MouseButton, DecodeError>(DecodeError::UnrecognizedButtonCode),
        },
{
    match detail {
        1 => Ok(MouseButton::Left),
        2 => Ok(MouseButton::Middle),
        3 => Ok(MouseButton::Right),
        _ => Err(DecodeError::UnrecognizedButtonCode),
    }
}

/// Decodes a button code that is known to be left, middle or right.
pub fn translate_button(detail: u8) -> (button: MouseButton)
    requires
        1 <= detail <= 3,
    ensures
        button_of_code(detail) == Some(button),
{
    match try_translate_button(detail) {
        Ok(button) => button,
        Err(_) => vstd::pervasive::unreached(),
    }
}

fn decode_key(keysym: u32, down: bool) -> (decoded: Decoded)
    ensures
        decoded == key_event(keysym, down),
{
    match try_translate_key_code(keysym) {
        Ok(key) => Ok(
            Some(
                WindowEvent::Input(
                    if down {
                        WindowInputEvent::KeyDown(key)
                    } else {
                        WindowInputEvent::KeyUp(key)
                    },
                ),
            ),
        ),
        Err(e) => Err(e),
    }
}

fn decode_button(detail: u8, down: bool) -> (decoded: Decoded)
    ensures
        decoded == button_event(detail, down),
{
    match try_translate_button(detail) {
        Ok(button) => Ok(
            Some(
                WindowEvent::Input(
                    if down {
                        WindowInputEvent::MouseDown(button)
                    } else {
                        WindowInputEvent::MouseUp(button)
                    },
                ),
            ),
        ),
        Err(e) => Err(e),
    }
}

/// Translates one event. `wm_del_window` is the atom that the window
/// registered for deletion requests.
pub fn decode_event(event: &XEvent, wm_del_window: u32) -> (decoded: Decoded)
    ensures
        decoded == decode(*event, wm_del_window),
{
    match event {
        XEvent::KeyPress { keysym } => decode_key(*keysym, true),
        XEvent::KeyRelease { keysym } => decode_key(*keysym, false),
        XEvent::ButtonPress { detail } => decode_button(*detail, true),
        XEvent::ButtonRelease { detail } => decode_button(*detail, false),
        XEvent::MotionNotify { event_x, event_y } => Ok(
            Some(WindowEvent::Input(WindowInputEvent::MouseMove(*event_x, *event_y))),
        ),
        XEvent::ConfigureNotify { width, height } => Ok(
            Some(WindowEvent::Resize(*width as u32, *height as u32)),
        ),
        XEvent::ClientMessage { data } => match data {
            ClientMessageData::Data32(words) => {
                if words[0] == wm_del_window {
                    Ok(Some(WindowEvent::Close))
                } else {
                    Ok(None)
                }
            },
            _ => Ok(None),
        },
        XEvent::Other => Ok(None),
    }
}

} // verus!

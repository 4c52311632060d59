//! The Win32 side: what the window procedure decides, where the native window
//! is placed, and how queued messages become portable events.
use vstd::prelude::*;

use crate::event::DecodeError;
use crate::event::Decoded;
use crate::event::MouseButton;
use crate::event::WindowEvent;
use crate::event::WindowInputEvent;
use crate::keys::Keys;
use crate::utility::get_wheel_delta_wparam;
use crate::utility::get_x_y_lparam;
use crate::utility::wheel_delta_of_wparam;
use crate::utility::x_y_of_lparam;

verus! {

pub const WM_DESTROY: u32 = 0x0002;

pub const WM_CLOSE: u32 = 0x0010;

pub const WM_ERASEBKGND: u32 = 0x0014;

pub const WM_KEYDOWN: u32 = 0x0100;

pub const WM_KEYUP: u32 = 0x0101;

pub const WM_SYSKEYDOWN: u32 = 0x0104;

pub const WM_SYSKEYUP: u32 = 0x0105;

pub const WM_MOUSEMOVE: u32 = 0x0200;

pub const WM_LBUTTONDOWN: u32 = 0x0201;

pub const WM_LBUTTONUP: u32 = 0x0202;

pub const WM_RBUTTONDOWN: u32 = 0x0204;

pub const WM_RBUTTONUP: u32 = 0x0205;

pub const WM_MBUTTONDOWN: u32 = 0x0207;

pub const WM_MBUTTONUP: u32 = 0x0208;

pub const WM_MOUSEWHEEL: u32 = 0x020A;

pub const WM_EXITSIZEMOVE: u32 = 0x0232;

/// The first message number that an application may define for itself.
pub const WM_USER: u32 = 0x0400;

/// Posted by the window procedure when the user asks to close the window.
pub const CUSTOM_CLOSE_MESSAGE: u32 = WM_USER;

/// Posted by the window procedure when the user has finished moving or sizing
/// the window.
pub const CUSTOM_SIZE_MESSAGE: u32 = WM_USER + 1;

/// Double clicks are delivered to the window.
pub const CLASS_STYLE: u32 = 0x0008;

/// An overlapped window with caption, system menu, sizing frame and both
/// caption buttons.
pub const WINDOW_STYLE: u32 = 0x00CF_0000;

/// The window appears on the task bar.
pub const WINDOW_EX_STYLE: u32 = 0x0004_0000;

/// How the window is shown: always activated.
pub const SHOW_COMMAND: i32 = 5;

/// A rectangle in pixels, as Win32 reports it.
#[derive(Clone, Copy, Debug, PartialEq, Eq, Structural)]
pub struct Rect {
    pub left: i32,
    pub top: i32,
    pub right: i32,
    pub bottom: i32,
}

/// One message taken from the window's queue.
#[derive(Clone, Copy, Debug, PartialEq, Eq, Structural)]
pub struct Win32Message {
    pub message: u32,
    pub w_param: usize,
    pub l_param: isize,
    /// The client rectangle at the time the message was taken. Only the size
    /// message reads it.
    pub client: Rect,
}

/// What the window procedure does with a message.
#[derive(Clone, Copy, Debug, PartialEq, Eq, Structural)]
pub struct WindowProcPlan {
    /// A message to post to the window's own queue first.
    pub post: Option<u32>,
    /// An exit code with which to ask the message loop to end.
    pub quit: Option<i32>,
    /// The answer to give. Without one the system's default procedure handles
    /// the message and answers.
    pub answer: Option<isize>,
}

/// Position and size of the native window, frame included.
#[derive(Clone, Copy, Debug, PartialEq, Eq, Structural)]
pub struct Placement {
    pub x: i32,
    pub y: i32,
    pub width: i32,
    pub height: i32,
}

/// The window procedure's rules. Erasing the background is claimed as done. A
/// close request and the end of a move or size are posted on as messages of
/// the library's own, the first answered here, so that the system's default
/// procedure cannot destroy the window; the second still goes through the
/// default procedure. Destruction ends the message loop.
pub open spec fn window_procedure(msg: u32) -> WindowProcPlan {
    if msg == WM_ERASEBKGND {
        WindowProcPlan { post: None, quit: None, answer: Some(1) }
    } else if msg == WM_CLOSE {
        WindowProcPlan { post: Some(CUSTOM_CLOSE_MESSAGE), quit: None, answer: Some(0) }
    } else if msg == WM_DESTROY {
        WindowProcPlan { post: None, quit: Some(0), answer: Some(0) }
    } else if msg == WM_EXITSIZEMOVE {
        WindowProcPlan { post: Some(CUSTOM_SIZE_MESSAGE), quit: None, answer: None }
    } else {
        WindowProcPlan { post: None, quit: None, answer: None }
    }
}

/// Decides what the window procedure does with the message numbered `msg`.
pub fn win32_process_message(msg: u32) -> (plan: WindowProcPlan)
    ensures
        plan == window_procedure(msg),
{
    if msg == WM_ERASEBKGND {
        WindowProcPlan { post: None, quit: None, answer: Some(1) }
    } else if msg == WM_CLOSE {
        WindowProcPlan { post: Some(CUSTOM_CLOSE_MESSAGE), quit: None, answer: Some(0) }
    } else if msg == WM_DESTROY {
        WindowProcPlan { post: None, quit: Some(0), answer: Some(0) }
    } else if msg == WM_EXITSIZEMOVE {
        WindowProcPlan { post: Some(CUSTOM_SIZE_MESSAGE), quit: None, answer: None }
    } else {
        WindowProcPlan { post: None, quit: None, answer: None }
    }
}

/// Whether a queued message goes through the system's translate and dispatch
/// step: every message but the two that the window procedure posted itself.
pub fn needs_dispatch(message: u32) -> (dispatch: bool)
    ensures
        dispatch == (message != CUSTOM_CLOSE_MESSAGE && message != CUSTOM_SIZE_MESSAGE),
{
    message != CUSTOM_CLOSE_MESSAGE && message != CUSTOM_SIZE_MESSAGE
}

/// Whether the native window's size, frame included, fits its coordinates.
pub open spec fn placement_fits(width: i32, height: i32, border: Rect) -> bool {
    &&& i32::MIN <= width + (border.right - border.left) <= i32::MAX
    &&& i32::MIN <= height + (border.bottom - border.top) <= i32::MAX
}

/// Places the native window at the position asked for, and enlarges the size
/// asked for by the frame, so that the client area gets that size. `border` is
/// what the system adds round an empty client area: `left` and `top` are zero
/// or negative, `right` and `bottom` zero or positive. There is no placement
/// when a size leaves the range of `i32`.
pub fn outer_placement(x: i32, y: i32, width: i32, height: i32, border: &Rect) -> (placement:
    Option<Placement>)
    ensures
        placement is Some <==> placement_fits(width, height, *border),
        placement matches Some(p) ==> {
            &&& p.x == x
            &&& p.y == y
            &&& p.width == width + (border.right - border.left)
            &&& p.height == height + (border.bottom - border.top)
        },
{
    let outer_width: i64 = width as i64 + (border.right as i64 - border.left as i64);
    let outer_height: i64 = height as i64 + (border.bottom as i64 - border.top as i64);
    if fits_i32(outer_width) && fits_i32(outer_height) {
        Some(Placement { x, y, width: outer_width as i32, height: outer_height as i32 })
    } else {
        None
    }
}

fn fits_i32(value: i64) -> (fits: bool)
    ensures
        fits == (i32::MIN <= value <= i32::MAX),
{
    -0x8000_0000 <= value && value <= 0x7FFF_FFFF
}

/// The UTF-16 code units of one character: the character itself below
/// U+10000, else a high and a low surrogate that share the 20 bits left
/// after U+10000 is taken off.
pub open spec fn utf16_of_char(c: char) -> Seq<u16> {
    if (c as int) < 0x1_0000 {
        seq![(c as int) as u16]
    } else {
        seq![
            (0xD800 + ((c as int) - 0x1_0000) / 0x400) as u16,
            (0xDC00 + ((c as int) - 0x1_0000) % 0x400) as u16,
        ]
    }
}

/// A text in UTF-16: the code units of its characters, in order.
pub open spec fn utf16(text: Seq<char>) -> Seq<u16>
    decreases text.len(),
{
    if text.len() == 0 {
        Seq::empty()
    } else {
        utf16(text.drop_last()) + utf16_of_char(text.last())
    }
}

/// Calls `str::encode_utf16` of the standard library and collects what it
/// yields. Not proved: that the units are the UTF-16 encoding of the text,
/// which is what the standard library documents of it.
#[verifier::external_body]
fn encode_utf16(s: &str) -> (units: Vec<u16>)
    ensures
        units@ == utf16(s@),
{
    s.encode_utf16().collect()
}

/// The text as the system takes it: in UTF-16, ended by a zero.
pub fn wide_null(s: &str) -> (wide: Vec<u16>)
    ensures
        wide@ == utf16(s@).push(0),
{
    let mut wide = encode_utf16(s);
    wide.push(0);
    wide
}

/// A difference of two coordinates as an unsigned size: its 32 lowest bits.
pub open spec fn extent(from: i32, to: i32) -> u32 {
    ((to - from) % 0x1_0000_0000) as u32
}

/// Width and height of a client rectangle.
pub open spec fn client_size(client: Rect) -> (u32, u32) {
    (extent(client.left, client.right), extent(client.top, client.bottom))
}

/// Whether a key-down message repeats a key that is already down: bit 30 of
/// its `l_param`.
pub open spec fn is_repeat(l_param: isize) -> bool {
    ((l_param as int) / 0x4000_0000) % 2 == 1
}

/// The direction of a wheel rotation: `-1` for a negative one, else `1`.
pub open spec fn wheel_direction(delta: i16) -> i16 {
    if delta < 0 {
        -1i16
    } else {
        1i16
    }
}

/// The key event that a key message stands for.
pub open spec fn key_event(w_param: usize, down: bool) -> Decoded {
    match Keys::of_virtual_key(w_param) {
        Some(key) => Ok(
            Some(
                WindowEvent::Input(
                    if down {
                        WindowInputEvent::KeyDown(key)
                    } else {
                        WindowInputEvent::KeyUp(key)
                    },
                ),
            ),
        ),
        None => Err(DecodeError::UnrecognizedKeyCode),
    }
}

/// The mouse button that a button message names, and whether it went down.
pub open spec fn button_of_message(message: u32) -> Option<(MouseButton, bool)> {
    if message == WM_LBUTTONDOWN {
        Some((MouseButton::Left, true))
    } else if message == WM_MBUTTONDOWN {
        Some((MouseButton::Middle, true))
    } else if message == WM_RBUTTONDOWN {
        Some((MouseButton::Right, true))
    } else if message == WM_LBUTTONUP {
        Some((MouseButton::Left, false))
    } else if message == WM_MBUTTONUP {
        Some((MouseButton::Middle, false))
    } else if message == WM_RBUTTONUP {
        Some((MouseButton::Right, false))
    } else {
        None
    }
}

/// What a queued message stands for: an event, nothing, or a code that cannot
/// be decoded. A size message stands for a `Resize` with the current client
/// size, whether or not the size is new; the window decides what to report.
pub open spec fn decode(m: Win32Message) -> Decoded {
    if m.message == CUSTOM_CLOSE_MESSAGE {
        Ok(Some(WindowEvent::Close))
    } else if m.message == CUSTOM_SIZE_MESSAGE {
        Ok(Some(WindowEvent::Resize(client_size(m.client).0, client_size(m.client).1)))
    } else if m.message == WM_MOUSEMOVE {
        Ok(
            Some(
                WindowEvent::Input(
                    WindowInputEvent::MouseMove(
                        x_y_of_lparam(m.l_param).0,
                        x_y_of_lparam(m.l_param).1,
                    ),
                ),
            ),
        )
    } else if m.message == WM_KEYDOWN || m.message == WM_SYSKEYDOWN {
        if is_repeat(m.l_param) {
            Ok(None)
        } else {
            key_event(m.w_param, true)
        }
    } else if m.message == WM_KEYUP || m.message == WM_SYSKEYUP {
        key_event(m.w_param, false)
    } else if m.message == WM_MOUSEWHEEL {
        Ok(
            Some(
                WindowEvent::Input(
                    WindowInputEvent::MouseWheelMove(
                        wheel_direction(wheel_delta_of_wparam(m.w_param)),
                    ),
                ),
            ),
        )
    } else {
        match button_of_message(m.message) {
            Some((button, true)) => Ok(
                Some(WindowEvent::Input(WindowInputEvent::MouseDown(button))),
            ),
            Some((button, false)) => Ok(
                Some(WindowEvent::Input(WindowInputEvent::MouseUp(button))),
            ),
            None => Ok(None),
        }
    }
}

/// Of a wheel rotation only the direction is reported: two wheel messages
/// that turn the same way stand for the same event.
pub proof fn lemma_wheel_magnitude_is_dropped(a: Win32Message, b: Win32Message)
    requires
        a.message == WM_MOUSEWHEEL,
        b.message == WM_MOUSEWHEEL,
        wheel_delta_of_wparam(a.w_param) < 0 <==> wheel_delta_of_wparam(b.w_param) < 0,
    ensures
        decode(a) == decode(b),
{
}

/// A key-down message that repeats a key already held stands for nothing,
/// whatever its `w_param` holds; a key-up message of a key stands for that
/// key's `KeyUp`, whatever its repeat bit holds.
pub proof fn lemma_key_messages(m: Win32Message, key: Keys)
    ensures
        (m.message == WM_KEYDOWN || m.message == WM_SYSKEYDOWN) && is_repeat(m.l_param)
            ==> decode(m) == Ok::<Option<WindowEvent>, DecodeError>(None),
        (m.message == WM_KEYUP || m.message == WM_SYSKEYUP) && m.w_param == key.virtual_key()
            ==> decode(m) == Ok::<Option<WindowEvent>, DecodeError>(
            Some(WindowEvent::Input(WindowInputEvent::KeyUp(key))),
        ),
{
    Keys::lemma_of_virtual_key(key, m.w_param);
}

/// Reduces a wheel rotation to its direction.
pub fn normalize_wheel_delta(delta: i16) -> (direction: i16)
    ensures
        direction == wheel_direction(delta),
        direction == 1 || direction == -1,
        delta > 0 ==> direction == 1,
        delta < 0 ==> direction == -1,
{
    if delta < 0 {
        -1
    } else {
        1
    }
}

/// Width and height of the client rectangle that came with a size message.
pub fn client_size_of(client: &Rect) -> (size: (u32, u32))
    ensures
        size == client_size(*client),
{
    let width: i64 = client.right as i64 - client.left as i64;
    let height: i64 = client.bottom as i64 - client.top as i64;
    proof {
        assert((width as u32) as int == (width as int) % 0x1_0000_0000) by (bit_vector);
        assert((height as u32) as int == (height as int) % 0x1_0000_0000) by (bit_vector);
    }
    (#[verifier::truncate] (width as u32), #[verifier::truncate] (height as u32))
}

/// Reads the repeat bit of a key-down message.
pub fn key_is_repeat(l_param: isize) -> (repeat: bool)
    ensures
        repeat == is_repeat(l_param),
{
    let bit: isize = (l_param >> 30) & 1;
    proof {
        assert((bit != 0) == (((l_param as int) / 0x4000_0000) % 2 == 1)) by (bit_vector)
            requires
                bit == (l_param >> 30) & 1,
        ;
    }
    bit != 0
}

fn decode_key(w_param: usize, down: bool) -> (decoded: Decoded)
    ensures
        decoded == key_event(w_param, down),
{
    match Keys::try_from_usize(w_param) {
        Ok(key) => Ok(
            Some(
                WindowEvent::Input(
                    if down {
                        WindowInputEvent::KeyDown(key)
                    } else {
                        WindowInputEvent::KeyUp(key)
                    },
                ),
            ),
        ),
        Err(e) => Err(e),
    }
}

/// Translates one queued message.
pub fn decode_message(m: &Win32Message) -> (decoded: Decoded)
    ensures
        decoded == decode(*m),
{
    let message: u32 = m.message;
    if message == CUSTOM_CLOSE_MESSAGE {
        Ok(Some(WindowEvent::Close))
    } else if message == CUSTOM_SIZE_MESSAGE {
        let size = client_size_of(&m.client);
        Ok(Some(WindowEvent::Resize(size.0, size.1)))
    } else if message == WM_MOUSEMOVE {
        let position = get_x_y_lparam(m.l_param);
        Ok(Some(WindowEvent::Input(WindowInputEvent::MouseMove(position.0, position.1))))
    } else if message == WM_KEYDOWN || message == WM_SYSKEYDOWN {
        if key_is_repeat(m.l_param) {
            Ok(None)
        } else {
            decode_key(m.w_param, true)
        }
    } else if message == WM_KEYUP || message == WM_SYSKEYUP {
        decode_key(m.w_param, false)
    } else if message == WM_MOUSEWHEEL {
        let direction = normalize_wheel_delta(get_wheel_delta_wparam(m.w_param));
        Ok(Some(WindowEvent::Input(WindowInputEvent::MouseWheelMove(direction))))
    } else if message == WM_LBUTTONDOWN {
        Ok(Some(WindowEvent::Input(WindowInputEvent::MouseDown(MouseButton::Left))))
    } else if message == WM_MBUTTONDOWN {
        Ok(Some(WindowEvent::Input(WindowInputEvent::MouseDown(MouseButton::Middle))))
    } else if message == WM_RBUTTONDOWN {
        Ok(Some(WindowEvent::Input(WindowInputEvent::MouseDown(MouseButton::Right))))
    } else if message == WM_LBUTTONUP {
        Ok(Some(WindowEvent::Input(WindowInputEvent::MouseUp(MouseButton::Left))))
    } else if message == WM_MBUTTONUP {
        Ok(Some(WindowEvent::Input(WindowInputEvent::MouseUp(MouseButton::Middle))))
    } else if message == WM_RBUTTONUP {
        Ok(Some(WindowEvent::Input(WindowInputEvent::MouseUp(MouseButton::Right))))
    } else {
        Ok(None)
    }
}

} // verus!

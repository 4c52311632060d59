//! The portable events a window reports, and the ways decoding can fail.
use vstd::prelude::*;

use crate::keys::Keys;

verus! {

/// A mouse button the library knows.
#[derive(Clone, Copy, Debug, PartialEq, Eq, Structural)]
pub enum MouseButton {
    Left,
    Right,
    Middle,
}

impl MouseButton {
    /// The button's name as a sequence of characters.
    pub open spec fn name(self) -> Seq<char> {
        match self {
            MouseButton::Left => "Left"@,
            MouseButton::Middle => "Middle"@,
            MouseButton::Right => "Right"@,
        }
    }

    /// The button's name.
    pub fn as_str(&self) -> (s: &str)
        ensures
            s@ == self.name(),
    {
        match self {
            MouseButton::Left => "Left",
            MouseButton::Middle => "Middle",
            MouseButton::Right => "Right",
        }
    }
}

/// Keyboard and mouse input.
#[derive(Clone, Copy, Debug, PartialEq, Eq, Structural)]
pub enum WindowInputEvent {
    KeyDown(Keys),
    KeyUp(Keys),
    MouseDown(MouseButton),
    MouseUp(MouseButton),
    /// Pointer position relative to the client area.
    MouseMove(i16, i16),
    /// `1` when the wheel was scrolled up, `-1` when it was scrolled down.
    MouseWheelMove(i16),
}

/// What a window reports to its owner.
#[derive(Clone, Copy, Debug, PartialEq, Eq, Structural)]
pub enum WindowEvent {
    /// The user asked to close the window. The window itself stays alive.
    Close,
    /// The client area now has this width and height.
    Resize(u32, u32),
    Input(WindowInputEvent),
}

/// A native code that the decoding tables do not hold.
#[derive(Clone, Copy, Debug, PartialEq, Eq, Structural)]
pub enum DecodeError {
    UnrecognizedKeyCode,
    UnrecognizedButtonCode,
}

/// What one native message stands for: an event, nothing, or a failure.
pub type Decoded = Result<Option<WindowEvent>, DecodeError>;

} // verus!

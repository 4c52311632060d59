//! A small windowing core: the portable event vocabulary, the translation of
//! native Win32 messages and X11 events into it, and the bookkeeping a window
//! needs to report size changes once.
//!
//! The library never talks to a window system. A platform binding drains the
//! native queue, hands the messages over as plain values, and forwards the
//! events it gets back.
use vstd::prelude::*;

pub mod event;
pub mod keys;
pub mod linux_x;
pub mod utility;
pub mod win32;
pub mod window;

pub use event::DecodeError;
pub use event::Decoded;
pub use event::MouseButton;
pub use event::WindowEvent;
pub use event::WindowInputEvent;
pub use keys::Keys;
pub use window::PendingMessages;
pub use window::Polled;
pub use window::Window;

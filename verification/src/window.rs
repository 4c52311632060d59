//! The window's portable state and the message pump.
use vstd::prelude::*;

use crate::event::DecodeError;
use crate::event::Decoded;
use crate::event::WindowEvent;
use crate::linux_x::XEvent;
use crate::linux_x::ATOM_NONE;
use crate::win32::Win32Message;

verus! {

/// The portable state of one native window.
///
/// The window remembers the client size it last heard of, so that a size
/// notification is reported only when the size has changed, and the atom by
/// which an X11 window manager asks it to close.
#[derive(Debug)]
pub struct Window {
    previous_size: (u32, u32),
    wm_del_window: u32,
}

/// What a window is, for contracts.
pub struct WindowView {
    /// The client size of the last size notification, or of creation.
    pub previous_size: (u32, u32),
    /// The atom registered for deletion requests; `ATOM_NONE` until one is set.
    pub wm_del_window: u32,
}

impl View for Window {
    type V = WindowView;

    closed spec fn view(&self) -> WindowView {
        WindowView { previous_size: self.previous_size, wm_del_window: self.wm_del_window }
    }
}

/// The messages that were pending when the native queue was drained, in the
/// order in which the system delivered them.
#[derive(Debug, PartialEq, Eq)]
pub enum PendingMessages {
    Win32(Vec<Win32Message>),
    LinuxX(Vec<XEvent>),
}

/// The outcome of one poll.
#[derive(Debug, PartialEq, Eq)]
pub struct Polled {
    /// The events to hand to the owner, in order.
    pub events: Vec<WindowEvent>,
    /// The failure at which the poll stopped, if it did. The events before it
    /// are still in `events`; the messages after it were not looked at.
    pub failure: Option<DecodeError>,
}

/// The state of a pump: the size last heard of, the events reported so far,
/// and the failure at which it stopped.
pub struct Pumped {
    pub size: (u32, u32),
    pub events: Seq<WindowEvent>,
    pub failure: Option<DecodeError>,
}

/// A signed length as the unsigned one that the window keeps: its 32 lowest
/// bits.
pub open spec fn as_length(length: i32) -> u32 {
    ((length as int) % 0x1_0000_0000) as u32
}

/// What the window reports of a notification: a `Resize` only if its size
/// differs from the one last heard of, anything else as it is.
pub open spec fn report(previous: (u32, u32), notification: WindowEvent) -> Option<WindowEvent> {
    match notification {
        WindowEvent::Resize(width, height) => if (width, height) != previous {
            Some(notification)
        } else {
            None
        },
        _ => Some(notification),
    }
}

/// The size that the window has last heard of after a notification.
pub open spec fn size_after(previous: (u32, u32), notification: WindowEvent) -> (u32, u32) {
    match notification {
        WindowEvent::Resize(width, height) => (width, height),
        _ => previous,
    }
}

/// One step of the pump. After a failure nothing changes any more.
pub open spec fn pump_step(before: Pumped, decoded: Decoded) -> Pumped {
    if before.failure is Some {
        before
    } else {
        match decoded {
            Err(e) => Pumped { size: before.size, events: before.events, failure: Some(e) },
            Ok(None) => before,
            Ok(Some(notification)) => Pumped {
                size: size_after(before.size, notification),
                events: match report(before.size, notification) {
                    Some(event) => before.events.push(event),
                    None => before.events,
                },
                failure: None,
            },
        }
    }
}

/// The pump: takes the decoded messages in order, from a window that last
/// heard of the size `start`.
pub open spec fn pump(start: (u32, u32), decoded: Seq<Decoded>) -> Pumped
    decreases decoded.len(),
{
    if decoded.len() == 0 {
        Pumped { size: start, events: Seq::empty(), failure: None }
    } else {
        pump_step(pump(start, decoded.drop_last()), decoded.last())
    }
}

/// What a queue of Win32 messages stands for, message by message.
pub open spec fn decoded_win32(pending: Seq<Win32Message>) -> Seq<Decoded> {
    Seq::new(pending.len(), |i: int| crate::win32::decode(pending[i]))
}

/// What a queue of X11 events stands for, event by event.
pub open spec fn decoded_linux_x(pending: Seq<XEvent>, wm_del_window: u32) -> Seq<Decoded> {
    Seq::new(pending.len(), |i: int| crate::linux_x::decode(pending[i], wm_del_window))
}

/// What a drained queue stands for.
pub open spec fn decoded_pending(pending: PendingMessages, wm_del_window: u32) -> Seq<Decoded> {
    match pending {
        PendingMessages::Win32(messages) => decoded_win32(messages@),
        PendingMessages::LinuxX(events) => decoded_linux_x(events@, wm_del_window),
    }
}

/// Once the pump has failed, further messages change nothing.
pub proof fn lemma_pump_stops_at_failure(start: (u32, u32), decoded: Seq<Decoded>, n: int)
    requires
        0 <= n <= decoded.len(),
        pump(start, decoded.take(n)).failure is Some,
    ensures
        pump(start, decoded) == pump(start, decoded.take(n)),
    decreases decoded.len() - n,
{
    if n == decoded.len() {
        assert(decoded.take(n) =~= decoded);
    } else {
        assert(decoded.drop_last().take(n) =~= decoded.take(n));
        lemma_pump_stops_at_failure(start, decoded.drop_last(), n);
    }
}

/// The pump takes one message after the other.
pub proof fn lemma_pump_take(start: (u32, u32), decoded: Seq<Decoded>, n: int)
    requires
        0 <= n < decoded.len(),
    ensures
        pump(start, decoded.take(n + 1)) == pump_step(pump(start, decoded.take(n)), decoded[n]),
{
    assert(decoded.take(n + 1).drop_last() =~= decoded.take(n));
}

/// Whether every message of a queue can be decoded.
pub open spec fn all_decode(decoded: Seq<Decoded>) -> bool {
    forall|i: int| 0 <= i < decoded.len() ==> (#[trigger] decoded[i]) is Ok
}

/// The pump fails if and only if some message of the queue cannot be decoded.
pub proof fn lemma_pump_fails_iff_undecodable(start: (u32, u32), decoded: Seq<Decoded>)
    ensures
        pump(start, decoded).failure is None <==> all_decode(decoded),
    decreases decoded.len(),
{
    if decoded.len() > 0 {
        let front = decoded.drop_last();
        lemma_pump_fails_iff_undecodable(start, front);
        assert(forall|i: int| 0 <= i < front.len() ==> front[i] == decoded[i]);
        if all_decode(decoded) {
            assert(decoded.last() is Ok);
            assert(all_decode(front));
        } else if all_decode(front) {
            assert(!(decoded.last() is Ok));
        }
    }
}

/// The notifications that a run of size changes stands for.
pub open spec fn resize_notifications(sizes: Seq<(u32, u32)>) -> Seq<Decoded> {
    Seq::new(sizes.len(), |i: int| Ok(Some(WindowEvent::Resize(sizes[i].0, sizes[i].1))))
}

/// The size that the window has last heard of when notification `i` of a run
/// of size changes arrives: the one before it, or the size at the start.
pub open spec fn size_before(start: (u32, u32), sizes: Seq<(u32, u32)>, i: int) -> (u32, u32) {
    if i == 0 {
        start
    } else {
        sizes[i - 1]
    }
}

/// In any queue, a size notification that the pump reaches is reported if and
/// only if its size differs from the one last heard of, and is the one last
/// heard of from then on.
pub proof fn lemma_resize_step(start: (u32, u32), decoded: Seq<Decoded>, i: int, size: (u32, u32))
    requires
        0 <= i < decoded.len(),
        decoded[i] == Ok::<Option<WindowEvent>, DecodeError>(
            Some(WindowEvent::Resize(size.0, size.1)),
        ),
        pump(start, decoded.take(i)).failure is None,
    ensures
        ({
            let before = pump(start, decoded.take(i));
            let after = pump(start, decoded.take(i + 1));
            &&& after.failure is None
            &&& after.size == size
            &&& size != before.size ==> after.events == before.events.push(
                WindowEvent::Resize(size.0, size.1),
            )
            &&& size == before.size ==> after.events == before.events
        }),
{
    lemma_pump_take(start, decoded, i);
}

/// In a run of size changes, notification `i` is reported if and only if its
/// size differs from the size immediately before it. So a size that comes
/// twice in a row is reported at most the first time.
pub proof fn lemma_resize_reported_iff_changed(start: (u32, u32), sizes: Seq<(u32, u32)>, i: int)
    requires
        0 <= i < sizes.len(),
    ensures
        ({
            let before = pump(start, resize_notifications(sizes).take(i));
            let after = pump(start, resize_notifications(sizes).take(i + 1));
            &&& before.failure is None
            &&& before.size == size_before(start, sizes, i)
            &&& after.failure is None
            &&& after.size == sizes[i]
            &&& sizes[i] != size_before(start, sizes, i) ==> after.events == before.events.push(
                WindowEvent::Resize(sizes[i].0, sizes[i].1),
            )
            &&& sizes[i] == size_before(start, sizes, i) ==> after.events == before.events
        }),
    decreases i,
{
    let decoded = resize_notifications(sizes);
    if i == 0 {
        assert(decoded.take(0) =~= Seq::<Decoded>::empty());
    } else {
        lemma_resize_reported_iff_changed(start, sizes, i - 1);
    }
    lemma_resize_step(start, decoded, i, sizes[i]);
}

/// A Win32 key-down message that repeats a key already held reports nothing
/// and changes nothing, whatever key it names.
pub proof fn lemma_key_repeat_reports_nothing(
    start: (u32, u32),
    pending: Seq<Win32Message>,
    i: int,
)
    requires
        0 <= i < pending.len(),
        pending[i].message == crate::win32::WM_KEYDOWN || pending[i].message
            == crate::win32::WM_SYSKEYDOWN,
        crate::win32::is_repeat(pending[i].l_param),
    ensures
        pump(start, decoded_win32(pending).take(i + 1)) == pump(
            start,
            decoded_win32(pending).take(i),
        ),
{
    lemma_pump_take(start, decoded_win32(pending), i);
}

/// A Win32 key-up message that the pump reaches reports exactly one `KeyUp`
/// of its key, whatever its repeat bit holds.
pub proof fn lemma_key_up_reports_once(
    start: (u32, u32),
    pending: Seq<Win32Message>,
    i: int,
    key: crate::keys::Keys,
)
    requires
        0 <= i < pending.len(),
        pending[i].message == crate::win32::WM_KEYUP || pending[i].message
            == crate::win32::WM_SYSKEYUP,
        pending[i].w_param == key.virtual_key(),
        pump(start, decoded_win32(pending).take(i)).failure is None,
    ensures
        ({
            let before = pump(start, decoded_win32(pending).take(i));
            let after = pump(start, decoded_win32(pending).take(i + 1));
            &&& after.failure is None
            &&& after.size == before.size
            &&& after.events == before.events.push(
                WindowEvent::Input(crate::event::WindowInputEvent::KeyUp(key)),
            )
        }),
{
    crate::keys::Keys::lemma_of_virtual_key(key, pending[i].w_param);
    lemma_pump_take(start, decoded_win32(pending), i);
}

/// An X11 key release that the pump reaches reports exactly one `KeyUp` of
/// the key that its keysym stands for.
pub proof fn lemma_key_release_reports_once(
    start: (u32, u32),
    wm_del_window: u32,
    pending: Seq<XEvent>,
    i: int,
    keysym: u32,
    key: crate::keys::Keys,
)
    requires
        0 <= i < pending.len(),
        pending[i] == (XEvent::KeyRelease { keysym }),
        crate::linux_x::keysym_names(keysym, key),
        pump(start, decoded_linux_x(pending, wm_del_window).take(i)).failure is None,
    ensures
        ({
            let before = pump(start, decoded_linux_x(pending, wm_del_window).take(i));
            let after = pump(start, decoded_linux_x(pending, wm_del_window).take(i + 1));
            &&& after.failure is None
            &&& after.size == before.size
            &&& after.events == before.events.push(
                WindowEvent::Input(crate::event::WindowInputEvent::KeyUp(key)),
            )
        }),
{
    crate::linux_x::lemma_key_of_keysym(keysym, key);
    lemma_pump_take(start, decoded_linux_x(pending, wm_del_window), i);
}

/// A Win32 close message that the pump reaches reports exactly one `Close`
/// and leaves the window as it was. It is a message that the window procedure
/// posted in place of the default handling of a close request, which would
/// destroy the window, and it bypasses dispatch.
pub proof fn lemma_close_reports_once_win32(start: (u32, u32), pending: Seq<Win32Message>, i: int)
    requires
        0 <= i < pending.len(),
        pending[i].message == crate::win32::CUSTOM_CLOSE_MESSAGE,
        pump(start, decoded_win32(pending).take(i)).failure is None,
    ensures
        ({
            let before = pump(start, decoded_win32(pending).take(i));
            let after = pump(start, decoded_win32(pending).take(i + 1));
            &&& after.failure is None
            &&& after.size == before.size
            &&& after.events == before.events.push(WindowEvent::Close)
        }),
        crate::win32::window_procedure(crate::win32::WM_CLOSE).post == Some(
            crate::win32::CUSTOM_CLOSE_MESSAGE,
        ),
        crate::win32::window_procedure(crate::win32::WM_CLOSE).answer is Some,
        crate::win32::window_procedure(crate::win32::WM_CLOSE).quit is None,
{
    lemma_pump_take(start, decoded_win32(pending), i);
}

/// An X11 deletion request that the pump reaches reports exactly one `Close`
/// and leaves the window as it was.
pub proof fn lemma_close_reports_once_linux_x(
    start: (u32, u32),
    wm_del_window: u32,
    pending: Seq<XEvent>,
    i: int,
)
    requires
        0 <= i < pending.len(),
        pending[i] matches XEvent::ClientMessage { data } && crate::linux_x::is_delete_request(
            data,
            wm_del_window,
        ),
        pump(start, decoded_linux_x(pending, wm_del_window).take(i)).failure is None,
    ensures
        ({
            let before = pump(start, decoded_linux_x(pending, wm_del_window).take(i));
            let after = pump(start, decoded_linux_x(pending, wm_del_window).take(i + 1));
            &&& after.failure is None
            &&& after.size == before.size
            &&& after.events == before.events.push(WindowEvent::Close)
        }),
{
    lemma_pump_take(start, decoded_linux_x(pending, wm_del_window), i);
}

/// The pump reports the events in the order of the messages: what it has
/// reported after some messages stays in front of what the rest adds.
pub proof fn lemma_pump_keeps_order(start: (u32, u32), decoded: Seq<Decoded>, n: int)
    requires
        0 <= n <= decoded.len(),
    ensures
        pump(start, decoded.take(n)).events.is_prefix_of(pump(start, decoded).events),
    decreases decoded.len() - n,
{
    if n == decoded.len() {
        assert(decoded.take(n) =~= decoded);
    } else {
        assert(decoded.drop_last().take(n) =~= decoded.take(n));
        lemma_pump_keeps_order(start, decoded.drop_last(), n);
    }
}

/// With nothing pending the pump reports nothing and changes nothing.
pub proof fn lemma_pump_of_nothing(start: (u32, u32))
    ensures
        pump(start, Seq::<Decoded>::empty()) == (Pumped {
            size: start,
            events: Seq::<WindowEvent>::empty(),
            failure: None,
        }),
{
}

impl Window {
    /// The state of a window that was just created with a client area of
    /// `width` by `height` pixels. Title and position belong to the native
    /// window alone; no deletion atom is registered yet.
    pub fn new(window_name: &str, x: i32, y: i32, width: i32, height: i32) -> (window: Window)
        ensures
            window@.previous_size == (as_length(width), as_length(height)),
            window@.wm_del_window == ATOM_NONE,
    {
        proof {
            assert((width as u32) as int == (width as int) % 0x1_0000_0000) by (bit_vector);
            assert((height as u32) as int == (height as int) % 0x1_0000_0000) by (bit_vector);
        }
        Window {
            previous_size: (
                #[verifier::truncate] (width as u32),
                #[verifier::truncate] (height as u32),
            ),
            wm_del_window: ATOM_NONE,
        }
    }

    /// Registers the atom by which the window manager asks the window to
    /// close.
    pub fn set_wm_del_window(&mut self, atom: u32)
        ensures
            final(self)@.wm_del_window == atom,
            final(self)@.previous_size == old(self)@.previous_size,
    {
        self.wm_del_window = atom;
    }

    /// The client size last heard of.
    pub fn previous_size(&self) -> (size: (u32, u32))
        ensures
            size == self@.previous_size,
    {
        self.previous_size
    }

    /// The atom registered for deletion requests.
    pub fn wm_del_window(&self) -> (atom: u32)
        ensures
            atom == self@.wm_del_window,
    {
        self.wm_del_window
    }

    /// Takes note of a notification and says what to report of it. A `Resize`
    /// is reported if and only if its size differs from the one last heard
    /// of, and becomes the one last heard of either way. Every other
    /// notification is reported as it is and leaves the window unchanged.
    fn observe(&mut self, notification: WindowEvent) -> (reported: Option<WindowEvent>)
        ensures
            reported == report(old(self)@.previous_size, notification),
            final(self)@.previous_size == size_after(old(self)@.previous_size, notification),
            final(self)@.wm_del_window == old(self)@.wm_del_window,
    {
        match notification {
            WindowEvent::Resize(width, height) => {
                if self.previous_size.0 != width || self.previous_size.1 != height {
                    self.previous_size = (width, height);
                    Some(notification)
                } else {
                    None
                }
            },
            _ => Some(notification),
        }
    }

    /// Takes one decoded message into a poll that has not failed.
    fn advance(&mut self, decoded: Decoded, events: &mut Vec<WindowEvent>) -> (failure: Option<
        DecodeError,
    >)
        ensures
            (Pumped { size: final(self)@.previous_size, events: final(events)@, failure })
                == pump_step(
                (Pumped { size: old(self)@.previous_size, events: old(events)@, failure: None }),
                decoded,
            ),
            final(self)@.wm_del_window == old(self)@.wm_del_window,
    {
        match decoded {
            Err(e) => Some(e),
            Ok(None) => None,
            Ok(Some(notification)) => {
                match self.observe(notification) {
                    Some(event) => {
                        events.push(event);
                    },
                    None => {},
                }
                None
            },
        }
    }

    /// Translates the Win32 messages that were pending, in order, and says
    /// what to report. Stops at the first message that cannot be decoded.
    pub fn try_poll_messages_win32(&mut self, pending: &Vec<Win32Message>) -> (polled: Polled)
        ensures
            ({
                let pumped = pump(old(self)@.previous_size, decoded_win32(pending@));
                &&& final(self)@.previous_size == pumped.size
                &&& polled.events@ == pumped.events
                &&& polled.failure == pumped.failure
            }),
            final(self)@.wm_del_window == old(self)@.wm_del_window,
    {
        let ghost start = self@.previous_size;
        let ghost decoded = decoded_win32(pending@);
        let mut events: Vec<WindowEvent> = Vec::new();
        let mut i: usize = 0;
        assert(decoded.take(0) =~= Seq::<Decoded>::empty());
        while i < pending.len()
            invariant
                0 <= i <= pending.len(),
                start == old(self)@.previous_size,
                decoded == decoded_win32(pending@),
                self@.wm_del_window == old(self)@.wm_del_window,
                pump(start, decoded.take(i as int)) == (Pumped {
                    size: self@.previous_size,
                    events: events@,
                    failure: None,
                }),
            decreases pending.len() - i,
        {
            let message = crate::win32::decode_message(&pending[i]);
            let failure = self.advance(message, &mut events);
            proof {
                lemma_pump_take(start, decoded, i as int);
            }
            if failure.is_some() {
                proof {
                    lemma_pump_stops_at_failure(start, decoded, i + 1);
                }
                return Polled { events, failure };
            }
            i += 1;
        }
        assert(decoded.take(i as int) =~= decoded);
        Polled { events, failure: None }
    }

    /// Translates the X11 events that were pending, in order, and says what
    /// to report. Stops at the first event that cannot be decoded.
    pub fn try_poll_messages_linux_x(&mut self, pending: &Vec<XEvent>) -> (polled: Polled)
        ensures
            ({
                let pumped = pump(
                    old(self)@.previous_size,
                    decoded_linux_x(pending@, old(self)@.wm_del_window),
                );
                &&& final(self)@.previous_size == pumped.size
                &&& polled.events@ == pumped.events
                &&& polled.failure == pumped.failure
            }),
            final(self)@.wm_del_window == old(self)@.wm_del_window,
    {
        let ghost start = self@.previous_size;
        let ghost decoded = decoded_linux_x(pending@, self@.wm_del_window);
        let mut events: Vec<WindowEvent> = Vec::new();
        let mut i: usize = 0;
        assert(decoded.take(0) =~= Seq::<Decoded>::empty());
        while i < pending.len()
            invariant
                0 <= i <= pending.len(),
                start == old(self)@.previous_size,
                decoded == decoded_linux_x(pending@, old(self)@.wm_del_window),
                self@.wm_del_window == old(self)@.wm_del_window,
                pump(start, decoded.take(i as int)) == (Pumped {
                    size: self@.previous_size,
                    events: events@,
                    failure: None,
                }),
            decreases pending.len() - i,
        {
            let event = crate::linux_x::decode_event(&pending[i], self.wm_del_window);
            let failure = self.advance(event, &mut events);
            proof {
                lemma_pump_take(start, decoded, i as int);
            }
            if failure.is_some() {
                proof {
                    lemma_pump_stops_at_failure(start, decoded, i + 1);
                }
                return Polled { events, failure };
            }
            i += 1;
        }
        assert(decoded.take(i as int) =~= decoded);
        Polled { events, failure: None }
    }

    /// Translates everything that was pending when the native queue was
    /// drained, in order, and says what to report. Stops at the first message
    /// that cannot be decoded.
    pub fn try_poll_messages(&mut self, pending: &PendingMessages) -> (polled: Polled)
        ensures
            ({
                let pumped = pump(
                    old(self)@.previous_size,
                    decoded_pending(*pending, old(self)@.wm_del_window),
                );
                &&& final(self)@.previous_size == pumped.size
                &&& polled.events@ == pumped.events
                &&& polled.failure == pumped.failure
            }),
            final(self)@.wm_del_window == old(self)@.wm_del_window,
    {
        match pending {
            PendingMessages::Win32(messages) => self.try_poll_messages_win32(messages),
            PendingMessages::LinuxX(events) => self.try_poll_messages_linux_x(events),
        }
    }

    /// A window in the same state, to try a queue on.
    fn probe(&self) -> (copy: Window)
        ensures
            copy@ == self@,
    {
        Window { previous_size: self.previous_size, wm_del_window: self.wm_del_window }
    }

    /// Says whether every Win32 message that is pending can be decoded.
    pub fn can_poll_win32(&self, pending: &Vec<Win32Message>) -> (can: bool)
        ensures
            can == all_decode(decoded_win32(pending@)),
    {
        let mut probe = self.probe();
        let polled = probe.try_poll_messages_win32(pending);
        proof {
            lemma_pump_fails_iff_undecodable(self@.previous_size, decoded_win32(pending@));
        }
        polled.failure.is_none()
    }

    /// Says whether every X11 event that is pending can be decoded.
    pub fn can_poll_linux_x(&self, pending: &Vec<XEvent>) -> (can: bool)
        ensures
            can == all_decode(decoded_linux_x(pending@, self@.wm_del_window)),
    {
        let mut probe = self.probe();
        let polled = probe.try_poll_messages_linux_x(pending);
        proof {
            lemma_pump_fails_iff_undecodable(
                self@.previous_size,
                decoded_linux_x(pending@, self@.wm_del_window),
            );
        }
        polled.failure.is_none()
    }

    /// Says whether everything that is pending can be decoded.
    pub fn can_poll(&self, pending: &PendingMessages) -> (can: bool)
        ensures
            can == all_decode(decoded_pending(*pending, self@.wm_del_window)),
    {
        match pending {
            PendingMessages::Win32(messages) => self.can_poll_win32(messages),
            PendingMessages::LinuxX(events) => self.can_poll_linux_x(events),
        }
    }

    /// Translates the Win32 messages that were pending, all of which can be
    /// decoded, and says what to report, in the order of the messages.
    pub fn poll_messages_win32(&mut self, pending: &Vec<Win32Message>) -> (events: Vec<
        WindowEvent,
    >)
        requires
            all_decode(decoded_win32(pending@)),
        ensures
            ({
                let pumped = pump(old(self)@.previous_size, decoded_win32(pending@));
                &&& final(self)@.previous_size == pumped.size
                &&& events@ == pumped.events
                &&& pumped.failure is None
            }),
            final(self)@.wm_del_window == old(self)@.wm_del_window,
    {
        proof {
            lemma_pump_fails_iff_undecodable(self@.previous_size, decoded_win32(pending@));
        }
        self.try_poll_messages_win32(pending).events
    }

    /// Translates the X11 events that were pending, all of which can be
    /// decoded, and says what to report, in the order of the events.
    pub fn poll_messages_linux_x(&mut self, pending: &Vec<XEvent>) -> (events: Vec<WindowEvent>)
        requires
            all_decode(decoded_linux_x(pending@, old(self)@.wm_del_window)),
        ensures
            ({
                let pumped = pump(
                    old(self)@.previous_size,
                    decoded_linux_x(pending@, old(self)@.wm_del_window),
                );
                &&& final(self)@.previous_size == pumped.size
                &&& events@ == pumped.events
                &&& pumped.failure is None
            }),
            final(self)@.wm_del_window == old(self)@.wm_del_window,
    {
        proof {
            lemma_pump_fails_iff_undecodable(
                self@.previous_size,
                decoded_linux_x(pending@, self@.wm_del_window),
            );
        }
        self.try_poll_messages_linux_x(pending).events
    }

    /// Translates everything that was pending when the native queue was
    /// drained, all of which can be decoded, and says what to report. The
    /// owner hears of each event once, in the order of the messages. With
    /// nothing pending nothing is reported and the window is unchanged.
    pub fn poll_messages(&mut self, pending: &PendingMessages) -> (events: Vec<WindowEvent>)
        requires
            all_decode(decoded_pending(*pending, old(self)@.wm_del_window)),
        ensures
            ({
                let pumped = pump(
                    old(self)@.previous_size,
                    decoded_pending(*pending, old(self)@.wm_del_window),
                );
                &&& final(self)@.previous_size == pumped.size
                &&& events@ == pumped.events
                &&& pumped.failure is None
            }),
            final(self)@.wm_del_window == old(self)@.wm_del_window,
    {
        match pending {
            PendingMessages::Win32(messages) => self.poll_messages_win32(messages),
            PendingMessages::LinuxX(events) => self.poll_messages_linux_x(events),
        }
    }
}

} // verus!

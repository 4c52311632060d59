use simple_window::linux_x::decode_event;
use simple_window::linux_x::keysym_level;
use simple_window::linux_x::geometry_is_in_range;
use simple_window::linux_x::translate_button;
use simple_window::linux_x::try_translate_button;
use simple_window::linux_x::try_translate_key_code;
use simple_window::linux_x::try_window_geometry;
use simple_window::linux_x::translate_key_code;
use simple_window::linux_x::window_geometry;
use simple_window::linux_x::ClientMessageData;
use simple_window::linux_x::XEvent;
use simple_window::linux_x::XGeometry;
use simple_window::linux_x::ATOM_NONE;
use simple_window::linux_x::EVENT_MASK;
use simple_window::linux_x::EVENT_MASK_BUTTON_PRESS;
use simple_window::linux_x::EVENT_MASK_BUTTON_RELEASE;
use simple_window::linux_x::EVENT_MASK_EXPOSURE;
use simple_window::linux_x::EVENT_MASK_KEY_PRESS;
use simple_window::linux_x::EVENT_MASK_KEY_RELEASE;
use simple_window::linux_x::EVENT_MASK_POINTER_MOTION;
use simple_window::linux_x::EVENT_MASK_STRUCTURE_NOTIFY;
use simple_window::DecodeError;
use simple_window::Keys;
use simple_window::MouseButton;
use simple_window::WindowEvent;
use simple_window::WindowInputEvent;

const DELETE_ATOM: u32 = 0x155;

fn x_input(event: WindowInputEvent) -> Result<Option<WindowEvent>, DecodeError> {
    Ok(Some(WindowEvent::Input(event)))
}

#[test]
fn event_mask_is_the_union_of_its_parts() {
    assert_eq!(
        EVENT_MASK,
        EVENT_MASK_BUTTON_PRESS | EVENT_MASK_BUTTON_RELEASE | EVENT_MASK_KEY_PRESS
            | EVENT_MASK_KEY_RELEASE | EVENT_MASK_EXPOSURE | EVENT_MASK_POINTER_MOTION
            | EVENT_MASK_STRUCTURE_NOTIFY
    );
    assert_eq!(EVENT_MASK_EXPOSURE, 1 << 15);
    assert_eq!(EVENT_MASK_STRUCTURE_NOTIFY, 1 << 17);
    assert_eq!(EVENT_MASK_POINTER_MOTION, 1 << 6);
}

#[test]
fn geometry_that_fits_is_kept() {
    assert_eq!(
        window_geometry(200, 200, 400, 600),
        XGeometry { x: 200, y: 200, width: 400, height: 600 }
    );
    assert_eq!(
        window_geometry(-32768, 32767, 0, 65535),
        XGeometry { x: -32768, y: 32767, width: 0, height: 65535 }
    );
    assert_eq!(
        try_window_geometry(200, 200, 400, 600),
        Some(XGeometry { x: 200, y: 200, width: 400, height: 600 })
    );
    assert_eq!(
        try_window_geometry(-32768, 32767, 0, 65535),
        Some(XGeometry { x: -32768, y: 32767, width: 0, height: 65535 })
    );
    assert!(geometry_is_in_range(200, 200, 400, 600));
    assert!(geometry_is_in_range(-32768, 32767, 0, 65535));
}

#[test]
fn geometry_that_does_not_fit_is_refused() {
    let outside = [
        (32768, 0, 1, 1),
        (-32769, 0, 1, 1),
        (40000, 0, 1, 1),
        (0, 32768, 1, 1),
        (0, -32769, 1, 1),
        (0, 0, 65536, 1),
        (0, 0, 70000, 1),
        (0, 0, -1, 1),
        (0, 0, 1, 65536),
        (0, 0, 1, -1),
        (i32::MIN, i32::MAX, i32::MIN, i32::MAX),
    ];
    for (x, y, width, height) in outside {
        assert!(!geometry_is_in_range(x, y, width, height));
        assert_eq!(try_window_geometry(x, y, width, height), None);
    }
}

#[test]
fn even_keycodes_are_looked_up_shifted() {
    assert_eq!(keysym_level(0), 1);
    assert_eq!(keysym_level(38), 1);
    assert_eq!(keysym_level(254), 1);
    assert_eq!(keysym_level(1), 0);
    assert_eq!(keysym_level(39), 0);
    assert_eq!(keysym_level(255), 0);
}

#[test]
fn letters_are_decoded_in_either_case() {
    assert_eq!(try_translate_key_code(0x61), Ok(Keys::A));
    assert_eq!(translate_key_code(0x61), Keys::A);
    assert_eq!(try_translate_key_code(0x41), Ok(Keys::A));
    assert_eq!(translate_key_code(0x41), Keys::A);
    assert_eq!(try_translate_key_code(0x7A), Ok(Keys::Z));
    assert_eq!(translate_key_code(0x7A), Keys::Z);
    assert_eq!(try_translate_key_code(0x5A), Ok(Keys::Z));
    assert_eq!(translate_key_code(0x5A), Keys::Z);
    assert_eq!(try_translate_key_code(0x6D), Ok(Keys::M));
    assert_eq!(translate_key_code(0x6D), Keys::M);
    assert_eq!(try_translate_key_code(0x4D), Ok(Keys::M));
    assert_eq!(translate_key_code(0x4D), Keys::M);
}

#[test]
fn keysyms_of_the_function_block_are_decoded() {
    assert_eq!(try_translate_key_code(0xFF08), Ok(Keys::Backspace));
    assert_eq!(translate_key_code(0xFF08), Keys::Backspace);
    assert_eq!(try_translate_key_code(0xFF09), Ok(Keys::Tab));
    assert_eq!(translate_key_code(0xFF09), Keys::Tab);
    assert_eq!(try_translate_key_code(0xFF0D), Ok(Keys::Enter));
    assert_eq!(translate_key_code(0xFF0D), Keys::Enter);
    assert_eq!(try_translate_key_code(0xFF13), Ok(Keys::Pause));
    assert_eq!(translate_key_code(0xFF13), Keys::Pause);
    assert_eq!(try_translate_key_code(0xFF14), Ok(Keys::Scroll));
    assert_eq!(translate_key_code(0xFF14), Keys::Scroll);
    assert_eq!(try_translate_key_code(0xFF1B), Ok(Keys::Escape));
    assert_eq!(translate_key_code(0xFF1B), Keys::Escape);
    assert_eq!(try_translate_key_code(0xFF50), Ok(Keys::Home));
    assert_eq!(translate_key_code(0xFF50), Keys::Home);
    assert_eq!(try_translate_key_code(0xFF55), Ok(Keys::Prior));
    assert_eq!(translate_key_code(0xFF55), Keys::Prior);
    assert_eq!(try_translate_key_code(0xFF56), Ok(Keys::Next));
    assert_eq!(translate_key_code(0xFF56), Keys::Next);
    assert_eq!(try_translate_key_code(0xFF57), Ok(Keys::End));
    assert_eq!(translate_key_code(0xFF57), Keys::End);
    assert_eq!(try_translate_key_code(0xFF67), Ok(Keys::RMenu));
    assert_eq!(translate_key_code(0xFF67), Keys::RMenu);
    assert_eq!(try_translate_key_code(0xFF7E), Ok(Keys::Modechange));
    assert_eq!(translate_key_code(0xFF7E), Keys::Modechange);
    assert_eq!(try_translate_key_code(0xFF7F), Ok(Keys::Numlock));
    assert_eq!(translate_key_code(0xFF7F), Keys::Numlock);
    assert_eq!(try_translate_key_code(0xFFAB), Ok(Keys::Add));
    assert_eq!(translate_key_code(0xFFAB), Keys::Add);
    assert_eq!(try_translate_key_code(0xFFB0), Ok(Keys::Numpad0));
    assert_eq!(translate_key_code(0xFFB0), Keys::Numpad0);
    assert_eq!(try_translate_key_code(0xFFB9), Ok(Keys::Numpad9));
    assert_eq!(translate_key_code(0xFFB9), Keys::Numpad9);
    assert_eq!(try_translate_key_code(0xFFBD), Ok(Keys::NumpadEqual));
    assert_eq!(translate_key_code(0xFFBD), Keys::NumpadEqual);
    assert_eq!(try_translate_key_code(0xFFBE), Ok(Keys::F1));
    assert_eq!(translate_key_code(0xFFBE), Keys::F1);
    assert_eq!(try_translate_key_code(0xFFD5), Ok(Keys::F24));
    assert_eq!(translate_key_code(0xFFD5), Keys::F24);
    assert_eq!(try_translate_key_code(0xFFE1), Ok(Keys::LShift));
    assert_eq!(translate_key_code(0xFFE1), Keys::LShift);
    assert_eq!(try_translate_key_code(0xFFE5), Ok(Keys::Capital));
    assert_eq!(translate_key_code(0xFFE5), Keys::Capital);
    assert_eq!(try_translate_key_code(0xFFEB), Ok(Keys::LWin));
    assert_eq!(translate_key_code(0xFFEB), Keys::LWin);
    assert_eq!(try_translate_key_code(0xFFEC), Ok(Keys::RWin));
    assert_eq!(translate_key_code(0xFFEC), Keys::RWin);
    assert_eq!(try_translate_key_code(0xFFFF), Ok(Keys::Delete));
    assert_eq!(translate_key_code(0xFFFF), Keys::Delete);
}

#[test]
fn keysyms_of_the_latin_block_are_decoded() {
    assert_eq!(try_translate_key_code(0x20), Ok(Keys::Space));
    assert_eq!(translate_key_code(0x20), Keys::Space);
    assert_eq!(try_translate_key_code(0x2B), Ok(Keys::Plus));
    assert_eq!(translate_key_code(0x2B), Keys::Plus);
    assert_eq!(try_translate_key_code(0x2C), Ok(Keys::Comma));
    assert_eq!(translate_key_code(0x2C), Keys::Comma);
    assert_eq!(try_translate_key_code(0x2D), Ok(Keys::Minus));
    assert_eq!(translate_key_code(0x2D), Keys::Minus);
    assert_eq!(try_translate_key_code(0x2E), Ok(Keys::Period));
    assert_eq!(translate_key_code(0x2E), Keys::Period);
    assert_eq!(try_translate_key_code(0x2F), Ok(Keys::Slash));
    assert_eq!(translate_key_code(0x2F), Keys::Slash);
    assert_eq!(try_translate_key_code(0x3B), Ok(Keys::Semicolon));
    assert_eq!(translate_key_code(0x3B), Keys::Semicolon);
    assert_eq!(try_translate_key_code(0x60), Ok(Keys::Grave));
    assert_eq!(translate_key_code(0x60), Keys::Grave);
    assert_eq!(try_translate_key_code(0xD7), Ok(Keys::Multiply));
    assert_eq!(translate_key_code(0xD7), Keys::Multiply);
}

#[test]
fn the_table_holds_one_hundred_and_thirty_one_keysyms() {
    let mut decoded = 0;
    for keysym in 0..0x1_0000u32 {
        if let Ok(key) = try_translate_key_code(keysym) {
            assert_eq!(translate_key_code(keysym), key);
            decoded += 1;
        }
    }
    assert_eq!(decoded, 131);
}

#[test]
fn keys_without_a_keysym_are_never_decoded() {
    let absent = [
        Keys::Shift,
        Keys::Control,
        Keys::Convert,
        Keys::Nonconvert,
        Keys::Accept,
        Keys::Snapshot,
        Keys::Apps,
        Keys::Sleep,
        Keys::LMenu,
    ];
    for keysym in 0..0x1_0000u32 {
        if let Ok(key) = try_translate_key_code(keysym) {
            assert!(!absent.contains(&key));
        }
    }
}

#[test]
fn unknown_keysyms_are_a_failure() {
    for keysym in [
        0u32, 0x1F, 0x21, 0x30, 0x39, 0x3A, 0x40, 0x5B, 0x7B, 0xD6, 0xD8, 0xFF07, 0xFF0A, 0xFF58,
        0xFF64, 0xFFAA, 0xFFBA, 0xFFD6, 0xFFE0, 0xFFE6, 0xFFE9, 0xFFED, 0xFFFE, 0x1_0061,
        0x1000_FF08, u32::MAX,
    ] {
        assert_eq!(try_translate_key_code(keysym), Err(DecodeError::UnrecognizedKeyCode));
    }
}

#[test]
fn three_buttons_are_known() {
    assert_eq!(try_translate_button(1), Ok(MouseButton::Left));
    assert_eq!(translate_button(1), MouseButton::Left);
    assert_eq!(try_translate_button(2), Ok(MouseButton::Middle));
    assert_eq!(translate_button(2), MouseButton::Middle);
    assert_eq!(try_translate_button(3), Ok(MouseButton::Right));
    assert_eq!(translate_button(3), MouseButton::Right);
}

#[test]
fn other_buttons_are_a_failure() {
    for detail in [0u8, 4, 5, 8, 255] {
        assert_eq!(try_translate_button(detail), Err(DecodeError::UnrecognizedButtonCode));
    }
}

#[test]
fn key_events_are_reported_for_press_and_release() {
    assert_eq!(
        decode_event(&XEvent::KeyPress { keysym: 0x61 }, DELETE_ATOM),
        x_input(WindowInputEvent::KeyDown(Keys::A))
    );
    assert_eq!(
        decode_event(&XEvent::KeyRelease { keysym: 0xFF0D }, DELETE_ATOM),
        x_input(WindowInputEvent::KeyUp(Keys::Enter))
    );
    assert_eq!(
        decode_event(&XEvent::KeyPress { keysym: 0xFFE9 }, DELETE_ATOM),
        Err(DecodeError::UnrecognizedKeyCode)
    );
    assert_eq!(
        decode_event(&XEvent::KeyRelease { keysym: 0 }, DELETE_ATOM),
        Err(DecodeError::UnrecognizedKeyCode)
    );
}

#[test]
fn button_events_are_reported_for_press_and_release() {
    assert_eq!(
        decode_event(&XEvent::ButtonPress { detail: 1 }, DELETE_ATOM),
        x_input(WindowInputEvent::MouseDown(MouseButton::Left))
    );
    assert_eq!(
        decode_event(&XEvent::ButtonRelease { detail: 3 }, DELETE_ATOM),
        x_input(WindowInputEvent::MouseUp(MouseButton::Right))
    );
    assert_eq!(
        decode_event(&XEvent::ButtonPress { detail: 4 }, DELETE_ATOM),
        Err(DecodeError::UnrecognizedButtonCode)
    );
    assert_eq!(
        decode_event(&XEvent::ButtonRelease { detail: 0 }, DELETE_ATOM),
        Err(DecodeError::UnrecognizedButtonCode)
    );
}

#[test]
fn motion_reports_both_coordinates() {
    assert_eq!(
        decode_event(&XEvent::MotionNotify { event_x: 12, event_y: -34 }, DELETE_ATOM),
        x_input(WindowInputEvent::MouseMove(12, -34))
    );
}

#[test]
fn configure_notification_stands_for_its_size() {
    assert_eq!(
        decode_event(&XEvent::ConfigureNotify { width: 500, height: 600 }, DELETE_ATOM),
        Ok(Some(WindowEvent::Resize(500, 600)))
    );
    assert_eq!(
        decode_event(&XEvent::ConfigureNotify { width: 65535, height: 0 }, DELETE_ATOM),
        Ok(Some(WindowEvent::Resize(65535, 0)))
    );
}

#[test]
fn deletion_request_stands_for_close() {
    let data = ClientMessageData::Data32([DELETE_ATOM, 0, 0, 0, 0]);
    assert_eq!(
        decode_event(&XEvent::ClientMessage { data }, DELETE_ATOM),
        Ok(Some(WindowEvent::Close))
    );
    let data = ClientMessageData::Data32([DELETE_ATOM, 9, 8, 7, 6]);
    assert_eq!(
        decode_event(&XEvent::ClientMessage { data }, DELETE_ATOM),
        Ok(Some(WindowEvent::Close))
    );
}

#[test]
fn other_client_messages_stand_for_nothing() {
    let data = ClientMessageData::Data32([DELETE_ATOM + 1, DELETE_ATOM, 0, 0, 0]);
    assert_eq!(decode_event(&XEvent::ClientMessage { data }, DELETE_ATOM), Ok(None));
    let data = ClientMessageData::Data16([0x155, 0, 0, 0, 0, 0, 0, 0, 0, 0]);
    assert_eq!(decode_event(&XEvent::ClientMessage { data }, DELETE_ATOM), Ok(None));
    let data = ClientMessageData::Data8([0x55; 20]);
    assert_eq!(decode_event(&XEvent::ClientMessage { data }, 0x5555_5555), Ok(None));
}

#[test]
fn a_message_that_starts_with_no_atom_matches_a_window_without_one() {
    let data = ClientMessageData::Data32([0, 0, 0, 0, 0]);
    assert_eq!(
        decode_event(&XEvent::ClientMessage { data }, ATOM_NONE),
        Ok(Some(WindowEvent::Close))
    );
}

#[test]
fn other_events_stand_for_nothing() {
    assert_eq!(decode_event(&XEvent::Other, DELETE_ATOM), Ok(None));
}

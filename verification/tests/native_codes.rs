use simple_window::linux_x::keysym_level;
use simple_window::linux_x::translate_button;
use simple_window::linux_x::translate_key_code;
use simple_window::linux_x::try_translate_button;
use simple_window::linux_x::try_translate_key_code;
use simple_window::linux_x::EVENT_MASK;
use simple_window::linux_x::EVENT_MASK_BUTTON_PRESS;
use simple_window::linux_x::EVENT_MASK_BUTTON_RELEASE;
use simple_window::linux_x::EVENT_MASK_EXPOSURE;
use simple_window::linux_x::EVENT_MASK_KEY_PRESS;
use simple_window::linux_x::EVENT_MASK_KEY_RELEASE;
use simple_window::linux_x::EVENT_MASK_POINTER_MOTION;
use simple_window::linux_x::EVENT_MASK_STRUCTURE_NOTIFY;
use simple_window::win32;
use simple_window::Keys;
use simple_window::MouseButton;
use windows_sys::Win32::UI::WindowsAndMessaging;

#[test]
fn message_numbers_are_those_of_the_system_headers() {
    assert_eq!(win32::WM_DESTROY, WindowsAndMessaging::WM_DESTROY);
    assert_eq!(win32::WM_CLOSE, WindowsAndMessaging::WM_CLOSE);
    assert_eq!(win32::WM_ERASEBKGND, WindowsAndMessaging::WM_ERASEBKGND);
    assert_eq!(win32::WM_KEYDOWN, WindowsAndMessaging::WM_KEYDOWN);
    assert_eq!(win32::WM_KEYUP, WindowsAndMessaging::WM_KEYUP);
    assert_eq!(win32::WM_SYSKEYDOWN, WindowsAndMessaging::WM_SYSKEYDOWN);
    assert_eq!(win32::WM_SYSKEYUP, WindowsAndMessaging::WM_SYSKEYUP);
    assert_eq!(win32::WM_MOUSEMOVE, WindowsAndMessaging::WM_MOUSEMOVE);
    assert_eq!(win32::WM_LBUTTONDOWN, WindowsAndMessaging::WM_LBUTTONDOWN);
    assert_eq!(win32::WM_LBUTTONUP, WindowsAndMessaging::WM_LBUTTONUP);
    assert_eq!(win32::WM_RBUTTONDOWN, WindowsAndMessaging::WM_RBUTTONDOWN);
    assert_eq!(win32::WM_RBUTTONUP, WindowsAndMessaging::WM_RBUTTONUP);
    assert_eq!(win32::WM_MBUTTONDOWN, WindowsAndMessaging::WM_MBUTTONDOWN);
    assert_eq!(win32::WM_MBUTTONUP, WindowsAndMessaging::WM_MBUTTONUP);
    assert_eq!(win32::WM_MOUSEWHEEL, WindowsAndMessaging::WM_MOUSEWHEEL);
    assert_eq!(win32::WM_EXITSIZEMOVE, WindowsAndMessaging::WM_EXITSIZEMOVE);
    assert_eq!(win32::WM_USER, WindowsAndMessaging::WM_USER);
}

#[test]
fn window_styles_are_composed_of_the_system_flags() {
    assert_eq!(
        win32::WINDOW_STYLE,
        WindowsAndMessaging::WS_OVERLAPPED
            | WindowsAndMessaging::WS_SYSMENU
            | WindowsAndMessaging::WS_CAPTION
            | WindowsAndMessaging::WS_MAXIMIZEBOX
            | WindowsAndMessaging::WS_MINIMIZEBOX
            | WindowsAndMessaging::WS_THICKFRAME
    );
    assert_eq!(win32::WINDOW_EX_STYLE, WindowsAndMessaging::WS_EX_APPWINDOW);
    assert_eq!(win32::CLASS_STYLE, WindowsAndMessaging::CS_DBLCLKS);
    assert_eq!(win32::SHOW_COMMAND, WindowsAndMessaging::SW_SHOW);
}

#[test]
fn every_keysym_of_xlib_in_the_table_is_decoded_to_its_key() {
    let table = [
        (x11::keysym::XK_BackSpace, Keys::Backspace),
        (x11::keysym::XK_Return, Keys::Enter),
        (x11::keysym::XK_Tab, Keys::Tab),
        (x11::keysym::XK_Pause, Keys::Pause),
        (x11::keysym::XK_Caps_Lock, Keys::Capital),
        (x11::keysym::XK_Escape, Keys::Escape),
        (x11::keysym::XK_Mode_switch, Keys::Modechange),
        (x11::keysym::XK_space, Keys::Space),
        (x11::keysym::XK_Prior, Keys::Prior),
        (x11::keysym::XK_Next, Keys::Next),
        (x11::keysym::XK_End, Keys::End),
        (x11::keysym::XK_Home, Keys::Home),
        (x11::keysym::XK_Left, Keys::Left),
        (x11::keysym::XK_Up, Keys::Up),
        (x11::keysym::XK_Right, Keys::Right),
        (x11::keysym::XK_Down, Keys::Down),
        (x11::keysym::XK_Select, Keys::Select),
        (x11::keysym::XK_Print, Keys::Print),
        (x11::keysym::XK_Execute, Keys::Execute),
        (x11::keysym::XK_Insert, Keys::Insert),
        (x11::keysym::XK_Delete, Keys::Delete),
        (x11::keysym::XK_Help, Keys::Help),
        (x11::keysym::XK_Super_L, Keys::LWin),
        (x11::keysym::XK_Super_R, Keys::RWin),
        (x11::keysym::XK_KP_0, Keys::Numpad0),
        (x11::keysym::XK_KP_1, Keys::Numpad1),
        (x11::keysym::XK_KP_2, Keys::Numpad2),
        (x11::keysym::XK_KP_3, Keys::Numpad3),
        (x11::keysym::XK_KP_4, Keys::Numpad4),
        (x11::keysym::XK_KP_5, Keys::Numpad5),
        (x11::keysym::XK_KP_6, Keys::Numpad6),
        (x11::keysym::XK_KP_7, Keys::Numpad7),
        (x11::keysym::XK_KP_8, Keys::Numpad8),
        (x11::keysym::XK_KP_9, Keys::Numpad9),
        (x11::keysym::XK_multiply, Keys::Multiply),
        (x11::keysym::XK_KP_Add, Keys::Add),
        (x11::keysym::XK_KP_Separator, Keys::Separator),
        (x11::keysym::XK_KP_Subtract, Keys::Subtract),
        (x11::keysym::XK_KP_Decimal, Keys::Decimal),
        (x11::keysym::XK_KP_Divide, Keys::Divide),
        (x11::keysym::XK_F1, Keys::F1),
        (x11::keysym::XK_F2, Keys::F2),
        (x11::keysym::XK_F3, Keys::F3),
        (x11::keysym::XK_F4, Keys::F4),
        (x11::keysym::XK_F5, Keys::F5),
        (x11::keysym::XK_F6, Keys::F6),
        (x11::keysym::XK_F7, Keys::F7),
        (x11::keysym::XK_F8, Keys::F8),
        (x11::keysym::XK_F9, Keys::F9),
        (x11::keysym::XK_F10, Keys::F10),
        (x11::keysym::XK_F11, Keys::F11),
        (x11::keysym::XK_F12, Keys::F12),
        (x11::keysym::XK_F13, Keys::F13),
        (x11::keysym::XK_F14, Keys::F14),
        (x11::keysym::XK_F15, Keys::F15),
        (x11::keysym::XK_F16, Keys::F16),
        (x11::keysym::XK_F17, Keys::F17),
        (x11::keysym::XK_F18, Keys::F18),
        (x11::keysym::XK_F19, Keys::F19),
        (x11::keysym::XK_F20, Keys::F20),
        (x11::keysym::XK_F21, Keys::F21),
        (x11::keysym::XK_F22, Keys::F22),
        (x11::keysym::XK_F23, Keys::F23),
        (x11::keysym::XK_F24, Keys::F24),
        (x11::keysym::XK_Num_Lock, Keys::Numlock),
        (x11::keysym::XK_Scroll_Lock, Keys::Scroll),
        (x11::keysym::XK_KP_Equal, Keys::NumpadEqual),
        (x11::keysym::XK_Shift_L, Keys::LShift),
        (x11::keysym::XK_Shift_R, Keys::RShift),
        (x11::keysym::XK_Control_L, Keys::LControl),
        (x11::keysym::XK_Control_R, Keys::RControl),
        (x11::keysym::XK_Menu, Keys::RMenu),
        (x11::keysym::XK_semicolon, Keys::Semicolon),
        (x11::keysym::XK_plus, Keys::Plus),
        (x11::keysym::XK_comma, Keys::Comma),
        (x11::keysym::XK_minus, Keys::Minus),
        (x11::keysym::XK_period, Keys::Period),
        (x11::keysym::XK_slash, Keys::Slash),
        (x11::keysym::XK_grave, Keys::Grave),
        (x11::keysym::XK_a, Keys::A),
        (x11::keysym::XK_A, Keys::A),
        (x11::keysym::XK_b, Keys::B),
        (x11::keysym::XK_B, Keys::B),
        (x11::keysym::XK_c, Keys::C),
        (x11::keysym::XK_C, Keys::C),
        (x11::keysym::XK_d, Keys::D),
        (x11::keysym::XK_D, Keys::D),
        (x11::keysym::XK_e, Keys::E),
        (x11::keysym::XK_E, Keys::E),
        (x11::keysym::XK_f, Keys::F),
        (x11::keysym::XK_F, Keys::F),
        (x11::keysym::XK_g, Keys::G),
        (x11::keysym::XK_G, Keys::G),
        (x11::keysym::XK_h, Keys::H),
        (x11::keysym::XK_H, Keys::H),
        (x11::keysym::XK_i, Keys::I),
        (x11::keysym::XK_I, Keys::I),
        (x11::keysym::XK_j, Keys::J),
        (x11::keysym::XK_J, Keys::J),
        (x11::keysym::XK_k, Keys::K),
        (x11::keysym::XK_K, Keys::K),
        (x11::keysym::XK_l, Keys::L),
        (x11::keysym::XK_L, Keys::L),
        (x11::keysym::XK_m, Keys::M),
        (x11::keysym::XK_M, Keys::M),
        (x11::keysym::XK_n, Keys::N),
        (x11::keysym::XK_N, Keys::N),
        (x11::keysym::XK_o, Keys::O),
        (x11::keysym::XK_O, Keys::O),
        (x11::keysym::XK_p, Keys::P),
        (x11::keysym::XK_P, Keys::P),
        (x11::keysym::XK_q, Keys::Q),
        (x11::keysym::XK_Q, Keys::Q),
        (x11::keysym::XK_r, Keys::R),
        (x11::keysym::XK_R, Keys::R),
        (x11::keysym::XK_s, Keys::S),
        (x11::keysym::XK_S, Keys::S),
        (x11::keysym::XK_t, Keys::T),
        (x11::keysym::XK_T, Keys::T),
        (x11::keysym::XK_u, Keys::U),
        (x11::keysym::XK_U, Keys::U),
        (x11::keysym::XK_v, Keys::V),
        (x11::keysym::XK_V, Keys::V),
        (x11::keysym::XK_w, Keys::W),
        (x11::keysym::XK_W, Keys::W),
        (x11::keysym::XK_x, Keys::X),
        (x11::keysym::XK_X, Keys::X),
        (x11::keysym::XK_y, Keys::Y),
        (x11::keysym::XK_Y, Keys::Y),
        (x11::keysym::XK_z, Keys::Z),
        (x11::keysym::XK_Z, Keys::Z),
    ];
    for (keysym, key) in table {
        assert_eq!(try_translate_key_code(keysym), Ok(key));
        assert_eq!(translate_key_code(keysym), key);
    }
}

#[test]
fn button_codes_are_those_of_xlib() {
    assert_eq!(translate_button(x11::xlib::Button1 as u8), MouseButton::Left);
    assert_eq!(translate_button(x11::xlib::Button2 as u8), MouseButton::Middle);
    assert_eq!(translate_button(x11::xlib::Button3 as u8), MouseButton::Right);
    assert_eq!(try_translate_button(x11::xlib::Button1 as u8), Ok(MouseButton::Left));
    assert!(try_translate_button(x11::xlib::Button4 as u8).is_err());
    assert!(try_translate_button(x11::xlib::Button5 as u8).is_err());
}

#[test]
fn shift_level_goes_by_the_shift_mask_bit_of_the_keycode() {
    for x_keycode in 0..=255u8 {
        let expected = if x_keycode as u32 & x11::xlib::ShiftMask == 0 { 1 } else { 0 };
        assert_eq!(keysym_level(x_keycode), expected);
    }
}

#[test]
fn event_mask_is_composed_of_the_masks_of_xlib() {
    assert_eq!(EVENT_MASK_KEY_PRESS as i64, x11::xlib::KeyPressMask as i64);
    assert_eq!(EVENT_MASK_KEY_RELEASE as i64, x11::xlib::KeyReleaseMask as i64);
    assert_eq!(EVENT_MASK_BUTTON_PRESS as i64, x11::xlib::ButtonPressMask as i64);
    assert_eq!(EVENT_MASK_BUTTON_RELEASE as i64, x11::xlib::ButtonReleaseMask as i64);
    assert_eq!(EVENT_MASK_POINTER_MOTION as i64, x11::xlib::PointerMotionMask as i64);
    assert_eq!(EVENT_MASK_EXPOSURE as i64, x11::xlib::ExposureMask as i64);
    assert_eq!(EVENT_MASK_STRUCTURE_NOTIFY as i64, x11::xlib::StructureNotifyMask as i64);
    let mask = x11::xlib::ButtonPressMask
        | x11::xlib::ButtonReleaseMask
        | x11::xlib::KeyPressMask
        | x11::xlib::KeyReleaseMask
        | x11::xlib::ExposureMask
        | x11::xlib::PointerMotionMask
        | x11::xlib::StructureNotifyMask;
    assert_eq!(EVENT_MASK as i64, mask as i64);
}

[package]
name = "simple_window"
version = "0.1.0"
edition = "2021"
publish = false

[dependencies]
log = "0.4"
raw-window-handle = "0.6"
windows-sys = { version = "0.52", features = ["Win32_Foundation", "Win32_Graphics_Gdi", "Win32_System_LibraryLoader", "Win32_UI_WindowsAndMessaging"] }
x11 = { version = "2", features = ["xlib"] }
xcb = { version = "1", features = ["xlib_xcb"] }

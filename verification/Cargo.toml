[package]
name = "maple_overlay"
version = "0.1.0"
edition = "2021"
publish = false

[dependencies]
lazy_static = "1.4"
windows = { version = "0.52", features = ["Win32_Foundation", "Win32_Graphics_Gdi", "Win32_System_LibraryLoader", "Win32_System_Threading", "Win32_UI_Input_KeyboardAndMouse", "Win32_UI_WindowsAndMessaging"] }

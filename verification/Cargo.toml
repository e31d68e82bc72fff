[package]
name = "desktop_probe"
version = "0.1.0"
edition = "2021"
publish = false

[dependencies]
tracing = "0.1"
windows = { version = "0.52", features = ["Win32_Foundation", "Win32_Graphics_Dwm", "Win32_Graphics_Gdi", "Win32_System_Threading", "Win32_UI_HiDpi", "Win32_UI_WindowsAndMessaging"] }

[package]
name = "window_vibrancy"
version = "0.1.0"
edition = "2021"
publish = false

[dependencies]
raw-window-handle = "*"
windows-sys = { version = "*", features = ["Win32_Foundation", "Win32_Graphics_Dwm", "Win32_Graphics_Gdi", "Win32_System_LibraryLoader", "Win32_System_SystemInformation", "Win32_System_Registry"] }
cocoa = "*"
objc = "*"

[package]
name = "pashari"
version = "0.1.0"
edition = "2021"
publish = false

[dependencies]
arboard = "3"
chrono = "0.4"
global-hotkey = "0.7"
image = { version = "0.25", default-features = false, features = ["png", "jpeg", "gif", "bmp", "webp"] }
raw-window-handle = "0.6"
rayon = "1"
rfd = "0.15"
softbuffer = { version = "0.4", default-features = false, features = ["x11", "x11-dlopen"] }
windows = { version = "0.58", features = ["Win32_Foundation", "Win32_Graphics_Dwm", "Win32_System_Threading", "Win32_UI_WindowsAndMessaging"] }
winit = { version = "0.30", default-features = false, features = ["rwh_06", "x11"] }

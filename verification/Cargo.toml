[package]
name = "wallpaper_pump"
version = "0.1.0"
edition = "2021"
publish = false

[dependencies]
winit = "0.27"
windows = { version = "0.43", features = ["Win32_Foundation", "Win32_UI_WindowsAndMessaging"] }
raw-window-handle = "0.5"

[package]
name = "rust_faction"
version = "0.1.0"
edition = "2021"
publish = false

[dependencies]
widestring = "1.2"
anyhow = "1"
log = "0.4"
serde = { version = "1", features = ["derive"] }
toml = "0.8"
dirs = "6"
once_cell = "1"
windows = { version = "0.48", features = ["Win32_Foundation", "Win32_System_Memory", "Win32_System_Diagnostics_Debug", "Win32_System_LibraryLoader", "Win32_System_Threading", "Win32_System_Console", "Win32_System_SystemServices", "Win32_Security", "Win32_UI_WindowsAndMessaging"] }
minhook-sys = "0.1"
flexi_logger = "0.29"
compile-time = "0.2"
eframe = { version = "0.33", default-features = false, features = ["default_fonts", "glow", "x11"] }
egui_extras = { version = "0.33", default-features = false, features = ["image"] }
rfd = "0.15"

[package]
name = "lovely_win"
version = "0.1.0"
edition = "2021"
publish = false

[dependencies]
widestring = "1"
once_cell = "1"
retour = "0.3"
windows = { version = "0.58", features = ["Win32_Foundation", "Win32_System_Console", "Win32_System_LibraryLoader", "Win32_UI_WindowsAndMessaging"] }

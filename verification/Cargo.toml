[package]
name = "cdisklinker"
version = "1.5.0"
edition = "2021"
publish = false

[dependencies]
sha2 = "0.10"
encoding_rs = "0.8"
serde = { version = "1", features = ["derive"] }
serde_json = "1"
widestring = "1"
windows = { version = "0.58", features = ["Win32_Foundation", "Win32_Security", "Win32_System_Threading", "Win32_UI_Shell", "Win32_UI_WindowsAndMessaging", "Win32_System_RestartManager", "Win32_Storage_FileSystem", "Win32_System_IO"] }

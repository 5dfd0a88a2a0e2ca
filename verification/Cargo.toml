[package]
name = "recordscreen"
version = "0.1.0"
edition = "2021"
publish = false

[dependencies]
rand = "*"
serde = { version = "*", features = ["derive"] }
serde_json = "*"
axum = "*"
tokio = { version = "*", features = ["rt-multi-thread", "net", "time"] }
reqwest = { version = "*", default-features = false, features = ["blocking", "json"] }
eframe = { version = "*", default-features = false, features = ["glow", "default_fonts", "x11"] }
windows-sys = { version = "*", features = ["Win32_Foundation", "Win32_UI_WindowsAndMessaging", "Win32_System_Threading"] }

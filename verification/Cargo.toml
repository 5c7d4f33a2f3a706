[package]
name = "wsl_cam_bridge"
version = "0.1.0"
edition = "2021"
publish = false

[dependencies]
arboard = "=3.7.0"
image = { version = "=0.25.10", default-features = false, features = ["jpeg"] }
nokhwa = "=0.10.11"
open = "=5.4.5"
serde = { version = "=1.0.229", features = ["derive"] }
serde_json = "=1.0.154"
tiny_http = "=0.12.0"
tray-icon = "=0.19.3"
windows-sys = { version = "=0.59.0", features = ["Win32_Foundation", "Win32_UI_WindowsAndMessaging"] }

[package]
name = "chosen_visualizer"
version = "1.0.3"
edition = "2021"
publish = false

[dependencies]
eframe = { version = "0.30", default-features = false, features = ["default_fonts", "glow", "x11"] }
ico = "0.3"
image = { version = "0.25", default-features = false, features = ["png", "jpeg"] }
raw-window-handle = "0.6"
reqwest = { version = "0.12", default-features = false, features = ["blocking", "rustls-tls"] }
rustfft = "6"
serde = { version = "1", features = ["derive"] }
serde_json = "1"
toml = "0.8"
tray-item = "0.10"
windows = { version = "0.58", features = ["Win32_Foundation", "Win32_Security", "Win32_System_Com", "Win32_System_Com_StructuredStorage", "Win32_System_Variant", "Win32_System_Registry", "Win32_UI_Shell", "Win32_Media", "Win32_Media_Audio"] }
windows-sys = { version = "0.59", features = ["Win32_Foundation", "Win32_Graphics_Gdi", "Win32_UI_WindowsAndMessaging"] }

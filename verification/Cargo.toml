[package]
name = "dm_rs"
version = "0.1.0"
edition = "2021"

[dependencies]
variant-rs = "=0.4.0"
windows = { version = "=0.52.0", features = ["Win32_Foundation", "Win32_System_Com", "Win32_System_Ole", "Win32_System_Variant", "Win32_UI_WindowsAndMessaging"] }

[package]
name = "itunes_com"
version = "0.1.0"
edition = "2021"
publish = false

[dependencies]
windows = { version = "=0.58.0", features = ["Win32_Foundation", "Win32_System_Com"] }
windows-core = "=0.58.0"

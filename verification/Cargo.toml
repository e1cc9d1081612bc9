[package]
name = "frper"
version = "0.1.0"
edition = "2021"
publish = false

[dependencies]
anyhow = "=1.0.104"
chrono = "=0.4.45"
env_logger = "=0.9.3"
flume = "=0.10.14"
log = "=0.4.35"
once_cell = "=1.21.4"
parking_lot = "=0.12.5"
rusqlite = "=0.28.0"
sciter-rs = "=0.5.58"
serde = { version = "=1.0.229", features = ["derive"] }
serde_json = "=1.0.154"
tokio = { version = "=1.54.1", features = ["rt-multi-thread", "macros"] }
toml = "=0.5.11"
uuid = { version = "=1.29.1", features = ["v4"] }
windows = { version = "0.37", features = ["alloc", "Win32_Foundation", "Win32_Globalization", "Win32_Security", "Win32_System_Threading", "Win32_UI_WindowsAndMessaging"] }
